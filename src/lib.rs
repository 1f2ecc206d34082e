//! Invite lookup: from a typed line to the request that fetches the invite,
//! and from the fetched record to the lines of its report.
//!
//! Fetching and probing images happen outside; what they yield comes back in
//! as plain values (the decoded record, the status of each probe).

pub mod model;
pub mod text;
pub mod labels;
pub mod badges;
pub mod assets;
pub mod request;
pub mod report;
