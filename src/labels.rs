//! Display labels for the small integer codes of an invite record.

use vstd::prelude::*;
use crate::model::InviteData;

verus! {

/// The label of an invite kind.
pub open spec fn invite_type_spec(kind: i64) -> Seq<char> {
    if kind == 0 {
        "Guild Invite"@
    } else if kind == 1 {
        "Group DM Invite"@
    } else if kind == 2 {
        "Friend Invite"@
    } else {
        "Unknown Invite"@
    }
}

/// The label of a channel kind.
pub open spec fn channel_type_spec(kind: i64) -> Seq<char> {
    if kind == 0 {
        "Guild Text"@
    } else if kind == 1 {
        "DM"@
    } else if kind == 2 {
        "Guild Voice"@
    } else if kind == 3 {
        "Group DM"@
    } else if kind == 4 {
        "Guild Category"@
    } else if kind == 5 {
        "Guild Announcement"@
    } else if kind == 10 {
        "Announcement Thread"@
    } else if kind == 11 {
        "Public Thread"@
    } else if kind == 12 {
        "Private Thread"@
    } else if kind == 13 {
        "Guild Stage Voice"@
    } else if kind == 14 {
        "Guild Directory"@
    } else if kind == 15 {
        "Guild Forum"@
    } else if kind == 16 {
        "Guild Media"@
    } else {
        "Unknown Channel"@
    }
}

/// Maps an invite kind to its label; every other code reads "Unknown Invite".
pub fn invite_type_label(kind: i64) -> (r: String)
    ensures
        r@ == invite_type_spec(kind),
{
    let s = match kind {
        0 => "Guild Invite",
        1 => "Group DM Invite",
        2 => "Friend Invite",
        _ => "Unknown Invite",
    };
    String::from_str(s)
}

/// Maps a channel kind to its label; every other code reads "Unknown Channel".
pub fn channel_type_label(kind: i64) -> (r: String)
    ensures
        r@ == channel_type_spec(kind),
{
    let s = match kind {
        0 => "Guild Text",
        1 => "DM",
        2 => "Guild Voice",
        3 => "Group DM",
        4 => "Guild Category",
        5 => "Guild Announcement",
        10 => "Announcement Thread",
        11 => "Public Thread",
        12 => "Private Thread",
        13 => "Guild Stage Voice",
        14 => "Guild Directory",
        15 => "Guild Forum",
        16 => "Guild Media",
        _ => "Unknown Channel",
    };
    String::from_str(s)
}

/// Every code has a label: the three invite kinds and the thirteen channel
/// kinds have their own, and every other code reads "Unknown Invite" or
/// "Unknown Channel".
pub proof fn lemma_unknown_codes(kind: i64)
    ensures
        !(0 <= kind <= 2) ==> invite_type_spec(kind) == "Unknown Invite"@,
        !(0 <= kind <= 5 || 10 <= kind <= 16) ==> channel_type_spec(kind) == "Unknown Channel"@,
        invite_type_spec(kind).len() > 0,
        channel_type_spec(kind).len() > 0,
{
    reveal_strlit("Guild Invite");
    reveal_strlit("Group DM Invite");
    reveal_strlit("Friend Invite");
    reveal_strlit("Unknown Invite");
    reveal_strlit("Guild Text");
    reveal_strlit("DM");
    reveal_strlit("Guild Voice");
    reveal_strlit("Group DM");
    reveal_strlit("Guild Category");
    reveal_strlit("Guild Announcement");
    reveal_strlit("Announcement Thread");
    reveal_strlit("Public Thread");
    reveal_strlit("Private Thread");
    reveal_strlit("Guild Stage Voice");
    reveal_strlit("Guild Directory");
    reveal_strlit("Guild Forum");
    reveal_strlit("Guild Media");
    reveal_strlit("Unknown Channel");
}

impl InviteData {
    /// The label of this invite's kind.
    pub fn get_invite_type(&self) -> (r: String)
        ensures
            r@ == invite_type_spec(self.kind),
    {
        invite_type_label(self.kind)
    }

    /// The label of the kind of channel this invite leads to.
    pub fn get_channel_type(&self) -> (r: String)
        ensures
            r@ == channel_type_spec(self.channel.kind),
    {
        channel_type_label(self.channel.kind)
    }
}

} // verus!
