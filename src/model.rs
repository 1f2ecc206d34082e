//! The invite record as it is decoded from one response body.

use vstd::prelude::*;

verus! {

/// A decoration shown around a person's avatar.
#[derive(Debug)]
pub struct AvatarDecorationData {
    pub asset: String,
    pub sku_id: String,
    pub expires_at: Option<String>,
}

/// The tag a person wears for a community.
#[derive(Debug)]
pub struct Clan {
    pub identity_guild_id: String,
    pub identity_enabled: bool,
    pub tag: String,
    pub badge: String,
}

/// The person who made an invite.
#[derive(Debug)]
pub struct Inviter {
    pub id: String,
    pub username: String,
    pub avatar: Option<String>,
    pub discriminator: String,
    pub public_flags: u64,
    pub flags: u64,
    pub bot: Option<bool>,
    pub banner: Option<String>,
    pub accent_color: Option<u32>,
    pub global_name: Option<String>,
    pub avatar_decoration_data: Option<AvatarDecorationData>,
    pub banner_color: Option<String>,
    pub clan: Option<Clan>,
}

/// The community an invite leads to.
#[derive(Debug)]
pub struct Guild {
    pub id: String,
    pub name: String,
    pub splash: Option<String>,
    pub banner: Option<String>,
    pub description: Option<String>,
    pub icon: Option<String>,
    pub features: Vec<String>,
    pub verification_level: i64,
    pub vanity_url_code: Option<String>,
    pub nsfw_level: i64,
    pub nsfw: bool,
    pub premium_subscription_count: i64,
}

/// The channel an invite leads to.
#[derive(Debug)]
pub struct Channel {
    pub id: String,
    pub kind: i64,
    pub name: String,
}

/// One invite, as fetched.
#[derive(Debug)]
pub struct InviteData {
    pub kind: i64,
    pub code: String,
    pub inviter: Option<Inviter>,
    pub expires_at: Option<String>,
    pub flags: i64,
    pub guild: Guild,
    pub guild_id: String,
    pub channel: Channel,
    pub approximate_member_count: i64,
    pub approximate_presence_count: i64,
}

} // verus!
