//! Links to the images of an invite: avatars, banners, icons and the like.
//!
//! An image that may be animated is first looked for as a `.gif`; whether that
//! file exists is learnt over the network by the caller, who hands the answer
//! back as `gif_found`.

use vstd::prelude::*;
use crate::model::{Guild, InviteData, Inviter};

verus! {

/// The kinds of image a person has.
#[derive(Clone, Copy, Debug, PartialEq, Eq, Structural)]
pub enum InviterImageType {
    Avatar,
    Banner,
    AvatarDecoration,
}

/// The kinds of image a community has.
#[derive(Clone, Copy, Debug, PartialEq, Eq, Structural)]
pub enum GuildImageType {
    Splash,
    Banner,
    Icon,
}

/// The host that serves all images.
pub open spec fn cdn_base() -> Seq<char> {
    "https://cdn.discordapp.com/"@
}

/// The image shown for a person without an avatar.
pub open spec fn default_avatar_url() -> Seq<char> {
    "https://cdn.discordapp.com/embed/avatars/0.png"@
}

/// What stands where there is no image.
pub open spec fn none_text() -> Seq<char> {
    "None"@
}

/// The query that asks for the largest size.
pub open spec fn size_query() -> Seq<char> {
    "?size=4096"@
}

/// The path segment of a person's image kind.
pub open spec fn inviter_path(kind: InviterImageType) -> Seq<char> {
    match kind {
        InviterImageType::Avatar => "avatars"@,
        InviterImageType::Banner => "banners"@,
        InviterImageType::AvatarDecoration => "avatar-decoration-presets"@,
    }
}

/// The path segment of a community's image kind.
pub open spec fn guild_path(kind: GuildImageType) -> Seq<char> {
    match kind {
        GuildImageType::Splash => "splashes"@,
        GuildImageType::Banner => "banners"@,
        GuildImageType::Icon => "icons"@,
    }
}

/// The link to an owner's image, without its extension.
pub open spec fn asset_stem(path: Seq<char>, owner: Seq<char>, asset: Seq<char>) -> Seq<char> {
    cdn_base() + path + "/"@ + owner + "/"@ + asset
}

/// The extension, with the size query, that a probe decides on.
pub open spec fn probed_suffix(gif_found: bool) -> Seq<char> {
    if gif_found {
        ".gif"@ + size_query()
    } else {
        ".png"@ + size_query()
    }
}

/// The link to a decoration, which is never animated.
pub open spec fn decoration_link(asset: Seq<char>) -> Seq<char> {
    cdn_base() + inviter_path(InviterImageType::AvatarDecoration) + "/"@ + asset + ".png"@
        + size_query()
}

/// The view of an optional string.
pub open spec fn opt_view(o: Option<String>) -> Option<Seq<char>> {
    match o {
        Some(s) => Some(s@),
        None => None,
    }
}

/// The reference to a person's image of the given kind, if they have one.
pub open spec fn inviter_asset(inv: Inviter, kind: InviterImageType) -> Option<Seq<char>> {
    match kind {
        InviterImageType::Avatar => opt_view(inv.avatar),
        InviterImageType::Banner => opt_view(inv.banner),
        InviterImageType::AvatarDecoration => match inv.avatar_decoration_data {
            Some(d) => Some(d.asset@),
            None => None,
        },
    }
}

/// The reference to a community's image of the given kind, if it has one.
pub open spec fn guild_asset(g: Guild, kind: GuildImageType) -> Option<Seq<char>> {
    match kind {
        GuildImageType::Splash => opt_view(g.splash),
        GuildImageType::Banner => opt_view(g.banner),
        GuildImageType::Icon => opt_view(g.icon),
    }
}

/// The `.gif` link to probe for a person's image, where a probe is needed.
pub open spec fn inviter_probe_spec(inv: Inviter, kind: InviterImageType) -> Option<Seq<char>> {
    match inviter_asset(inv, kind) {
        Some(a) => if kind == InviterImageType::AvatarDecoration {
            None
        } else {
            Some(asset_stem(inviter_path(kind), inv.id@, a) + ".gif"@)
        },
        None => None,
    }
}

/// The link shown for a person's image, given what the probe found.
pub open spec fn inviter_link_spec(inv: Inviter, kind: InviterImageType, gif_found: bool) -> Seq<
    char,
> {
    match inviter_asset(inv, kind) {
        None => if kind == InviterImageType::Avatar {
            default_avatar_url()
        } else {
            none_text()
        },
        Some(a) => if kind == InviterImageType::AvatarDecoration {
            decoration_link(a)
        } else {
            asset_stem(inviter_path(kind), inv.id@, a) + probed_suffix(gif_found)
        },
    }
}

/// The `.gif` link to probe for a community's image, where it has one.
pub open spec fn guild_probe_spec(g: Guild, kind: GuildImageType) -> Option<Seq<char>> {
    match guild_asset(g, kind) {
        Some(a) => Some(asset_stem(guild_path(kind), g.id@, a) + ".gif"@),
        None => None,
    }
}

/// The link shown for a community's image, given what the probe found.
pub open spec fn guild_link_spec(g: Guild, kind: GuildImageType, gif_found: bool) -> Seq<char> {
    match guild_asset(g, kind) {
        None => none_text(),
        Some(a) => asset_stem(guild_path(kind), g.id@, a) + probed_suffix(gif_found),
    }
}

/// A person without an avatar gets the default avatar, one without a banner
/// gets "None", and a decoration links straight to its preset `.png`, with no
/// probe; a community without an image of a kind gets "None".
pub proof fn lemma_fixed_links(inv: Inviter, g: Guild, gk: GuildImageType, gif_found: bool)
    ensures
        inv.avatar is None ==> inviter_link_spec(inv, InviterImageType::Avatar, gif_found)
            == default_avatar_url(),
        inv.banner is None ==> inviter_link_spec(inv, InviterImageType::Banner, gif_found)
            == none_text(),
        inviter_probe_spec(inv, InviterImageType::AvatarDecoration) is None,
        inv.avatar_decoration_data is Some ==> inviter_link_spec(
            inv,
            InviterImageType::AvatarDecoration,
            gif_found,
        ) == "https://cdn.discordapp.com/avatar-decoration-presets/"@
            + inv.avatar_decoration_data->0.asset@ + ".png?size=4096"@,
        guild_asset(g, gk) is None ==> guild_link_spec(g, gk, gif_found) == none_text()
            && guild_probe_spec(g, gk) is None,
{
    reveal_strlit("https://cdn.discordapp.com/avatar-decoration-presets/");
    reveal_strlit("https://cdn.discordapp.com/");
    reveal_strlit("avatar-decoration-presets");
    reveal_strlit("/");
    reveal_strlit(".png?size=4096");
    reveal_strlit(".png");
    reveal_strlit("?size=4096");
    if inv.avatar_decoration_data is Some {
        let a = inv.avatar_decoration_data->0.asset@;
        assert(decoration_link(a) =~= "https://cdn.discordapp.com/avatar-decoration-presets/"@ + a
            + ".png?size=4096"@);
    }
}

/// Where a person or community has an image that may be animated, the link is
/// the kind's path under the owner's id, then `.gif?size=4096` when the probe
/// of the `.gif` link found it and `.png?size=4096` when it did not.
pub proof fn lemma_probe_decides_extension(
    inv: Inviter,
    kind: InviterImageType,
    g: Guild,
    gk: GuildImageType,
    gif_found: bool,
)
    ensures
        kind != InviterImageType::AvatarDecoration && inviter_asset(inv, kind) is Some ==> {
            let stem = asset_stem(inviter_path(kind), inv.id@, inviter_asset(inv, kind)->0);
            let link = inviter_link_spec(inv, kind, gif_found);
            &&& inviter_probe_spec(inv, kind) == Some(stem + ".gif"@)
            &&& link.len() == stem.len() + 14
            &&& link.subrange(0, stem.len() as int) == stem
            &&& gif_found ==> link.subrange(stem.len() as int, link.len() as int)
                == ".gif?size=4096"@
            &&& !gif_found ==> link.subrange(stem.len() as int, link.len() as int)
                == ".png?size=4096"@
        },
        guild_asset(g, gk) is Some ==> {
            let stem = asset_stem(guild_path(gk), g.id@, guild_asset(g, gk)->0);
            let link = guild_link_spec(g, gk, gif_found);
            &&& guild_probe_spec(g, gk) == Some(stem + ".gif"@)
            &&& link.len() == stem.len() + 14
            &&& link.subrange(0, stem.len() as int) == stem
            &&& gif_found ==> link.subrange(stem.len() as int, link.len() as int)
                == ".gif?size=4096"@
            &&& !gif_found ==> link.subrange(stem.len() as int, link.len() as int)
                == ".png?size=4096"@
        },
{
    reveal_strlit(".gif?size=4096");
    reveal_strlit(".png?size=4096");
    reveal_strlit(".gif");
    reveal_strlit(".png");
    reveal_strlit("?size=4096");
    assert(probed_suffix(true) =~= ".gif?size=4096"@);
    assert(probed_suffix(false) =~= ".png?size=4096"@);
    if kind != InviterImageType::AvatarDecoration && inviter_asset(inv, kind) is Some {
        let stem = asset_stem(inviter_path(kind), inv.id@, inviter_asset(inv, kind)->0);
        let link = inviter_link_spec(inv, kind, gif_found);
        assert(link.subrange(0, stem.len() as int) =~= stem);
        assert(link.subrange(stem.len() as int, link.len() as int) =~= probed_suffix(gif_found));
    }
    if guild_asset(g, gk) is Some {
        let stem = asset_stem(guild_path(gk), g.id@, guild_asset(g, gk)->0);
        let link = guild_link_spec(g, gk, gif_found);
        assert(link.subrange(0, stem.len() as int) =~= stem);
        assert(link.subrange(stem.len() as int, link.len() as int) =~= probed_suffix(gif_found));
    }
}

impl InviterImageType {
    /// The path segment under which images of this kind are served.
    pub fn path(&self) -> (r: &'static str)
        ensures
            r@ == inviter_path(*self),
    {
        match self {
            InviterImageType::Avatar => "avatars",
            InviterImageType::Banner => "banners",
            InviterImageType::AvatarDecoration => "avatar-decoration-presets",
        }
    }
}

impl GuildImageType {
    /// The path segment under which images of this kind are served.
    pub fn path(&self) -> (r: &'static str)
        ensures
            r@ == guild_path(*self),
    {
        match self {
            GuildImageType::Splash => "splashes",
            GuildImageType::Banner => "banners",
            GuildImageType::Icon => "icons",
        }
    }
}

/// The link to an owner's image, without its extension.
fn stem(path: &str, owner: &String, asset: &String) -> (r: String)
    ensures
        r@ == asset_stem(path@, owner@, asset@),
{
    String::from_str("https://cdn.discordapp.com/").concat(path).concat("/").concat(
        owner.as_str(),
    ).concat("/").concat(asset.as_str())
}

/// Completes a link without extension once the `.gif` probe has answered:
/// `.gif` when it found the file, `.png` otherwise, then the size query.
pub fn probed_link(stem: &String, gif_found: bool) -> (r: String)
    ensures
        r@ == stem@ + probed_suffix(gif_found),
{
    let ext = if gif_found {
        ".gif"
    } else {
        ".png"
    };
    stem.clone().concat(ext).concat("?size=4096")
}

fn inviter_asset_ref(inv: &Inviter, kind: InviterImageType) -> (r: Option<&String>)
    ensures
        match r {
            Some(s) => inviter_asset(*inv, kind) == Some(s@),
            None => inviter_asset(*inv, kind) is None,
        },
{
    match kind {
        InviterImageType::Avatar => inv.avatar.as_ref(),
        InviterImageType::Banner => inv.banner.as_ref(),
        InviterImageType::AvatarDecoration => match &inv.avatar_decoration_data {
            Some(d) => Some(&d.asset),
            None => None,
        },
    }
}

fn guild_asset_ref(g: &Guild, kind: GuildImageType) -> (r: Option<&String>)
    ensures
        match r {
            Some(s) => guild_asset(*g, kind) == Some(s@),
            None => guild_asset(*g, kind) is None,
        },
{
    match kind {
        GuildImageType::Splash => g.splash.as_ref(),
        GuildImageType::Banner => g.banner.as_ref(),
        GuildImageType::Icon => g.icon.as_ref(),
    }
}

impl InviteData {
    /// The `.gif` link whose existence decides the inviter's image of this
    /// kind; `None` when no probe is needed: no inviter, no such image, or a
    /// decoration.
    pub fn inviter_probe_url(&self, img_type: InviterImageType) -> (r: Option<String>)
        ensures
            match self.inviter {
                None => r is None,
                Some(inv) => opt_view(r) == inviter_probe_spec(inv, img_type),
            },
    {
        match &self.inviter {
            None => None,
            Some(inv) => match inviter_asset_ref(inv, img_type) {
                None => None,
                Some(a) => {
                    if img_type == InviterImageType::AvatarDecoration {
                        None
                    } else {
                        Some(stem(img_type.path(), &inv.id, a).concat(".gif"))
                    }
                },
            },
        }
    }

    /// The link to the inviter's image of this kind, given whether its `.gif`
    /// was found; `None` when there is no inviter.
    pub fn inviter_id_to_link(&self, img_type: InviterImageType, gif_found: bool) -> (r: Option<
        String,
    >)
        ensures
            match self.inviter {
                None => r is None,
                Some(inv) => opt_view(r) == Some(inviter_link_spec(inv, img_type, gif_found)),
            },
    {
        match &self.inviter {
            None => None,
            Some(inv) => Some(inv.image_link(img_type, gif_found)),
        }
    }
}

impl Inviter {
    /// The link to this person's image of the given kind, given whether its
    /// `.gif` was found: the default avatar or "None" when there is no such
    /// image, the preset `.png` for a decoration.
    pub fn image_link(&self, img_type: InviterImageType, gif_found: bool) -> (r: String)
        ensures
            r@ == inviter_link_spec(*self, img_type, gif_found),
    {
        match inviter_asset_ref(self, img_type) {
            None => {
                if img_type == InviterImageType::Avatar {
                    String::from_str("https://cdn.discordapp.com/embed/avatars/0.png")
                } else {
                    String::from_str("None")
                }
            },
            Some(a) => {
                if img_type == InviterImageType::AvatarDecoration {
                    String::from_str("https://cdn.discordapp.com/").concat(img_type.path()).concat(
                        "/",
                    ).concat(a.as_str()).concat(".png").concat("?size=4096")
                } else {
                    probed_link(&stem(img_type.path(), &self.id, a), gif_found)
                }
            },
        }
    }
}

impl Guild {
    /// The `.gif` link whose existence decides this community's image of the
    /// given kind; `None` when it has no such image.
    pub fn guild_probe_url(&self, img_type: GuildImageType) -> (r: Option<String>)
        ensures
            opt_view(r) == guild_probe_spec(*self, img_type),
    {
        match guild_asset_ref(self, img_type) {
            None => None,
            Some(a) => Some(stem(img_type.path(), &self.id, a).concat(".gif")),
        }
    }

    /// The link to this community's image of the given kind, given whether
    /// its `.gif` was found; "None" when it has no such image.
    pub fn guild_id_to_link(&self, img_type: GuildImageType, gif_found: bool) -> (r: String)
        ensures
            r@ == guild_link_spec(*self, img_type, gif_found),
    {
        match guild_asset_ref(self, img_type) {
            None => String::from_str("None"),
            Some(a) => probed_link(&stem(img_type.path(), &self.id, a), gif_found),
        }
    }
}

} // verus!
