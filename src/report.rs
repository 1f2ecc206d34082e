//! The text report of one invite, line by line.

use vstd::prelude::*;
use crate::assets::{
    GuildImageType, InviterImageType, guild_link_spec, inviter_link_spec, opt_view,
};
use crate::badges::{badge_labels, badges_of, views};
use crate::labels::{channel_type_spec, invite_type_spec};
use crate::model::{Channel, Guild, InviteData, Inviter};
use crate::text::{decimal_i64, decimal_of, decimal_u64, hex6, hex6_of};

verus! {

/// What the `.gif` probes found, one answer for each image that may be animated.
#[derive(Clone, Copy, Debug, PartialEq, Eq, Structural)]
pub struct ProbeAnswers {
    pub avatar: bool,
    pub banner: bool,
    pub splash: bool,
    pub guild_banner: bool,
    pub icon: bool,
}

/// A line ` - label: value`.
pub open spec fn field(label: Seq<char>, value: Seq<char>) -> Seq<char> {
    " - "@ + label + ": "@ + value
}

/// A line ` -  - label: value`, nested one level.
pub open spec fn sub_field(label: Seq<char>, value: Seq<char>) -> Seq<char> {
    " -  - "@ + label + ": "@ + value
}

/// A line ` -  - value`, one item of a list.
pub open spec fn item(value: Seq<char>) -> Seq<char> {
    " -  - "@ + value
}

/// The lines of a list of items.
pub open spec fn items(values: Seq<Seq<char>>) -> Seq<Seq<char>> {
    values.map_values(|v: Seq<char>| item(v))
}

/// The value, or "None" where there is none.
pub open spec fn or_none(o: Option<Seq<char>>) -> Seq<char> {
    match o {
        Some(v) => v,
        None => "None"@,
    }
}

/// The text of a truth value.
pub open spec fn bool_text(b: bool) -> Seq<char> {
    if b {
        "true"@
    } else {
        "false"@
    }
}

/// The section about the invite itself.
pub open spec fn invite_section(data: InviteData, code: Seq<char>) -> Seq<Seq<char>> {
    seq![
        "Invite:"@,
        field("Type"@, invite_type_spec(data.kind)),
        field("Code"@, code),
        field(
            "Expires at"@,
            match data.expires_at {
                Some(e) => e@,
                None => "Life Time"@,
            },
        ),
        field("Flags"@, decimal_of(data.flags as int)),
        field("Member Count"@, decimal_of(data.approximate_member_count as int)),
        field("Online Member Count"@, decimal_of(data.approximate_presence_count as int)),
        field("Guild ID"@, data.guild_id@),
    ]
}

/// The lines about a person's badges.
pub open spec fn badge_lines(inv: Inviter) -> Seq<Seq<char>> {
    if inv.public_flags == 0 {
        seq![field("Badge"@, "None"@)]
    } else {
        seq![" - Badge:"@] + items(badges_of(inv.public_flags))
    }
}

/// The lines about a person's avatar decoration.
pub open spec fn decoration_lines(inv: Inviter) -> Seq<Seq<char>> {
    match inv.avatar_decoration_data {
        None => seq![field("Avatar Decoration Data"@, "None"@)],
        Some(d) => seq![
            " - Avatar Decoration Data:"@,
            sub_field(
                "Asset"@,
                inviter_link_spec(inv, InviterImageType::AvatarDecoration, false),
            ),
            sub_field("SKU ID"@, d.sku_id@),
            sub_field("Expires at"@, or_none(opt_view(d.expires_at))),
        ],
    }
}

/// The lines about a person's clan.
pub open spec fn clan_lines(inv: Inviter) -> Seq<Seq<char>> {
    match inv.clan {
        None => seq![field("Clan"@, "None"@)],
        Some(c) => seq![
            " - Clan:"@,
            sub_field("Identity Guild Id"@, c.identity_guild_id@),
            sub_field("Identity Enabled"@, bool_text(c.identity_enabled)),
            sub_field("Tag"@, c.tag@),
            sub_field("Badge"@, c.badge@),
        ],
    }
}

/// The section about the person who made the invite, who is there.
pub open spec fn present_inviter_section(inv: Inviter, answers: ProbeAnswers) -> Seq<Seq<char>> {
    seq![
        "Inviter:"@,
        field("ID"@, inv.id@),
        field("Username"@, inv.username@),
        field("Avatar"@, inviter_link_spec(inv, InviterImageType::Avatar, answers.avatar)),
        field("Discriminator"@, inv.discriminator@),
        field("Public Flags"@, decimal_of(inv.public_flags as int)),
    ] + badge_lines(inv) + seq![
        field("Flags"@, decimal_of(inv.flags as int)),
        field("Banner"@, inviter_link_spec(inv, InviterImageType::Banner, answers.banner)),
        field(
            "Bot"@,
            bool_text(
                match inv.bot {
                    Some(b) => b,
                    None => false,
                },
            ),
        ),
        field("Banner"@, or_none(opt_view(inv.banner))),
        field(
            "Accent Color"@,
            match inv.accent_color {
                Some(c) => hex6_of(c as nat),
                None => "None"@,
            },
        ),
        field("Global Name"@, or_none(opt_view(inv.global_name))),
    ] + decoration_lines(inv) + seq![field("Banner Color"@, or_none(opt_view(inv.banner_color)))]
        + clan_lines(inv)
}

/// The section about the person who made the invite.
pub open spec fn inviter_section(inviter: Option<Inviter>, answers: ProbeAnswers) -> Seq<
    Seq<char>,
> {
    match inviter {
        None => seq!["Inviter: None"@],
        Some(inv) => present_inviter_section(inv, answers),
    }
}

/// The lines about a community's features.
pub open spec fn feature_lines(g: Guild) -> Seq<Seq<char>> {
    if g.features@.len() == 0 {
        seq![field("Features"@, "None"@)]
    } else {
        seq![" - Features:"@] + items(views(g.features@))
    }
}

/// The section about the community.
pub open spec fn guild_section(g: Guild, answers: ProbeAnswers) -> Seq<Seq<char>> {
    seq![
        "Guild:"@,
        field("ID"@, g.id@),
        field("Name"@, g.name@),
        field("Splash"@, guild_link_spec(g, GuildImageType::Splash, answers.splash)),
        field("Banner"@, guild_link_spec(g, GuildImageType::Banner, answers.guild_banner)),
        field("Description"@, or_none(opt_view(g.description))),
        field("Icon"@, guild_link_spec(g, GuildImageType::Icon, answers.icon)),
    ] + feature_lines(g) + seq![
        field("Verification Level"@, decimal_of(g.verification_level as int)),
        field("Vanity URL Code"@, or_none(opt_view(g.vanity_url_code))),
        field("NSFW Level"@, decimal_of(g.nsfw_level as int)),
        field("NSFW"@, bool_text(g.nsfw)),
        field("Premium Subscription Count"@, decimal_of(g.premium_subscription_count as int)),
    ]
}

/// The section about the channel.
pub open spec fn channel_section(c: Channel) -> Seq<Seq<char>> {
    seq![
        "Channel:"@,
        field("ID"@, c.id@),
        field("Type ID"@, decimal_of(c.kind as int)),
        field("Type"@, channel_type_spec(c.kind)),
        field("Name"@, c.name@),
    ]
}

/// The whole report on an invite, looked up by `code`, closed by an empty line.
pub open spec fn report_spec(data: InviteData, code: Seq<char>, answers: ProbeAnswers) -> Seq<
    Seq<char>,
> {
    invite_section(data, code) + inviter_section(data.inviter, answers) + guild_section(
        data.guild,
        answers,
    ) + channel_section(data.channel) + seq![Seq::<char>::empty()]
}

/// A line ` - label: value`.
fn field_line(label: &str, value: &str) -> (r: String)
    ensures
        r@ == field(label@, value@),
{
    String::from_str(" - ").concat(label).concat(": ").concat(value)
}

/// A line ` -  - label: value`.
fn sub_field_line(label: &str, value: &str) -> (r: String)
    ensures
        r@ == sub_field(label@, value@),
{
    String::from_str(" -  - ").concat(label).concat(": ").concat(value)
}

/// The value, or "None".
fn or_none_str(o: &Option<String>) -> (r: &str)
    ensures
        r@ == or_none(opt_view(*o)),
{
    match o {
        Some(v) => v.as_str(),
        None => "None",
    }
}

/// The text of a truth value.
fn bool_str(b: bool) -> (r: &'static str)
    ensures
        r@ == bool_text(b),
{
    if b {
        "true"
    } else {
        "false"
    }
}

/// Adds one line at the end.
fn push_line(out: &mut Vec<String>, line: String)
    ensures
        views(final(out)@) == views(old(out)@).push(line@),
{
    let ghost before = out@;
    let ghost l = line@;
    out.push(line);
    assert(views(out@) =~= views(before).push(l));
}

/// Adds lines at the end.
fn push_lines(out: &mut Vec<String>, more: Vec<String>)
    ensures
        views(final(out)@) == views(old(out)@) + views(more@),
{
    let ghost before = out@;
    let mut more = more;
    let ghost m = more@;
    out.append(&mut more);
    assert(views(out@) =~= views(before) + views(m));
}

/// The lines of a list of items.
fn item_lines(values: &Vec<String>) -> (r: Vec<String>)
    ensures
        views(r@) == items(views(values@)),
{
    let mut r: Vec<String> = Vec::new();
    let mut i: usize = 0;
    while i < values.len()
        invariant
            i <= values@.len(),
            views(r@) == items(views(values@.subrange(0, i as int))),
        decreases values@.len() - i,
    {
        push_line(&mut r, String::from_str(" -  - ").concat(values[i].as_str()));
        proof {
            assert(views(values@.subrange(0, i + 1)) =~= views(values@.subrange(0, i as int)).push(
                values@[i as int]@,
            ));
            assert(items(views(values@.subrange(0, i + 1))) =~= items(
                views(values@.subrange(0, i as int)),
            ).push(item(values@[i as int]@)));
        }
        i = i + 1;
    }
    assert(values@.subrange(0, values@.len() as int) =~= values@);
    r
}

/// The section about the invite itself.
pub fn invite_lines(data: &InviteData, code: &str) -> (r: Vec<String>)
    ensures
        views(r@) == invite_section(*data, code@),
{
    let mut r: Vec<String> = Vec::new();
    push_line(&mut r, String::from_str("Invite:"));
    push_line(&mut r, field_line("Type", data.get_invite_type().as_str()));
    push_line(&mut r, field_line("Code", code));
    let expires = match &data.expires_at {
        Some(e) => e.as_str(),
        None => "Life Time",
    };
    push_line(&mut r, field_line("Expires at", expires));
    push_line(&mut r, field_line("Flags", decimal_i64(data.flags).as_str()));
    push_line(
        &mut r,
        field_line("Member Count", decimal_i64(data.approximate_member_count).as_str()),
    );
    push_line(
        &mut r,
        field_line("Online Member Count", decimal_i64(data.approximate_presence_count).as_str()),
    );
    push_line(&mut r, field_line("Guild ID", data.guild_id.as_str()));
    assert(views(r@) =~= invite_section(*data, code@));
    r
}

/// The lines about a person's badges.
fn badge_section_lines(inv: &Inviter) -> (r: Vec<String>)
    ensures
        views(r@) == badge_lines(*inv),
{
    let mut r: Vec<String> = Vec::new();
    if inv.public_flags == 0 {
        push_line(&mut r, field_line("Badge", "None"));
    } else {
        push_line(&mut r, String::from_str(" - Badge:"));
        let labels = badge_labels(inv.public_flags);
        push_lines(&mut r, item_lines(&labels));
    }
    assert(views(r@) =~= badge_lines(*inv));
    r
}

/// The lines about a person's avatar decoration.
fn decoration_section_lines(inv: &Inviter) -> (r: Vec<String>)
    ensures
        views(r@) == decoration_lines(*inv),
{
    let mut r: Vec<String> = Vec::new();
    match &inv.avatar_decoration_data {
        None => push_line(&mut r, field_line("Avatar Decoration Data", "None")),
        Some(d) => {
            push_line(&mut r, String::from_str(" - Avatar Decoration Data:"));
            let asset = inv.image_link(InviterImageType::AvatarDecoration, false);
            push_line(&mut r, sub_field_line("Asset", asset.as_str()));
            push_line(&mut r, sub_field_line("SKU ID", d.sku_id.as_str()));
            push_line(&mut r, sub_field_line("Expires at", or_none_str(&d.expires_at)));
        },
    }
    assert(views(r@) =~= decoration_lines(*inv));
    r
}

/// The lines about a person's clan.
fn clan_section_lines(inv: &Inviter) -> (r: Vec<String>)
    ensures
        views(r@) == clan_lines(*inv),
{
    let mut r: Vec<String> = Vec::new();
    match &inv.clan {
        None => push_line(&mut r, field_line("Clan", "None")),
        Some(c) => {
            push_line(&mut r, String::from_str(" - Clan:"));
            push_line(&mut r, sub_field_line("Identity Guild Id", c.identity_guild_id.as_str()));
            push_line(&mut r, sub_field_line("Identity Enabled", bool_str(c.identity_enabled)));
            push_line(&mut r, sub_field_line("Tag", c.tag.as_str()));
            push_line(&mut r, sub_field_line("Badge", c.badge.as_str()));
        },
    }
    assert(views(r@) =~= clan_lines(*inv));
    r
}

/// The section about a person who made an invite.
fn present_inviter_lines(inv: &Inviter, answers: ProbeAnswers) -> (r: Vec<String>)
    ensures
        views(r@) == present_inviter_section(*inv, answers),
{
    let mut r: Vec<String> = Vec::new();
    push_line(&mut r, String::from_str("Inviter:"));
    push_line(&mut r, field_line("ID", inv.id.as_str()));
    push_line(&mut r, field_line("Username", inv.username.as_str()));
    let avatar = inv.image_link(InviterImageType::Avatar, answers.avatar);
    push_line(&mut r, field_line("Avatar", avatar.as_str()));
    push_line(&mut r, field_line("Discriminator", inv.discriminator.as_str()));
    push_line(&mut r, field_line("Public Flags", decimal_u64(inv.public_flags).as_str()));
    push_lines(&mut r, badge_section_lines(inv));
    push_line(&mut r, field_line("Flags", decimal_u64(inv.flags).as_str()));
    let banner = inv.image_link(InviterImageType::Banner, answers.banner);
    push_line(&mut r, field_line("Banner", banner.as_str()));
    let bot = match inv.bot {
        Some(b) => b,
        None => false,
    };
    push_line(&mut r, field_line("Bot", bool_str(bot)));
    push_line(&mut r, field_line("Banner", or_none_str(&inv.banner)));
    match inv.accent_color {
        Some(c) => push_line(&mut r, field_line("Accent Color", hex6(c).as_str())),
        None => push_line(&mut r, field_line("Accent Color", "None")),
    }
    push_line(&mut r, field_line("Global Name", or_none_str(&inv.global_name)));
    push_lines(&mut r, decoration_section_lines(inv));
    push_line(&mut r, field_line("Banner Color", or_none_str(&inv.banner_color)));
    push_lines(&mut r, clan_section_lines(inv));
    assert(views(r@) =~= present_inviter_section(*inv, answers));
    r
}

/// The section about the person who made the invite; the single line
/// "Inviter: None" when nobody did, with no image or badge looked at.
pub fn inviter_lines(inviter: &Option<Inviter>, answers: ProbeAnswers) -> (r: Vec<String>)
    ensures
        views(r@) == inviter_section(*inviter, answers),
{
    match inviter {
        None => {
            let mut r: Vec<String> = Vec::new();
            push_line(&mut r, String::from_str("Inviter: None"));
            assert(views(r@) =~= inviter_section(*inviter, answers));
            r
        },
        Some(inv) => present_inviter_lines(inv, answers),
    }
}

/// The lines about a community's features.
fn feature_section_lines(g: &Guild) -> (r: Vec<String>)
    ensures
        views(r@) == feature_lines(*g),
{
    let mut r: Vec<String> = Vec::new();
    if g.features.len() == 0 {
        push_line(&mut r, field_line("Features", "None"));
    } else {
        push_line(&mut r, String::from_str(" - Features:"));
        push_lines(&mut r, item_lines(&g.features));
    }
    assert(views(r@) =~= feature_lines(*g));
    r
}

/// The section about the community.
pub fn guild_lines(g: &Guild, answers: ProbeAnswers) -> (r: Vec<String>)
    ensures
        views(r@) == guild_section(*g, answers),
{
    let mut r: Vec<String> = Vec::new();
    push_line(&mut r, String::from_str("Guild:"));
    push_line(&mut r, field_line("ID", g.id.as_str()));
    push_line(&mut r, field_line("Name", g.name.as_str()));
    let splash = g.guild_id_to_link(GuildImageType::Splash, answers.splash);
    push_line(&mut r, field_line("Splash", splash.as_str()));
    let banner = g.guild_id_to_link(GuildImageType::Banner, answers.guild_banner);
    push_line(&mut r, field_line("Banner", banner.as_str()));
    push_line(&mut r, field_line("Description", or_none_str(&g.description)));
    let icon = g.guild_id_to_link(GuildImageType::Icon, answers.icon);
    push_line(&mut r, field_line("Icon", icon.as_str()));
    push_lines(&mut r, feature_section_lines(g));
    push_line(
        &mut r,
        field_line("Verification Level", decimal_i64(g.verification_level).as_str()),
    );
    push_line(&mut r, field_line("Vanity URL Code", or_none_str(&g.vanity_url_code)));
    push_line(&mut r, field_line("NSFW Level", decimal_i64(g.nsfw_level).as_str()));
    push_line(&mut r, field_line("NSFW", bool_str(g.nsfw)));
    push_line(
        &mut r,
        field_line(
            "Premium Subscription Count",
            decimal_i64(g.premium_subscription_count).as_str(),
        ),
    );
    assert(views(r@) =~= guild_section(*g, answers));
    r
}

/// The section about the channel.
pub fn channel_lines(data: &InviteData) -> (r: Vec<String>)
    ensures
        views(r@) == channel_section(data.channel),
{
    let mut r: Vec<String> = Vec::new();
    push_line(&mut r, String::from_str("Channel:"));
    push_line(&mut r, field_line("ID", data.channel.id.as_str()));
    push_line(&mut r, field_line("Type ID", decimal_i64(data.channel.kind).as_str()));
    push_line(&mut r, field_line("Type", data.get_channel_type().as_str()));
    push_line(&mut r, field_line("Name", data.channel.name.as_str()));
    assert(views(r@) =~= channel_section(data.channel));
    r
}

/// The whole report on an invite looked up by `code`, given what the `.gif`
/// probes found, closed by an empty line.
pub fn render_report(data: &InviteData, code: &str, answers: ProbeAnswers) -> (r: Vec<String>)
    ensures
        views(r@) == report_spec(*data, code@, answers),
{
    let mut r = invite_lines(data, code);
    push_lines(&mut r, inviter_lines(&data.inviter, answers));
    push_lines(&mut r, guild_lines(&data.guild, answers));
    push_lines(&mut r, channel_lines(data));
    push_line(&mut r, String::new());
    assert(views(r@) =~= report_spec(*data, code@, answers));
    r
}

} // verus!
