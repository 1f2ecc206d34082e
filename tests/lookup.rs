use invite_info::assets::{GuildImageType, InviterImageType};
use invite_info::badges::badge_labels;
use invite_info::labels::{channel_type_label, invite_type_label};
use invite_info::model::{AvatarDecorationData, Channel, Clan, Guild, InviteData, Inviter};
use invite_info::report::{inviter_lines, render_report, ProbeAnswers};
use invite_info::request::{
    authorization_header, authorization_value, invite_endpoint, probe_found, strip_invite_link,
    RequestError,
};
use invite_info::text::{decimal_i64, decimal_u64, hex6, strip_prefix, to_base};

fn s(x: &str) -> String {
    x.to_string()
}

fn bare_inviter() -> Inviter {
    Inviter {
        id: s("111"),
        username: s("alice"),
        avatar: None,
        discriminator: s("0"),
        public_flags: 0,
        flags: 0,
        bot: None,
        banner: None,
        accent_color: None,
        global_name: None,
        avatar_decoration_data: None,
        banner_color: None,
        clan: None,
    }
}

fn full_inviter() -> Inviter {
    Inviter {
        id: s("111"),
        username: s("alice"),
        avatar: Some(s("av1")),
        discriminator: s("0"),
        public_flags: 65,
        flags: 3,
        bot: Some(false),
        banner: Some(s("bn1")),
        accent_color: Some(0xff8800),
        global_name: Some(s("Alice")),
        avatar_decoration_data: Some(AvatarDecorationData {
            asset: s("dec1"),
            sku_id: s("sku9"),
            expires_at: None,
        }),
        banner_color: Some(s("#ff8800")),
        clan: Some(Clan {
            identity_guild_id: s("222"),
            identity_enabled: true,
            tag: s("TAG"),
            badge: s("bdg"),
        }),
    }
}

fn guild() -> Guild {
    Guild {
        id: s("222"),
        name: s("Club"),
        splash: None,
        banner: Some(s("gb")),
        description: None,
        icon: Some(s("ic")),
        features: vec![s("COMMUNITY"), s("NEWS")],
        verification_level: 1,
        vanity_url_code: None,
        nsfw_level: 0,
        nsfw: false,
        premium_subscription_count: 14,
    }
}

fn record(inviter: Option<Inviter>) -> InviteData {
    InviteData {
        kind: 0,
        code: s("abc"),
        inviter,
        expires_at: None,
        flags: 2,
        guild: guild(),
        guild_id: s("222"),
        channel: Channel { id: s("333"), kind: 0, name: s("general") },
        approximate_member_count: 1200,
        approximate_presence_count: -3,
    }
}

fn no_gifs() -> ProbeAnswers {
    ProbeAnswers { avatar: false, banner: false, splash: false, guild_banner: false, icon: false }
}

#[test]
fn badges_in_table_order() {
    assert_eq!(badge_labels(0b1000001), vec![s("Staff"), s("HypeSquad Bravery")]);
    assert_eq!(
        badge_labels(4194304 | 1024 | 2),
        vec![s("Partnered Server Owner"), s("Team Pseudo User"), s("Active Developer")]
    );
    assert_eq!(badge_labels(16).len(), 0);
    assert_eq!(badge_labels(u64::MAX).len(), 15);
}

#[test]
fn zero_mask_yields_no_badges() {
    assert!(badge_labels(0).is_empty());
    assert!(record(Some(bare_inviter())).check_flags().is_none());
    assert!(record(None).check_flags().is_none());
    let mut inv = bare_inviter();
    inv.public_flags = 64;
    assert_eq!(record(Some(inv)).check_flags(), Some(vec![s("HypeSquad Bravery")]));
}

#[test]
fn mappers_are_total() {
    assert_eq!(invite_type_label(0), "Guild Invite");
    assert_eq!(invite_type_label(1), "Group DM Invite");
    assert_eq!(invite_type_label(2), "Friend Invite");
    assert_eq!(invite_type_label(99), "Unknown Invite");
    assert_eq!(invite_type_label(-1), "Unknown Invite");
    assert_eq!(channel_type_label(0), "Guild Text");
    assert_eq!(channel_type_label(5), "Guild Announcement");
    assert_eq!(channel_type_label(10), "Announcement Thread");
    assert_eq!(channel_type_label(16), "Guild Media");
    assert_eq!(channel_type_label(6), "Unknown Channel");
    assert_eq!(channel_type_label(99), "Unknown Channel");
    let mut data = record(None);
    data.kind = 2;
    data.channel.kind = 13;
    assert_eq!(data.get_invite_type(), "Friend Invite");
    assert_eq!(data.get_channel_type(), "Guild Stage Voice");
}

#[test]
fn absent_images_get_fixed_links() {
    let data = record(Some(bare_inviter()));
    assert_eq!(
        data.inviter_id_to_link(InviterImageType::Avatar, true),
        Some(s("https://cdn.discordapp.com/embed/avatars/0.png"))
    );
    assert_eq!(data.inviter_id_to_link(InviterImageType::Banner, true), Some(s("None")));
    assert_eq!(data.inviter_probe_url(InviterImageType::Avatar), None);
    assert_eq!(data.guild.guild_id_to_link(GuildImageType::Splash, true), "None");
    assert_eq!(data.guild.guild_probe_url(GuildImageType::Splash), None);
}

#[test]
fn decoration_needs_no_probe() {
    let data = record(Some(full_inviter()));
    assert_eq!(data.inviter_probe_url(InviterImageType::AvatarDecoration), None);
    let expected = s("https://cdn.discordapp.com/avatar-decoration-presets/dec1.png?size=4096");
    assert_eq!(data.inviter_id_to_link(InviterImageType::AvatarDecoration, true), Some(expected.clone()));
    assert_eq!(data.inviter_id_to_link(InviterImageType::AvatarDecoration, false), Some(expected));
}

#[test]
fn probe_decides_extension() {
    let data = record(Some(full_inviter()));
    assert_eq!(
        data.inviter_probe_url(InviterImageType::Avatar),
        Some(s("https://cdn.discordapp.com/avatars/111/av1.gif"))
    );
    assert_eq!(
        data.inviter_id_to_link(InviterImageType::Avatar, true),
        Some(s("https://cdn.discordapp.com/avatars/111/av1.gif?size=4096"))
    );
    assert_eq!(
        data.inviter_id_to_link(InviterImageType::Avatar, false),
        Some(s("https://cdn.discordapp.com/avatars/111/av1.png?size=4096"))
    );
    assert_eq!(
        data.inviter_id_to_link(InviterImageType::Banner, false),
        Some(s("https://cdn.discordapp.com/banners/111/bn1.png?size=4096"))
    );
    assert_eq!(
        data.guild.guild_probe_url(GuildImageType::Icon),
        Some(s("https://cdn.discordapp.com/icons/222/ic.gif"))
    );
    assert_eq!(
        data.guild.guild_id_to_link(GuildImageType::Banner, true),
        "https://cdn.discordapp.com/banners/222/gb.gif?size=4096"
    );
    assert_eq!(
        data.guild.guild_id_to_link(GuildImageType::Icon, false),
        "https://cdn.discordapp.com/icons/222/ic.png?size=4096"
    );
    assert_eq!(InviterImageType::AvatarDecoration.path(), "avatar-decoration-presets");
    assert_eq!(GuildImageType::Splash.path(), "splashes");
}

#[test]
fn no_inviter_means_one_line() {
    let data = record(None);
    assert_eq!(inviter_lines(&data.inviter, no_gifs()), vec![s("Inviter: None")]);
    assert_eq!(data.inviter_probe_url(InviterImageType::Avatar), None);
    assert_eq!(data.inviter_probe_url(InviterImageType::Banner), None);
    assert_eq!(data.inviter_id_to_link(InviterImageType::Avatar, true), None);
    let report = render_report(&data, "abc", no_gifs());
    assert!(report.contains(&s("Inviter: None")));
    assert!(!report.iter().any(|l| l.starts_with(" - Avatar") || l.starts_with(" - Badge")));
}

#[test]
fn accent_color_is_six_hex_digits() {
    let data = record(Some(full_inviter()));
    let lines = inviter_lines(&data.inviter, no_gifs());
    assert!(lines.contains(&s(" - Accent Color: ff8800")));
    let mut inv = bare_inviter();
    inv.accent_color = Some(0x00000a);
    let lines = inviter_lines(&Some(inv), no_gifs());
    assert!(lines.contains(&s(" - Accent Color: 00000a")));
}

#[test]
fn full_report_lines() {
    let data = record(Some(full_inviter()));
    let answers = ProbeAnswers { avatar: true, banner: false, splash: false, guild_banner: true, icon: false };
    let report = render_report(&data, "abc", answers);
    let expected: Vec<String> = [
        "Invite:",
        " - Type: Guild Invite",
        " - Code: abc",
        " - Expires at: Life Time",
        " - Flags: 2",
        " - Member Count: 1200",
        " - Online Member Count: -3",
        " - Guild ID: 222",
        "Inviter:",
        " - ID: 111",
        " - Username: alice",
        " - Avatar: https://cdn.discordapp.com/avatars/111/av1.gif?size=4096",
        " - Discriminator: 0",
        " - Public Flags: 65",
        " - Badge:",
        " -  - Staff",
        " -  - HypeSquad Bravery",
        " - Flags: 3",
        " - Banner: https://cdn.discordapp.com/banners/111/bn1.png?size=4096",
        " - Bot: false",
        " - Banner: bn1",
        " - Accent Color: ff8800",
        " - Global Name: Alice",
        " - Avatar Decoration Data:",
        " -  - Asset: https://cdn.discordapp.com/avatar-decoration-presets/dec1.png?size=4096",
        " -  - SKU ID: sku9",
        " -  - Expires at: None",
        " - Banner Color: #ff8800",
        " - Clan:",
        " -  - Identity Guild Id: 222",
        " -  - Identity Enabled: true",
        " -  - Tag: TAG",
        " -  - Badge: bdg",
        "Guild:",
        " - ID: 222",
        " - Name: Club",
        " - Splash: None",
        " - Banner: https://cdn.discordapp.com/banners/222/gb.gif?size=4096",
        " - Description: None",
        " - Icon: https://cdn.discordapp.com/icons/222/ic.png?size=4096",
        " - Features:",
        " -  - COMMUNITY",
        " -  - NEWS",
        " - Verification Level: 1",
        " - Vanity URL Code: None",
        " - NSFW Level: 0",
        " - NSFW: false",
        " - Premium Subscription Count: 14",
        "Channel:",
        " - ID: 333",
        " - Type ID: 0",
        " - Type: Guild Text",
        " - Name: general",
        "",
    ]
    .iter()
    .map(|l| l.to_string())
    .collect();
    assert_eq!(report, expected);
}

#[test]
fn report_of_bare_inviter() {
    let mut data = record(Some(bare_inviter()));
    data.guild.features = Vec::new();
    data.expires_at = Some(s("2030-01-01T00:00:00+00:00"));
    let report = render_report(&data, "xyz", no_gifs());
    assert!(report.contains(&s(" - Expires at: 2030-01-01T00:00:00+00:00")));
    assert!(report.contains(&s(" - Avatar: https://cdn.discordapp.com/embed/avatars/0.png")));
    assert!(report.contains(&s(" - Badge: None")));
    assert!(report.contains(&s(" - Accent Color: None")));
    assert!(report.contains(&s(" - Avatar Decoration Data: None")));
    assert!(report.contains(&s(" - Clan: None")));
    assert!(report.contains(&s(" - Features: None")));
}

#[test]
fn full_links_are_stripped() {
    assert_eq!(strip_invite_link("https://discord.gg/abc123"), "abc123");
    assert_eq!(strip_invite_link("https://discord.com/invite/XyZ-9"), "XyZ-9");
    assert_eq!(strip_invite_link("abc123"), "abc123");
    assert_eq!(strip_invite_link("https://discord.gg/"), "");
    assert_eq!(strip_invite_link("http://discord.gg/abc"), "http://discord.gg/abc");
    assert_eq!(strip_prefix("héllo", "hé"), "llo");
}

#[test]
fn request_parts() {
    assert_eq!(invite_endpoint("abc"), "https://discord.com/api/v10/invites/abc?with_counts=true");
    assert_eq!(authorization_value("tok123"), "Bot tok123");
}

#[test]
fn number_texts() {
    assert_eq!(hex6(0xff8800), "ff8800");
    assert_eq!(hex6(0), "000000");
    assert_eq!(hex6(0x1234567), "1234567");
    assert_eq!(decimal_u64(0), "0");
    assert_eq!(decimal_u64(u64::MAX), "18446744073709551615");
    assert_eq!(decimal_i64(-42), "-42");
    assert_eq!(decimal_i64(i64::MIN), "-9223372036854775808");
    assert_eq!(decimal_i64(i64::MAX), "9223372036854775807");
    assert_eq!(to_base(255, 2), "11111111");
}

#[test]
fn authorization_header_checks_token() {
    let h = authorization_header("tok123").unwrap();
    assert_eq!(h.to_str().unwrap(), "Bot tok123");
    let h = authorization_header("tab\there é").unwrap();
    assert_eq!(h.as_bytes(), "Bot tab\there é".as_bytes());
    assert_eq!(authorization_header("bad\ntoken").unwrap_err(), RequestError::InvalidToken);
    assert_eq!(authorization_header("del\u{7f}").unwrap_err(), RequestError::InvalidToken);
}

#[test]
fn probe_status_decides() {
    assert!(probe_found(Some(200)));
    assert!(probe_found(Some(299)));
    assert!(!probe_found(Some(404)));
    assert!(!probe_found(Some(301)));
    assert!(!probe_found(Some(199)));
    assert!(!probe_found(None));
}
