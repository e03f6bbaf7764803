use starboard::model::Attachment;
use starboard::model::Author;
use starboard::model::EmbedInfo;
use starboard::model::MemberInfo;
use starboard::model::MessageKind;
use starboard::model::ReactionGroup;
use starboard::post::build;
use starboard::post::BuildError;
use starboard::format::FormatError;
use starboard::model::SourceMessage;

fn message(content: &str) -> SourceMessage {
    SourceMessage {
        id: 10,
        channel_id: 4,
        author: Author {
            id: 2,
            name: String::from("hook-name"),
            avatar_url: None,
            default_avatar_url: String::from("https://cdn.example/default.png"),
        },
        kind: MessageKind::Regular,
        content: String::from(content),
        reactions: Vec::new(),
        attachments: Vec::new(),
        embeds: Vec::new(),
        referenced_message: None,
        message_reference: None,
        interaction: None,
        has_stickers: false,
        timestamp_millis: 0,
        via_webhook: true,
    }
}

fn stars(count: u64) -> Vec<ReactionGroup> {
    vec![ReactionGroup { emoji: String::from("\u{2b50}"), count }]
}

#[test]
fn webhook_author_keeps_its_name_and_gets_no_link() {
    let m = message("hello");
    let p = build(&m, 1, &None, &None, &stars(3)).unwrap();
    assert_eq!(p.author.name, "hook-name");
    assert_eq!(p.author.icon_url, "https://cdn.discordapp.com/embed/avatars/0.png");
    assert!(p.author.profile_url.is_none());
}

#[test]
fn member_author_links_to_the_profile() {
    let mut m = message("hello");
    m.via_webhook = false;
    m.author.avatar_url = Some(String::from("https://cdn.example/author.png"));
    let member = MemberInfo { display_name: String::from("Display"), avatar_url: None };
    let p = build(&m, 1, &None, &Some(member), &stars(3)).unwrap();
    assert_eq!(p.author.name, "Display");
    assert_eq!(p.author.icon_url, "https://cdn.example/author.png");
    assert_eq!(p.author.profile_url.as_deref(), Some("https://discord.com/users/2"));
}

#[test]
fn member_avatar_wins_over_author_avatar() {
    let mut m = message("hello");
    m.via_webhook = false;
    m.author.avatar_url = Some(String::from("https://cdn.example/author.png"));
    let member = MemberInfo {
        display_name: String::from("Display"),
        avatar_url: Some(String::from("https://cdn.example/member.png")),
    };
    let p = build(&m, 1, &None, &Some(member), &stars(3)).unwrap();
    assert_eq!(p.author.icon_url, "https://cdn.example/member.png");
}

#[test]
fn missing_avatars_fall_back_to_default() {
    let mut m = message("hello");
    m.via_webhook = false;
    let member = MemberInfo { display_name: String::from("Display"), avatar_url: None };
    let p = build(&m, 1, &None, &Some(member), &stars(3)).unwrap();
    assert_eq!(p.author.icon_url, "https://cdn.example/default.png");
}

#[test]
fn first_image_attachment_is_used() {
    let mut m = message("hello");
    m.attachments = vec![
        Attachment { url: String::from("https://files.example/a.txt"), content_type: Some(String::from("text/plain")) },
        Attachment { url: String::from("https://files.example/b.png"), content_type: Some(String::from("image/png")) },
        Attachment { url: String::from("https://files.example/c.png"), content_type: Some(String::from("image/png")) },
    ];
    let p = build(&m, 1, &None, &None, &stars(3)).unwrap();
    assert_eq!(p.image_url.as_deref(), Some("https://files.example/b.png"));
}

#[test]
fn image_embed_is_used_when_no_attachment_matches() {
    let mut m = message("hello");
    m.attachments = vec![Attachment {
        url: String::from("https://files.example/a.txt"),
        content_type: None,
    }];
    m.embeds = vec![EmbedInfo {
        kind: Some(String::from("image")),
        url: Some(String::from("https://img.example/e.png")),
    }];
    let p = build(&m, 1, &None, &None, &stars(3)).unwrap();
    assert_eq!(p.image_url.as_deref(), Some("https://img.example/e.png"));
}

#[test]
fn image_embed_without_url_fails() {
    let mut m = message("hello");
    m.embeds = vec![EmbedInfo { kind: Some(String::from("image")), url: None }];
    let e = build(&m, 1, &None, &None, &stars(3)).unwrap_err();
    assert_eq!(e, BuildError::MissingImageUrl);
}

#[test]
fn no_image_when_nothing_matches() {
    let m = message("hello");
    let p = build(&m, 1, &None, &None, &stars(3)).unwrap();
    assert!(p.image_url.is_none());
}

#[test]
fn content_line_joins_tally_in_order() {
    let m = message("hello");
    let q = vec![
        ReactionGroup { emoji: String::from("\u{2b50}"), count: 3 },
        ReactionGroup { emoji: String::from("\u{1f40c}"), count: 2 },
    ];
    let p = build(&m, 1, &None, &None, &q).unwrap();
    assert_eq!(p.content, "**\u{2b50} 3  \u{1f40c} 2** in <#4>");
}

#[test]
fn action_link_targets_the_source_message() {
    let m = message("hello");
    let p = build(&m, 1, &None, &None, &stars(3)).unwrap();
    assert_eq!(p.link_url, "https://discord.com/channels/1/4/10");
    assert_eq!(p.link_label, "Original Message");
}

#[test]
fn description_is_the_unquoted_rendering() {
    let m = message("some words");
    let p = build(&m, 1, &None, &None, &stars(3)).unwrap();
    assert_eq!(p.description, "some words");
}

#[test]
fn formatting_error_aborts_the_build() {
    let mut m = message("");
    m.kind = MessageKind::BoostTier3;
    let e = build(&m, 1, &None, &None, &stars(3)).unwrap_err();
    assert_eq!(e, BuildError::Format(FormatError::UncachedGuild));
}
