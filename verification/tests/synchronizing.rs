use starboard::config::SyncConfig;
use starboard::model::Author;
use starboard::model::MemberInfo;
use starboard::model::MessageKind;
use starboard::model::ReactionGroup;
use starboard::model::SourceMessage;
use starboard::sync::synchronize_start;
use starboard::sync::synchronize_step;
use starboard::sync::Step;
use starboard::sync::SyncAction;
use starboard::sync::SyncError;
use starboard::sync::SyncEvent;
use starboard::sync::SyncInput;

/// An in-memory stand-in for the mapping store and the chat platform.
struct World {
    mapping: Option<u64>,
    member: Option<MemberInfo>,
    next_post_id: u64,
    edit_fails: bool,
    send_fails: bool,
    storage_fails: bool,
}

impl World {
    fn new() -> World {
        World {
            mapping: None,
            member: None,
            next_post_id: 100,
            edit_fails: false,
            send_fails: false,
            storage_fails: false,
        }
    }
}

/// Runs one synchronization pass to completion, performing each
/// requested operation against the world, and records the trace of
/// operations as readable strings.
fn run(config: &SyncConfig, input: &SyncInput, world: &mut World) -> (Result<(), SyncError>, Vec<String>) {
    let mut trace: Vec<String> = Vec::new();
    let mut step = synchronize_start(config, input);
    loop {
        match step {
            Step::Done { outcome } => return (outcome, trace),
            Step::Request { state, action } => {
                let event = match action {
                    SyncAction::GetMapping => {
                        trace.push(String::from("get-mapping"));
                        if world.storage_fails {
                            SyncEvent::StorageFailed
                        } else {
                            SyncEvent::MappingRead { mapping: world.mapping }
                        }
                    }
                    SyncAction::DeleteMapping => {
                        trace.push(String::from("delete-mapping"));
                        world.mapping = None;
                        SyncEvent::MappingDeleted
                    }
                    SyncAction::DeleteRemotePost { channel_id, post_id } => {
                        trace.push(format!("delete-post {channel_id} {post_id}"));
                        SyncEvent::RemoteDeleteFinished
                    }
                    SyncAction::FetchMember { guild_id, user_id } => {
                        trace.push(format!("fetch-member {guild_id} {user_id}"));
                        match &world.member {
                            Some(m) => SyncEvent::MemberFetched { member: m.clone() },
                            None => SyncEvent::MemberFetchFailed,
                        }
                    }
                    SyncAction::EditPost { channel_id, post_id, post } => {
                        trace.push(format!("edit {channel_id} {post_id} [{}]", post.content));
                        SyncEvent::EditFinished { success: !world.edit_fails }
                    }
                    SyncAction::SendPost { channel_id, post } => {
                        trace.push(format!("send {channel_id} [{}]", post.content));
                        if world.send_fails {
                            SyncEvent::SendFailed
                        } else {
                            world.next_post_id += 1;
                            SyncEvent::PostSent { post_id: world.next_post_id }
                        }
                    }
                    SyncAction::PutMapping { post_id } => {
                        trace.push(format!("put-mapping {post_id}"));
                        world.mapping = Some(post_id);
                        SyncEvent::MappingStored
                    }
                };
                step = synchronize_step(config, input, state, event);
            }
        }
    }
}

fn input_with_stars(count: u64) -> SyncInput {
    SyncInput {
        event_guild_id: Some(1),
        target_guild_id: Some(1),
        guild_name: Some(String::from("Guild")),
        message: SourceMessage {
            id: 10,
            channel_id: 4,
            author: Author {
                id: 2,
                name: String::from("hook"),
                avatar_url: None,
                default_avatar_url: String::from("https://cdn.example/default.png"),
            },
            kind: MessageKind::Regular,
            content: String::from("starred words"),
            reactions: vec![ReactionGroup { emoji: String::from("\u{2b50}"), count }],
            attachments: Vec::new(),
            embeds: Vec::new(),
            referenced_message: None,
            message_reference: None,
            interaction: None,
            has_stickers: false,
            timestamp_millis: 0,
            via_webhook: true,
        },
    }
}

fn config() -> SyncConfig {
    SyncConfig { starboard_channel_id: Some(99) }
}

#[test]
fn idempotent_passes_create_then_edit_identical_content() {
    let cfg = config();
    let input = input_with_stars(2);
    let mut world = World::new();

    let (outcome1, trace1) = run(&cfg, &input, &mut world);
    assert!(outcome1.is_ok());
    assert_eq!(
        trace1,
        vec![
            String::from("get-mapping"),
            String::from("send 99 [**\u{2b50} 2** in <#4>]"),
            String::from("put-mapping 101"),
        ]
    );
    assert_eq!(world.mapping, Some(101));

    let (outcome2, trace2) = run(&cfg, &input, &mut world);
    assert!(outcome2.is_ok());
    assert_eq!(
        trace2,
        vec![
            String::from("get-mapping"),
            String::from("edit 99 101 [**\u{2b50} 2** in <#4>]"),
        ]
    );
    assert_eq!(world.mapping, Some(101));
}

#[test]
fn qualifying_set_emptying_removes_post_and_mapping() {
    let cfg = config();
    let mut world = World::new();

    let (outcome1, _) = run(&cfg, &input_with_stars(3), &mut world);
    assert!(outcome1.is_ok());
    assert_eq!(world.mapping, Some(101));

    let (outcome2, trace2) = run(&cfg, &input_with_stars(1), &mut world);
    assert!(outcome2.is_ok());
    assert_eq!(
        trace2,
        vec![
            String::from("get-mapping"),
            String::from("delete-mapping"),
            String::from("delete-post 99 101"),
        ]
    );
    assert_eq!(world.mapping, None);

    let (outcome3, trace3) = run(&cfg, &input_with_stars(0), &mut world);
    assert!(outcome3.is_ok());
    assert_eq!(trace3, vec![String::from("get-mapping")]);
    assert_eq!(world.mapping, None);
}

#[test]
fn failed_edit_recreates_under_a_fresh_id() {
    let cfg = config();
    let input = input_with_stars(2);
    let mut world = World::new();
    world.mapping = Some(50);
    world.edit_fails = true;

    let (outcome, trace) = run(&cfg, &input, &mut world);
    assert!(outcome.is_ok());
    assert_eq!(
        trace,
        vec![
            String::from("get-mapping"),
            String::from("edit 99 50 [**\u{2b50} 2** in <#4>]"),
            String::from("delete-mapping"),
            String::from("send 99 [**\u{2b50} 2** in <#4>]"),
            String::from("put-mapping 101"),
        ]
    );
    assert_eq!(world.mapping, Some(101));
    assert_ne!(world.mapping, Some(50));
}

#[test]
fn cross_guild_event_is_a_silent_no_op() {
    let cfg = config();
    let mut input = input_with_stars(5);
    input.target_guild_id = Some(2);
    let mut world = World::new();
    world.mapping = Some(50);

    let (outcome, trace) = run(&cfg, &input, &mut world);
    assert!(outcome.is_ok());
    assert!(trace.is_empty());
    assert_eq!(world.mapping, Some(50));
}

#[test]
fn event_outside_any_guild_is_a_no_op() {
    let cfg = config();
    let mut input = input_with_stars(5);
    input.event_guild_id = None;
    let (outcome, trace) = run(&cfg, &input, &mut World::new());
    assert!(outcome.is_ok());
    assert!(trace.is_empty());
}

#[test]
fn unconfigured_channel_is_a_no_op() {
    let cfg = SyncConfig { starboard_channel_id: None };
    let (outcome, trace) = run(&cfg, &input_with_stars(5), &mut World::new());
    assert!(outcome.is_ok());
    assert!(trace.is_empty());
}

#[test]
fn unresolvable_channel_is_fatal() {
    let cfg = config();
    let mut input = input_with_stars(5);
    input.target_guild_id = None;
    let (outcome, trace) = run(&cfg, &input, &mut World::new());
    assert_eq!(outcome.unwrap_err(), SyncError::TargetChannelNotCached);
    assert!(trace.is_empty());
}

#[test]
fn message_inside_the_starboard_channel_is_skipped() {
    let cfg = config();
    let mut input = input_with_stars(5);
    input.message.channel_id = 99;
    let (outcome, trace) = run(&cfg, &input, &mut World::new());
    assert!(outcome.is_ok());
    assert!(trace.is_empty());
}

#[test]
fn member_is_fetched_for_non_webhook_messages() {
    let cfg = config();
    let mut input = input_with_stars(2);
    input.message.via_webhook = false;
    let mut world = World::new();
    world.member = Some(MemberInfo {
        display_name: String::from("Display"),
        avatar_url: None,
    });

    let (outcome, trace) = run(&cfg, &input, &mut world);
    assert!(outcome.is_ok());
    assert_eq!(
        trace,
        vec![
            String::from("get-mapping"),
            String::from("fetch-member 1 2"),
            String::from("send 99 [**\u{2b50} 2** in <#4>]"),
            String::from("put-mapping 101"),
        ]
    );
}

#[test]
fn failed_member_fetch_is_fatal() {
    let cfg = config();
    let mut input = input_with_stars(2);
    input.message.via_webhook = false;
    let (outcome, _) = run(&cfg, &input, &mut World::new());
    assert_eq!(outcome.unwrap_err(), SyncError::MemberFetchFailed);
}

#[test]
fn storage_failure_is_fatal() {
    let cfg = config();
    let mut world = World::new();
    world.storage_fails = true;
    let (outcome, _) = run(&cfg, &input_with_stars(2), &mut world);
    assert_eq!(outcome.unwrap_err(), SyncError::StorageFailed);
}

#[test]
fn failed_send_surfaces_and_stores_nothing() {
    let cfg = config();
    let mut world = World::new();
    world.send_fails = true;
    let (outcome, trace) = run(&cfg, &input_with_stars(2), &mut world);
    assert_eq!(outcome.unwrap_err(), SyncError::SendFailed);
    assert_eq!(
        trace,
        vec![
            String::from("get-mapping"),
            String::from("send 99 [**\u{2b50} 2** in <#4>]"),
        ]
    );
    assert_eq!(world.mapping, None);
}

#[test]
fn build_failure_aborts_without_mapping_changes() {
    let cfg = config();
    let mut input = input_with_stars(2);
    input.message.kind = MessageKind::BoostTier1;
    input.guild_name = None;
    let mut world = World::new();
    world.mapping = Some(50);
    let (outcome, trace) = run(&cfg, &input, &mut world);
    assert!(matches!(outcome.unwrap_err(), SyncError::Build(_)));
    assert_eq!(trace, vec![String::from("get-mapping")]);
    assert_eq!(world.mapping, Some(50));
}
