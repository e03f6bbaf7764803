//! The starboard synchronizer, as a step-driven state machine.
//!
//! Every remote effect — reading and writing the mapping store, fetching
//! a member, sending, editing and deleting the curated post — happens
//! between steps: `synchronize_start` inspects the guards and requests
//! the first action, the surrounding program performs it and hands the
//! result back as a `SyncEvent`, and `synchronize_step` decides the next
//! action, until a step returns `Step::Done`. The exact decision rules
//! are the spec functions `start_spec` and `step_spec`; the proof
//! functions at the end state the synchronizer's convergence laws over
//! whole traces.

use vstd::prelude::*;
use crate::config::SyncConfig;
use crate::model::GroupV;
use crate::model::MemberInfo;
use crate::model::ReactionGroup;
use crate::model::SourceMessage;
use crate::model::groups_view;
use crate::post::AuthorBlock;
use crate::post::BuildError;
use crate::post::PostV;
use crate::post::RenderedPost;
use crate::post::build;
use crate::post::build_spec;
use crate::tally::qualify;
use crate::tally::qualify_spec;

verus! {

/// Why a synchronization pass failed.
#[derive(Clone, Copy, Debug, PartialEq, Eq, Structural)]
pub enum SyncError {
    /// The configured target channel is not locally resolvable.
    TargetChannelNotCached,
    /// The post could not be assembled.
    Build(BuildError),
    /// The author's guild member could not be resolved.
    MemberFetchFailed,
    /// A mapping-store read or write failed.
    StorageFailed,
    /// Sending the new post failed.
    SendFailed,
}

/// Everything a synchronization pass reads, gathered up front: the
/// event's guild, the locally resolved guild of the configured target
/// channel (`None` when the channel is not in the local cache), the
/// locally resolved guild name (`None` when the guild is not), and the
/// freshly fetched source message.
#[derive(Debug)]
pub struct SyncInput {
    pub event_guild_id: Option<u64>,
    pub target_guild_id: Option<u64>,
    pub guild_name: Option<String>,
    pub message: SourceMessage,
}

/// A remote operation the synchronizer asks the surrounding program to
/// perform.
#[derive(Debug)]
pub enum SyncAction {
    /// Read the mapping for the source message; answer `MappingRead`.
    GetMapping,
    /// Delete the mapping for the source message; answer `MappingDeleted`.
    DeleteMapping,
    /// Best-effort delete of the remote post; answer
    /// `RemoteDeleteFinished` whether or not it succeeded.
    DeleteRemotePost { channel_id: u64, post_id: u64 },
    /// Resolve the guild member; answer `MemberFetched` or
    /// `MemberFetchFailed`.
    FetchMember { guild_id: u64, user_id: u64 },
    /// Edit the existing post in place; answer `EditFinished`.
    EditPost { channel_id: u64, post_id: u64, post: RenderedPost },
    /// Send a new post; answer `PostSent` or `SendFailed`.
    SendPost { channel_id: u64, post: RenderedPost },
    /// Store the mapping to the freshly sent post; answer `MappingStored`.
    PutMapping { post_id: u64 },
}

/// The outcome of a requested operation, handed back to the machine.
#[derive(Debug)]
pub enum SyncEvent {
    MappingRead { mapping: Option<u64> },
    MappingDeleted,
    MappingStored,
    /// A mapping-store read or write failed; surfaced as fatal.
    StorageFailed,
    RemoteDeleteFinished,
    MemberFetched { member: MemberInfo },
    MemberFetchFailed,
    EditFinished { success: bool },
    PostSent { post_id: u64 },
    SendFailed,
}

/// Where the machine stands while an operation is in flight.
#[derive(Debug)]
pub enum SyncState {
    /// The mapping read is in flight.
    AwaitMapping,
    /// The set no longer qualifies: the mapping delete is in flight,
    /// the stale post's delete follows.
    AwaitRemovalDelete { post_id: u64 },
    /// The best-effort delete of the stale post is in flight.
    AwaitRemoteDelete,
    /// The member fetch for the author block is in flight.
    AwaitMember { mapping: Option<u64> },
    /// The in-place edit of the existing post is in flight.
    AwaitEdit { post: RenderedPost, old_post_id: u64 },
    /// The edit failed: the stale mapping's delete is in flight, the
    /// recreation send follows.
    AwaitRecreateDelete { post: RenderedPost },
    /// The send of the new post is in flight.
    AwaitSend { post: RenderedPost },
    /// The mapping write for the new post is in flight.
    AwaitStore { post_id: u64 },
}

/// What a step decided: a next state with the operation to perform, or
/// the pass's outcome.
#[derive(Debug)]
pub enum Step {
    Request { state: SyncState, action: SyncAction },
    Done { outcome: Result<(), SyncError> },
}

/// The mathematical content of a `SyncState`.
#[verifier::ext_equal]
pub enum StateV {
    AwaitMapping,
    AwaitRemovalDelete { post_id: u64 },
    AwaitRemoteDelete,
    AwaitMember { mapping: Option<u64> },
    AwaitEdit { post: PostV, old_post_id: u64 },
    AwaitRecreateDelete { post: PostV },
    AwaitSend { post: PostV },
    AwaitStore { post_id: u64 },
}

/// The mathematical content of a `SyncAction`.
#[verifier::ext_equal]
pub enum ActionV {
    GetMapping,
    DeleteMapping,
    DeleteRemotePost { channel_id: u64, post_id: u64 },
    FetchMember { guild_id: u64, user_id: u64 },
    EditPost { channel_id: u64, post_id: u64, post: PostV },
    SendPost { channel_id: u64, post: PostV },
    PutMapping { post_id: u64 },
}

/// The mathematical content of a `Step`.
#[verifier::ext_equal]
pub enum StepV {
    Request { state: StateV, action: ActionV },
    Done { outcome: Result<(), SyncError> },
}

impl View for SyncState {
    type V = StateV;

    open spec fn view(&self) -> StateV {
        match self {
            SyncState::AwaitMapping => StateV::AwaitMapping,
            SyncState::AwaitRemovalDelete { post_id } => StateV::AwaitRemovalDelete {
                post_id: *post_id,
            },
            SyncState::AwaitRemoteDelete => StateV::AwaitRemoteDelete,
            SyncState::AwaitMember { mapping } => StateV::AwaitMember { mapping: *mapping },
            SyncState::AwaitEdit { post, old_post_id } => StateV::AwaitEdit {
                post: post@,
                old_post_id: *old_post_id,
            },
            SyncState::AwaitRecreateDelete { post } => StateV::AwaitRecreateDelete { post: post@ },
            SyncState::AwaitSend { post } => StateV::AwaitSend { post: post@ },
            SyncState::AwaitStore { post_id } => StateV::AwaitStore { post_id: *post_id },
        }
    }
}

impl View for SyncAction {
    type V = ActionV;

    open spec fn view(&self) -> ActionV {
        match self {
            SyncAction::GetMapping => ActionV::GetMapping,
            SyncAction::DeleteMapping => ActionV::DeleteMapping,
            SyncAction::DeleteRemotePost { channel_id, post_id } => ActionV::DeleteRemotePost {
                channel_id: *channel_id,
                post_id: *post_id,
            },
            SyncAction::FetchMember { guild_id, user_id } => ActionV::FetchMember {
                guild_id: *guild_id,
                user_id: *user_id,
            },
            SyncAction::EditPost { channel_id, post_id, post } => ActionV::EditPost {
                channel_id: *channel_id,
                post_id: *post_id,
                post: post@,
            },
            SyncAction::SendPost { channel_id, post } => ActionV::SendPost {
                channel_id: *channel_id,
                post: post@,
            },
            SyncAction::PutMapping { post_id } => ActionV::PutMapping { post_id: *post_id },
        }
    }
}

impl View for Step {
    type V = StepV;

    open spec fn view(&self) -> StepV {
        match self {
            Step::Request { state, action } => StepV::Request { state: state@, action: action@ },
            Step::Done { outcome } => StepV::Done { outcome: *outcome },
        }
    }
}

/// The qualifying set of the pass's source message.
pub open spec fn qualifying_set(input: SyncInput) -> Seq<GroupV> {
    qualify_spec(groups_view(input.message.reactions@))
}

/// The guards all passed: the event happened in a guild, a starboard
/// channel is configured and resolves to that same guild, and the
/// message is not itself inside the starboard channel.
pub open spec fn proceeding(config: SyncConfig, input: SyncInput) -> bool {
    &&& input.event_guild_id is Some
    &&& config.starboard_channel_id is Some
    &&& input.target_guild_id is Some
    &&& input.event_guild_id->0 == input.target_guild_id->0
    &&& input.message.channel_id != config.starboard_channel_id->0
}

/// What the first step decides. Guard order: no guild on the event, no
/// configured channel, and a guild mismatch or a message already in the
/// target channel are silent no-ops; a configured channel that does not
/// resolve locally is fatal.
pub open spec fn start_spec(config: SyncConfig, input: SyncInput) -> StepV {
    match input.event_guild_id {
        None => StepV::Done { outcome: Ok(()) },
        Some(event_guild) => match config.starboard_channel_id {
            None => StepV::Done { outcome: Ok(()) },
            Some(target_channel) => match input.target_guild_id {
                None => StepV::Done { outcome: Err(SyncError::TargetChannelNotCached) },
                Some(target_guild) => {
                    if event_guild != target_guild {
                        StepV::Done { outcome: Ok(()) }
                    } else if input.message.channel_id == target_channel {
                        StepV::Done { outcome: Ok(()) }
                    } else {
                        StepV::Request { state: StateV::AwaitMapping, action: ActionV::GetMapping }
                    }
                },
            },
        },
    }
}

/// The decision once the post can be assembled: build it, then edit the
/// existing post in place when a mapping exists, else send a new one.
pub open spec fn upsert_spec(
    config: SyncConfig,
    input: SyncInput,
    member: Option<MemberInfo>,
    mapping: Option<u64>,
) -> StepV {
    match build_spec(
        input.message,
        input.event_guild_id->0,
        input.guild_name,
        member,
        qualifying_set(input),
    ) {
        Err(e) => StepV::Done { outcome: Err(SyncError::Build(e)) },
        Ok(p) => match mapping {
            Some(post_id) => StepV::Request {
                state: StateV::AwaitEdit { post: p, old_post_id: post_id },
                action: ActionV::EditPost {
                    channel_id: config.starboard_channel_id->0,
                    post_id,
                    post: p,
                },
            },
            None => StepV::Request {
                state: StateV::AwaitSend { post: p },
                action: ActionV::SendPost {
                    channel_id: config.starboard_channel_id->0,
                    post: p,
                },
            },
        },
    }
}

/// Which events answer which in-flight operation.
pub open spec fn event_fits(state: StateV, event: SyncEvent) -> bool {
    match (state, event) {
        (StateV::AwaitMapping, SyncEvent::MappingRead { .. }) => true,
        (StateV::AwaitMapping, SyncEvent::StorageFailed) => true,
        (StateV::AwaitRemovalDelete { .. }, SyncEvent::MappingDeleted) => true,
        (StateV::AwaitRemovalDelete { .. }, SyncEvent::StorageFailed) => true,
        (StateV::AwaitRemoteDelete, SyncEvent::RemoteDeleteFinished) => true,
        (StateV::AwaitMember { .. }, SyncEvent::MemberFetched { .. }) => true,
        (StateV::AwaitMember { .. }, SyncEvent::MemberFetchFailed) => true,
        (StateV::AwaitEdit { .. }, SyncEvent::EditFinished { .. }) => true,
        (StateV::AwaitRecreateDelete { .. }, SyncEvent::MappingDeleted) => true,
        (StateV::AwaitRecreateDelete { .. }, SyncEvent::StorageFailed) => true,
        (StateV::AwaitSend { .. }, SyncEvent::PostSent { .. }) => true,
        (StateV::AwaitSend { .. }, SyncEvent::SendFailed) => true,
        (StateV::AwaitStore { .. }, SyncEvent::MappingStored) => true,
        (StateV::AwaitStore { .. }, SyncEvent::StorageFailed) => true,
        _ => false,
    }
}

/// What each later step decides, given the event that answered the
/// in-flight operation.
pub open spec fn step_spec(
    config: SyncConfig,
    input: SyncInput,
    state: StateV,
    event: SyncEvent,
) -> StepV {
    match (state, event) {
        (StateV::AwaitMapping, SyncEvent::StorageFailed) => StepV::Done {
            outcome: Err(SyncError::StorageFailed),
        },
        (StateV::AwaitMapping, SyncEvent::MappingRead { mapping }) => {
            if qualifying_set(input).len() == 0 {
                match mapping {
                    Some(post_id) => StepV::Request {
                        state: StateV::AwaitRemovalDelete { post_id },
                        action: ActionV::DeleteMapping,
                    },
                    None => StepV::Done { outcome: Ok(()) },
                }
            } else if input.message.via_webhook {
                upsert_spec(config, input, None, mapping)
            } else {
                StepV::Request {
                    state: StateV::AwaitMember { mapping },
                    action: ActionV::FetchMember {
                        guild_id: input.event_guild_id->0,
                        user_id: input.message.author.id,
                    },
                }
            }
        },
        (StateV::AwaitRemovalDelete { .. }, SyncEvent::StorageFailed) => StepV::Done {
            outcome: Err(SyncError::StorageFailed),
        },
        (StateV::AwaitRemovalDelete { post_id }, SyncEvent::MappingDeleted) => StepV::Request {
            state: StateV::AwaitRemoteDelete,
            action: ActionV::DeleteRemotePost {
                channel_id: config.starboard_channel_id->0,
                post_id,
            },
        },
        (StateV::AwaitRemoteDelete, SyncEvent::RemoteDeleteFinished) => StepV::Done {
            outcome: Ok(()),
        },
        (StateV::AwaitMember { .. }, SyncEvent::MemberFetchFailed) => StepV::Done {
            outcome: Err(SyncError::MemberFetchFailed),
        },
        (StateV::AwaitMember { mapping }, SyncEvent::MemberFetched { member }) => upsert_spec(
            config,
            input,
            Some(member),
            mapping,
        ),
        (StateV::AwaitEdit { post, old_post_id }, SyncEvent::EditFinished { success }) => {
            if success {
                StepV::Done { outcome: Ok(()) }
            } else {
                StepV::Request {
                    state: StateV::AwaitRecreateDelete { post },
                    action: ActionV::DeleteMapping,
                }
            }
        },
        (StateV::AwaitRecreateDelete { .. }, SyncEvent::StorageFailed) => StepV::Done {
            outcome: Err(SyncError::StorageFailed),
        },
        (StateV::AwaitRecreateDelete { post }, SyncEvent::MappingDeleted) => StepV::Request {
            state: StateV::AwaitSend { post },
            action: ActionV::SendPost { channel_id: config.starboard_channel_id->0, post },
        },
        (StateV::AwaitSend { .. }, SyncEvent::SendFailed) => StepV::Done {
            outcome: Err(SyncError::SendFailed),
        },
        (StateV::AwaitSend { .. }, SyncEvent::PostSent { post_id }) => StepV::Request {
            state: StateV::AwaitStore { post_id },
            action: ActionV::PutMapping { post_id },
        },
        (StateV::AwaitStore { .. }, SyncEvent::StorageFailed) => StepV::Done {
            outcome: Err(SyncError::StorageFailed),
        },
        (StateV::AwaitStore { .. }, SyncEvent::MappingStored) => StepV::Done { outcome: Ok(()) },
        _ => arbitrary(),
    }
}

fn duplicate_string_opt(s: &Option<String>) -> (r: Option<String>)
    ensures
        match (r, s) {
            (Some(a), Some(b)) => a@ == b@,
            (None, None) => true,
            _ => false,
        },
{
    match s {
        Some(u) => Some(u.clone()),
        None => None,
    }
}

fn duplicate_post(p: &RenderedPost) -> (r: RenderedPost)
    ensures
        r@ == p@,
{
    let r = RenderedPost {
        author: AuthorBlock {
            name: p.author.name.clone(),
            icon_url: p.author.icon_url.clone(),
            profile_url: duplicate_string_opt(&p.author.profile_url),
        },
        description: p.description.clone(),
        image_url: duplicate_string_opt(&p.image_url),
        content: p.content.clone(),
        link_url: p.link_url.clone(),
        link_label: p.link_label.clone(),
    };
    proof {
        assert(r@ =~= p@);
    }
    r
}

/// Runs the guards and requests the first operation, or finishes at
/// once, exactly as `start_spec` states.
pub fn synchronize_start(config: &SyncConfig, input: &SyncInput) -> (r: Step)
    ensures
        r@ == start_spec(*config, *input),
        r@ is Request ==> proceeding(*config, *input),
{
    let event_guild = match input.event_guild_id {
        Some(g) => g,
        None => {
            return Step::Done { outcome: Ok(()) };
        },
    };
    let target_channel = match config.starboard_channel_id {
        Some(c) => c,
        None => {
            return Step::Done { outcome: Ok(()) };
        },
    };
    let target_guild = match input.target_guild_id {
        Some(g) => g,
        None => {
            return Step::Done { outcome: Err(SyncError::TargetChannelNotCached) };
        },
    };
    if event_guild != target_guild {
        Step::Done { outcome: Ok(()) }
    } else if input.message.channel_id == target_channel {
        Step::Done { outcome: Ok(()) }
    } else {
        Step::Request { state: SyncState::AwaitMapping, action: SyncAction::GetMapping }
    }
}

fn upsert(
    config: &SyncConfig,
    input: &SyncInput,
    member: Option<MemberInfo>,
    mapping: Option<u64>,
    q: &Vec<ReactionGroup>,
) -> (r: Step)
    requires
        proceeding(*config, *input),
        input.message.via_webhook || member is Some,
        groups_view(q@) == qualifying_set(*input),
    ensures
        r@ == upsert_spec(*config, *input, member, mapping),
{
    let target_channel = match config.starboard_channel_id {
        Some(c) => c,
        None => vstd::pervasive::unreached(),
    };
    let event_guild = match input.event_guild_id {
        Some(g) => g,
        None => vstd::pervasive::unreached(),
    };
    match build(&input.message, event_guild, &input.guild_name, &member, q) {
        Err(e) => Step::Done { outcome: Err(SyncError::Build(e)) },
        Ok(p) => match mapping {
            Some(post_id) => {
                let copy = duplicate_post(&p);
                Step::Request {
                    state: SyncState::AwaitEdit { post: p, old_post_id: post_id },
                    action: SyncAction::EditPost { channel_id: target_channel, post_id, post: copy },
                }
            },
            None => {
                let copy = duplicate_post(&p);
                Step::Request {
                    state: SyncState::AwaitSend { post: p },
                    action: SyncAction::SendPost { channel_id: target_channel, post: copy },
                }
            },
        },
    }
}

/// Decides the next operation from the event that answered the one in
/// flight, exactly as `step_spec` states.
pub fn synchronize_step(
    config: &SyncConfig,
    input: &SyncInput,
    state: SyncState,
    event: SyncEvent,
) -> (r: Step)
    requires
        proceeding(*config, *input),
        event_fits(state@, event),
    ensures
        r@ == step_spec(*config, *input, state@, event),
{
    let target_channel = match config.starboard_channel_id {
        Some(c) => c,
        None => vstd::pervasive::unreached(),
    };
    let event_guild = match input.event_guild_id {
        Some(g) => g,
        None => vstd::pervasive::unreached(),
    };
    match (state, event) {
        (SyncState::AwaitMapping, SyncEvent::StorageFailed) => Step::Done {
            outcome: Err(SyncError::StorageFailed),
        },
        (SyncState::AwaitMapping, SyncEvent::MappingRead { mapping }) => {
            let q = qualify(&input.message.reactions);
            if q.len() == 0 {
                match mapping {
                    Some(post_id) => Step::Request {
                        state: SyncState::AwaitRemovalDelete { post_id },
                        action: SyncAction::DeleteMapping,
                    },
                    None => Step::Done { outcome: Ok(()) },
                }
            } else if input.message.via_webhook {
                upsert(config, input, None, mapping, &q)
            } else {
                Step::Request {
                    state: SyncState::AwaitMember { mapping },
                    action: SyncAction::FetchMember {
                        guild_id: event_guild,
                        user_id: input.message.author.id,
                    },
                }
            }
        },
        (SyncState::AwaitRemovalDelete { .. }, SyncEvent::StorageFailed) => Step::Done {
            outcome: Err(SyncError::StorageFailed),
        },
        (SyncState::AwaitRemovalDelete { post_id }, SyncEvent::MappingDeleted) => Step::Request {
            state: SyncState::AwaitRemoteDelete,
            action: SyncAction::DeleteRemotePost { channel_id: target_channel, post_id },
        },
        (SyncState::AwaitRemoteDelete, SyncEvent::RemoteDeleteFinished) => Step::Done {
            outcome: Ok(()),
        },
        (SyncState::AwaitMember { .. }, SyncEvent::MemberFetchFailed) => Step::Done {
            outcome: Err(SyncError::MemberFetchFailed),
        },
        (SyncState::AwaitMember { mapping }, SyncEvent::MemberFetched { member }) => {
            let q = qualify(&input.message.reactions);
            upsert(config, input, Some(member), mapping, &q)
        },
        (SyncState::AwaitEdit { post, old_post_id }, SyncEvent::EditFinished { success }) => {
            if success {
                Step::Done { outcome: Ok(()) }
            } else {
                Step::Request {
                    state: SyncState::AwaitRecreateDelete { post },
                    action: SyncAction::DeleteMapping,
                }
            }
        },
        (SyncState::AwaitRecreateDelete { .. }, SyncEvent::StorageFailed) => Step::Done {
            outcome: Err(SyncError::StorageFailed),
        },
        (SyncState::AwaitRecreateDelete { post }, SyncEvent::MappingDeleted) => {
            let copy = duplicate_post(&post);
            Step::Request {
                state: SyncState::AwaitSend { post },
                action: SyncAction::SendPost { channel_id: target_channel, post: copy },
            }
        },
        (SyncState::AwaitSend { .. }, SyncEvent::SendFailed) => Step::Done {
            outcome: Err(SyncError::SendFailed),
        },
        (SyncState::AwaitSend { .. }, SyncEvent::PostSent { post_id }) => Step::Request {
            state: SyncState::AwaitStore { post_id },
            action: SyncAction::PutMapping { post_id },
        },
        (SyncState::AwaitStore { .. }, SyncEvent::StorageFailed) => Step::Done {
            outcome: Err(SyncError::StorageFailed),
        },
        (SyncState::AwaitStore { .. }, SyncEvent::MappingStored) => Step::Done { outcome: Ok(()) },
        _ => vstd::pervasive::unreached(),
    }
}

/// Cross-guild guard: when the event's guild differs from the resolved
/// target channel's guild, the pass finishes successfully at once — it
/// requests no remote operation and no mapping change.
pub proof fn lemma_cross_guild_no_operations(config: SyncConfig, input: SyncInput)
    requires
        input.event_guild_id is Some,
        config.starboard_channel_id is Some,
        input.target_guild_id is Some,
        input.event_guild_id->0 != input.target_guild_id->0,
    ensures
        start_spec(config, input) == (StepV::Done { outcome: Ok(()) }),
{
}

/// Monotonic removal: with an empty qualifying set and an existing
/// mapping, the pass reads the mapping, deletes the mapping first, then
/// deletes the remote post, and finishes successfully; with no mapping
/// it finishes right after the read.
pub proof fn lemma_empty_set_removes(config: SyncConfig, input: SyncInput, post_id: u64)
    requires
        proceeding(config, input),
        qualifying_set(input).len() == 0,
    ensures
        start_spec(config, input) == (StepV::Request {
            state: StateV::AwaitMapping,
            action: ActionV::GetMapping,
        }),
        step_spec(
            config,
            input,
            StateV::AwaitMapping,
            SyncEvent::MappingRead { mapping: Some(post_id) },
        ) == (StepV::Request {
            state: StateV::AwaitRemovalDelete { post_id },
            action: ActionV::DeleteMapping,
        }),
        step_spec(
            config,
            input,
            StateV::AwaitRemovalDelete { post_id },
            SyncEvent::MappingDeleted,
        ) == (StepV::Request {
            state: StateV::AwaitRemoteDelete,
            action: ActionV::DeleteRemotePost {
                channel_id: config.starboard_channel_id->0,
                post_id,
            },
        }),
        step_spec(config, input, StateV::AwaitRemoteDelete, SyncEvent::RemoteDeleteFinished) == (
        StepV::Done { outcome: Ok(()) }),
        step_spec(config, input, StateV::AwaitMapping, SyncEvent::MappingRead { mapping: None })
            == (StepV::Done { outcome: Ok(()) }),
{
}

/// Idempotent convergence: with an unchanged qualifying set, the first
/// pass (no mapping) performs exactly one send of the built post and
/// stores the sent post's id; the second pass (mapping present) performs
/// exactly one edit, carrying the identical post content, then finishes
/// without touching the mapping. `member` is the resolved author member;
/// a webhook message needs none and skips the member fetch.
pub proof fn lemma_idempotent_convergence(
    config: SyncConfig,
    input: SyncInput,
    member: Option<MemberInfo>,
    new_post_id: u64,
)
    requires
        proceeding(config, input),
        qualifying_set(input).len() > 0,
        input.message.via_webhook <==> member is None,
        build_spec(
            input.message,
            input.event_guild_id->0,
            input.guild_name,
            member,
            qualifying_set(input),
        ) is Ok,
    ensures
        start_spec(config, input) == (StepV::Request {
            state: StateV::AwaitMapping,
            action: ActionV::GetMapping,
        }),
        ({
            let p = build_spec(
                input.message,
                input.event_guild_id->0,
                input.guild_name,
                member,
                qualifying_set(input),
            )->Ok_0;
            let target = config.starboard_channel_id->0;
            &&& input.message.via_webhook ==> step_spec(
                config,
                input,
                StateV::AwaitMapping,
                SyncEvent::MappingRead { mapping: None },
            ) == (StepV::Request {
                state: StateV::AwaitSend { post: p },
                action: ActionV::SendPost { channel_id: target, post: p },
            })
            &&& !input.message.via_webhook ==> {
                &&& step_spec(
                    config,
                    input,
                    StateV::AwaitMapping,
                    SyncEvent::MappingRead { mapping: None },
                ) == (StepV::Request {
                    state: StateV::AwaitMember { mapping: None },
                    action: ActionV::FetchMember {
                        guild_id: input.event_guild_id->0,
                        user_id: input.message.author.id,
                    },
                })
                &&& step_spec(
                    config,
                    input,
                    StateV::AwaitMember { mapping: None },
                    SyncEvent::MemberFetched { member: member->0 },
                ) == (StepV::Request {
                    state: StateV::AwaitSend { post: p },
                    action: ActionV::SendPost { channel_id: target, post: p },
                })
            }
            &&& step_spec(
                config,
                input,
                StateV::AwaitSend { post: p },
                SyncEvent::PostSent { post_id: new_post_id },
            ) == (StepV::Request {
                state: StateV::AwaitStore { post_id: new_post_id },
                action: ActionV::PutMapping { post_id: new_post_id },
            })
            &&& step_spec(
                config,
                input,
                StateV::AwaitStore { post_id: new_post_id },
                SyncEvent::MappingStored,
            ) == (StepV::Done { outcome: Ok(()) })
            &&& input.message.via_webhook ==> step_spec(
                config,
                input,
                StateV::AwaitMapping,
                SyncEvent::MappingRead { mapping: Some(new_post_id) },
            ) == (StepV::Request {
                state: StateV::AwaitEdit { post: p, old_post_id: new_post_id },
                action: ActionV::EditPost { channel_id: target, post_id: new_post_id, post: p },
            })
            &&& !input.message.via_webhook ==> step_spec(
                config,
                input,
                StateV::AwaitMember { mapping: Some(new_post_id) },
                SyncEvent::MemberFetched { member: member->0 },
            ) == (StepV::Request {
                state: StateV::AwaitEdit { post: p, old_post_id: new_post_id },
                action: ActionV::EditPost { channel_id: target, post_id: new_post_id, post: p },
            })
            &&& step_spec(
                config,
                input,
                StateV::AwaitEdit { post: p, old_post_id: new_post_id },
                SyncEvent::EditFinished { success: true },
            ) == (StepV::Done { outcome: Ok(()) })
        }),
{
}

/// Monotonic convergence: when a message's qualifying set rises from
/// empty to non-empty and later falls back to empty, the rising pass
/// sends the post and stores its mapping, and the falling pass deletes
/// that same mapping first and then that same remote post.
pub proof fn lemma_monotonic_convergence(
    config: SyncConfig,
    input_up: SyncInput,
    input_down: SyncInput,
    member: Option<MemberInfo>,
    new_post_id: u64,
)
    requires
        proceeding(config, input_up),
        proceeding(config, input_down),
        qualifying_set(input_up).len() > 0,
        qualifying_set(input_down).len() == 0,
        input_up.message.via_webhook <==> member is None,
        build_spec(
            input_up.message,
            input_up.event_guild_id->0,
            input_up.guild_name,
            member,
            qualifying_set(input_up),
        ) is Ok,
    ensures
        ({
            let p = build_spec(
                input_up.message,
                input_up.event_guild_id->0,
                input_up.guild_name,
                member,
                qualifying_set(input_up),
            )->Ok_0;
            &&& step_spec(
                config,
                input_up,
                StateV::AwaitSend { post: p },
                SyncEvent::PostSent { post_id: new_post_id },
            ) == (StepV::Request {
                state: StateV::AwaitStore { post_id: new_post_id },
                action: ActionV::PutMapping { post_id: new_post_id },
            })
            &&& step_spec(
                config,
                input_up,
                StateV::AwaitStore { post_id: new_post_id },
                SyncEvent::MappingStored,
            ) == (StepV::Done { outcome: Ok(()) })
        }),
        step_spec(
            config,
            input_down,
            StateV::AwaitMapping,
            SyncEvent::MappingRead { mapping: Some(new_post_id) },
        ) == (StepV::Request {
            state: StateV::AwaitRemovalDelete { post_id: new_post_id },
            action: ActionV::DeleteMapping,
        }),
        step_spec(
            config,
            input_down,
            StateV::AwaitRemovalDelete { post_id: new_post_id },
            SyncEvent::MappingDeleted,
        ) == (StepV::Request {
            state: StateV::AwaitRemoteDelete,
            action: ActionV::DeleteRemotePost {
                channel_id: config.starboard_channel_id->0,
                post_id: new_post_id,
            },
        }),
        step_spec(config, input_down, StateV::AwaitRemoteDelete, SyncEvent::RemoteDeleteFinished)
            == (StepV::Done { outcome: Ok(()) }),
{
    lemma_idempotent_convergence(config, input_up, member, new_post_id);
    lemma_empty_set_removes(config, input_down, new_post_id);
}

/// Recreation fallback: when the edit of the existing post fails, the
/// machine deletes the stale mapping first, re-sends the identical post
/// content, and stores a mapping to the freshly sent post's id.
pub proof fn lemma_recreation_fallback(
    config: SyncConfig,
    input: SyncInput,
    p: PostV,
    old_post_id: u64,
    new_post_id: u64,
)
    ensures
        step_spec(
            config,
            input,
            StateV::AwaitEdit { post: p, old_post_id },
            SyncEvent::EditFinished { success: false },
        ) == (StepV::Request {
            state: StateV::AwaitRecreateDelete { post: p },
            action: ActionV::DeleteMapping,
        }),
        step_spec(
            config,
            input,
            StateV::AwaitRecreateDelete { post: p },
            SyncEvent::MappingDeleted,
        ) == (StepV::Request {
            state: StateV::AwaitSend { post: p },
            action: ActionV::SendPost { channel_id: config.starboard_channel_id->0, post: p },
        }),
        step_spec(
            config,
            input,
            StateV::AwaitSend { post: p },
            SyncEvent::PostSent { post_id: new_post_id },
        ) == (StepV::Request {
            state: StateV::AwaitStore { post_id: new_post_id },
            action: ActionV::PutMapping { post_id: new_post_id },
        }),
        step_spec(
            config,
            input,
            StateV::AwaitStore { post_id: new_post_id },
            SyncEvent::MappingStored,
        ) == (StepV::Done { outcome: Ok(()) }),
{
}

} // verus!
