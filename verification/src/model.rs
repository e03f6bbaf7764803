//! Plain-data model of a source message as the synchronizer reads it.
//!
//! Ids are snowflakes held as `u64`; the surrounding program converts
//! between these values and its chat-platform client types.

use vstd::prelude::*;

verus! {

/// The message kinds the formatter distinguishes; every other platform
/// kind is carried as `Other` and rendered with a fixed fallback text.
#[derive(Clone, Copy, Debug, PartialEq, Eq, Structural)]
pub enum MessageKind {
    Regular,
    InlineReply,
    ChatInputCommand,
    ContextMenuCommand,
    PinsAdd,
    MemberJoin,
    Boost,
    BoostTier1,
    BoostTier2,
    BoostTier3,
    ThreadCreated,
    Other,
}

/// One reaction tally entry: an emoji identifier (a built-in glyph, or a
/// custom-emoji numeric id rendered as a string) and its current count.
#[derive(Clone, Debug)]
pub struct ReactionGroup {
    pub emoji: String,
    pub count: u64,
}

/// The mathematical content of a `ReactionGroup`.
pub struct GroupV {
    pub emoji: Seq<char>,
    pub count: u64,
}

impl View for ReactionGroup {
    type V = GroupV;

    open spec fn view(&self) -> GroupV {
        GroupV { emoji: self.emoji@, count: self.count }
    }
}

/// The views of a sequence of reaction groups, element for element.
pub open spec fn groups_view(s: Seq<ReactionGroup>) -> Seq<GroupV> {
    s.map_values(|g: ReactionGroup| g@)
}

/// A message attachment, reduced to what the post builder reads.
#[derive(Clone, Debug)]
pub struct Attachment {
    pub url: String,
    pub content_type: Option<String>,
}

/// An embed carried by the source message, reduced to what the post
/// builder reads: its declared kind and its URL.
#[derive(Clone, Debug)]
pub struct EmbedInfo {
    pub kind: Option<String>,
    pub url: Option<String>,
}

/// A reference to another message by id, as carried by pin notices,
/// thread notices and replies whose referenced message is unavailable.
#[derive(Clone, Copy, Debug)]
pub struct MessageReference {
    pub channel_id: u64,
    pub message_id: Option<u64>,
}

/// The interaction (slash or context-menu command) a message originated
/// from, if any.
#[derive(Clone, Debug)]
pub struct InteractionInfo {
    pub name: String,
    pub user_id: u64,
}

/// The author fields the builder and formatter read. The default avatar
/// URL is the platform-computed fallback for this user.
#[derive(Clone, Debug)]
pub struct Author {
    pub id: u64,
    pub name: String,
    pub avatar_url: Option<String>,
    pub default_avatar_url: String,
}

/// A guild member as resolved for the post's author block.
#[derive(Clone, Debug)]
pub struct MemberInfo {
    pub display_name: String,
    pub avatar_url: Option<String>,
}

/// A source message, read-only to this library. `referenced_message` is
/// the replied-to message when the platform delivered it; a reply whose
/// original is gone carries only `message_reference`.
#[derive(Debug)]
pub struct SourceMessage {
    pub id: u64,
    pub channel_id: u64,
    pub author: Author,
    pub kind: MessageKind,
    pub content: String,
    pub reactions: Vec<ReactionGroup>,
    pub attachments: Vec<Attachment>,
    pub embeds: Vec<EmbedInfo>,
    pub referenced_message: Option<Box<SourceMessage>>,
    pub message_reference: Option<MessageReference>,
    pub interaction: Option<InteractionInfo>,
    pub has_stickers: bool,
    pub timestamp_millis: u64,
    pub via_webhook: bool,
}

/// `m` with its delivered referenced message replaced by `r` and every
/// other field kept; used to state that formatting in quote mode never
/// descends into the reference.
pub open spec fn with_reference(m: SourceMessage, r: Option<Box<SourceMessage>>) -> SourceMessage {
    SourceMessage { referenced_message: r, ..m }
}

} // verus!
