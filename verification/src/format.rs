//! The content formatter: renders a source message into display text.
//!
//! The rendering rule is a terminal state machine over the message kind;
//! `format_spec` states the exact output text of every kind, and
//! `format_content` is proved to return it. A referenced message is
//! rendered recursively at most once: the recursive call always sets
//! `quote`, and the reference branch is only reachable when `quote` is
//! unset. `lemma_quote_ignores_reference` and
//! `lemma_quote_depth_bounded` state that bound.

use vstd::prelude::*;
use vstd::string::StringExecFns;
use crate::model::MessageKind;
use crate::model::SourceMessage;
use crate::model::with_reference;
use crate::text::channel_mention;
use crate::text::channel_mention_spec;
use crate::text::jump_url;
use crate::text::jump_url_spec;
use crate::text::user_mention;
use crate::text::user_mention_spec;

verus! {

/// Why a message could not be rendered.
#[derive(Clone, Copy, Debug, PartialEq, Eq, Structural)]
pub enum FormatError {
    /// The message kind requires reference data that is absent.
    MissingReference,
    /// The message kind requires the guild's name, and the guild is not
    /// locally resolvable.
    UncachedGuild,
}

/// The member-join flavor text for template index `idx` (`idx < 13`),
/// with `mention` spliced in.
pub open spec fn join_flavor(idx: u64, mention: Seq<char>) -> Seq<char> {
    if idx == 0 {
        mention + " joined the party."@
    } else if idx == 1 {
        mention + " is here."@
    } else if idx == 2 {
        "Welcome, "@ + mention + ". We hope you've brought pizza."@
    } else if idx == 3 {
        "A wild "@ + mention + " appeared."@
    } else if idx == 4 {
        mention + " just landed."@
    } else if idx == 5 {
        mention + " just slid into the server."@
    } else if idx == 6 {
        mention + " just showed up!"@
    } else if idx == 7 {
        "Welcome "@ + mention + ". Say hi!"@
    } else if idx == 8 {
        mention + " hopped into the server."@
    } else if idx == 9 {
        "Everyone welcome "@ + mention + "!"@
    } else if idx == 10 {
        "Glad you're here, "@ + mention + "."@
    } else if idx == 11 {
        "Good to see you, "@ + mention + "."@
    } else {
        "Yay you made it, "@ + mention + "!"@
    }
}

/// The body of a regular-family message: its literal content when
/// non-empty; otherwise an attachment-link placeholder when one is owed.
pub open spec fn body_spec(m: SourceMessage, guild_id: u64, quote: bool) -> Seq<char> {
    if m.content@.len() > 0 {
        m.content@
    } else if quote && m.has_stickers {
        "\u{1f4ce} *[Click to see sticker]("@ + jump_url_spec(
            Some(guild_id),
            m.channel_id,
            Some(m.id),
        ) + ")*"@
    } else if (quote && m.attachments@.len() > 0) || m.embeds@.len() > 0 {
        "\u{1f4ce} *[Click to see attachment]("@ + jump_url_spec(
            Some(guild_id),
            m.channel_id,
            Some(m.id),
        ) + ")*"@
    } else {
        Seq::empty()
    }
}

/// The quoted-context prefix of a regular-family message: the author's
/// mention in quote mode; otherwise one level of quoted reference, a
/// deleted-reference placeholder, or the originating interaction.
pub open spec fn prefix_spec(
    m: SourceMessage,
    guild_id: u64,
    guild_name: Option<String>,
    quote: bool,
) -> Result<Seq<char>, FormatError>
    decreases m, 0int,
{
    if quote {
        Ok(user_mention_spec(m.author.id) + ": "@)
    } else if m.referenced_message is Some {
        match format_spec(*m.referenced_message->0, guild_id, guild_name, true) {
            Ok(t) => Ok("> "@ + t + "\n\n"@),
            Err(e) => Err(e),
        }
    } else if m.message_reference is Some {
        Ok("> *Original message was deleted*\n\n"@)
    } else if m.interaction is Some {
        let it = m.interaction->0;
        let name = if m.kind == MessageKind::ContextMenuCommand {
            "/"@ + it.name@
        } else {
            it.name@
        };
        Ok("> "@ + user_mention_spec(it.user_id) + " used "@ + name + "\n\n"@)
    } else {
        Ok(Seq::empty())
    }
}

/// The exact display text of `m`, or the error that aborts rendering.
pub open spec fn format_spec(
    m: SourceMessage,
    guild_id: u64,
    guild_name: Option<String>,
    quote: bool,
) -> Result<Seq<char>, FormatError>
    decreases m, 1int,
{
    match m.kind {
        MessageKind::Regular | MessageKind::InlineReply | MessageKind::ChatInputCommand
            | MessageKind::ContextMenuCommand => {
            match prefix_spec(m, guild_id, guild_name, quote) {
                Ok(p) => Ok(p + body_spec(m, guild_id, quote)),
                Err(e) => Err(e),
            }
        },
        MessageKind::PinsAdd => {
            match m.message_reference {
                None => Err(FormatError::MissingReference),
                Some(r) => Ok(
                    user_mention_spec(m.author.id) + " pinned [a message]("@ + jump_url_spec(
                        Some(guild_id),
                        r.channel_id,
                        r.message_id,
                    ) + ") to "@ + channel_mention_spec(r.channel_id),
                ),
            }
        },
        MessageKind::MemberJoin => Ok(
            join_flavor(m.timestamp_millis % 13, user_mention_spec(m.author.id)),
        ),
        MessageKind::Boost => Ok(user_mention_spec(m.author.id) + " just Boosted the server!"@),
        MessageKind::BoostTier1 | MessageKind::BoostTier2 | MessageKind::BoostTier3 => {
            match guild_name {
                None => Err(FormatError::UncachedGuild),
                Some(n) => {
                    let level: Seq<char> = if m.kind == MessageKind::BoostTier1 {
                        "1"@
                    } else if m.kind == MessageKind::BoostTier2 {
                        "2"@
                    } else {
                        "3"@
                    };
                    Ok(
                        user_mention_spec(m.author.id) + " just Boosted the server! "@ + n@
                            + " has reached **Level "@ + level + "!**"@,
                    )
                },
            }
        },
        MessageKind::ThreadCreated => {
            match m.message_reference {
                None => Err(FormatError::MissingReference),
                Some(r) => Ok(
                    user_mention_spec(m.author.id) + " started a thread: "@ + channel_mention_spec(
                        r.channel_id,
                    ) + "."@,
                ),
            }
        },
        MessageKind::Other => Ok("\u{2753} Unrecognized message type"@),
    }
}

/// Relates an executable rendering result to its specification.
pub open spec fn matches_format(
    r: Result<String, FormatError>,
    s: Result<Seq<char>, FormatError>,
) -> bool {
    match (r, s) {
        (Ok(a), Ok(b)) => a@ == b,
        (Err(a), Err(b)) => a == b,
        _ => false,
    }
}

/// Renders `m` exactly as `format_spec` states, or returns the error
/// `format_spec` states. `guild_name` is the locally resolved name of
/// the guild `guild_id`, when the resolution succeeded.
pub fn format_content(
    m: &SourceMessage,
    guild_id: u64,
    guild_name: &Option<String>,
    quote: bool,
) -> (r: Result<String, FormatError>)
    ensures
        matches_format(r, format_spec(*m, guild_id, *guild_name, quote)),
    decreases *m,
{
    match m.kind {
        MessageKind::Regular | MessageKind::InlineReply | MessageKind::ChatInputCommand
            | MessageKind::ContextMenuCommand => {
            let mut result = String::new();
            if quote {
                result.append(user_mention(m.author.id).as_str());
                result.append(": ");
            } else if let Some(r0) = &m.referenced_message {
                let inner = match format_content(r0, guild_id, guild_name, true) {
                    Ok(t) => t,
                    Err(e) => {
                        return Err(e);
                    },
                };
                result.append("> ");
                result.append(inner.as_str());
                result.append("\n\n");
            } else if m.message_reference.is_some() {
                result.append("> *Original message was deleted*\n\n");
            } else if let Some(it) = &m.interaction {
                result.append("> ");
                result.append(user_mention(it.user_id).as_str());
                result.append(" used ");
                if m.kind == MessageKind::ContextMenuCommand {
                    result.append("/");
                }
                result.append(it.name.as_str());
                result.append("\n\n");
            }
            let ghost pfx = prefix_spec(*m, guild_id, *guild_name, quote);
            proof {
                assert(pfx is Ok && result@ =~= pfx->Ok_0);
            }
            if !m.content.as_str().is_empty() {
                result.append(m.content.as_str());
            } else if quote && m.has_stickers {
                result.append("\u{1f4ce} *[Click to see sticker](");
                result.append(jump_url(Some(guild_id), m.channel_id, Some(m.id)).as_str());
                result.append(")*");
            } else if (quote && m.attachments.len() > 0) || m.embeds.len() > 0 {
                result.append("\u{1f4ce} *[Click to see attachment](");
                result.append(jump_url(Some(guild_id), m.channel_id, Some(m.id)).as_str());
                result.append(")*");
            }
            proof {
                assert(result@ =~= pfx->Ok_0 + body_spec(*m, guild_id, quote));
            }
            Ok(result)
        },
        MessageKind::PinsAdd => {
            match &m.message_reference {
                None => Err(FormatError::MissingReference),
                Some(r0) => {
                    let url = jump_url(Some(guild_id), r0.channel_id, r0.message_id);
                    let text = user_mention(m.author.id).concat(" pinned [a message](").concat(
                        url.as_str(),
                    ).concat(") to ").concat(channel_mention(r0.channel_id).as_str());
                    Ok(text)
                },
            }
        },
        MessageKind::MemberJoin => {
            let mention = user_mention(m.author.id);
            let idx = m.timestamp_millis % 13;
            let text = if idx == 0 {
                mention.concat(" joined the party.")
            } else if idx == 1 {
                mention.concat(" is here.")
            } else if idx == 2 {
                String::from_str("Welcome, ").concat(mention.as_str()).concat(
                    ". We hope you've brought pizza.",
                )
            } else if idx == 3 {
                String::from_str("A wild ").concat(mention.as_str()).concat(" appeared.")
            } else if idx == 4 {
                mention.concat(" just landed.")
            } else if idx == 5 {
                mention.concat(" just slid into the server.")
            } else if idx == 6 {
                mention.concat(" just showed up!")
            } else if idx == 7 {
                String::from_str("Welcome ").concat(mention.as_str()).concat(". Say hi!")
            } else if idx == 8 {
                mention.concat(" hopped into the server.")
            } else if idx == 9 {
                String::from_str("Everyone welcome ").concat(mention.as_str()).concat("!")
            } else if idx == 10 {
                String::from_str("Glad you're here, ").concat(mention.as_str()).concat(".")
            } else if idx == 11 {
                String::from_str("Good to see you, ").concat(mention.as_str()).concat(".")
            } else {
                String::from_str("Yay you made it, ").concat(mention.as_str()).concat("!")
            };
            Ok(text)
        },
        MessageKind::Boost => Ok(user_mention(m.author.id).concat(" just Boosted the server!")),
        MessageKind::BoostTier1 | MessageKind::BoostTier2 | MessageKind::BoostTier3 => {
            match guild_name {
                None => Err(FormatError::UncachedGuild),
                Some(n) => {
                    let level: &'static str = if m.kind == MessageKind::BoostTier1 {
                        "1"
                    } else if m.kind == MessageKind::BoostTier2 {
                        "2"
                    } else {
                        "3"
                    };
                    let text = user_mention(m.author.id).concat(
                        " just Boosted the server! ",
                    ).concat(n.as_str()).concat(" has reached **Level ").concat(level).concat(
                        "!**",
                    );
                    Ok(text)
                },
            }
        },
        MessageKind::ThreadCreated => {
            match &m.message_reference {
                None => Err(FormatError::MissingReference),
                Some(r0) => {
                    let text = user_mention(m.author.id).concat(" started a thread: ").concat(
                        channel_mention(r0.channel_id).as_str(),
                    ).concat(".");
                    Ok(text)
                },
            }
        },
        MessageKind::Other => Ok(String::from_str("\u{2753} Unrecognized message type")),
    }
}

/// Quote-mode rendering never reads the delivered referenced message:
/// replacing it changes nothing. With the reference branch reachable
/// only outside quote mode, quoting therefore stops after one level.
pub proof fn lemma_quote_ignores_reference(
    m: SourceMessage,
    r: Option<Box<SourceMessage>>,
    guild_id: u64,
    guild_name: Option<String>,
)
    ensures
        format_spec(with_reference(m, r), guild_id, guild_name, true) == format_spec(
            m,
            guild_id,
            guild_name,
            true,
        ),
{
}

/// Rendering outside quote mode depends on the source message and on
/// one level of its reference alone: two messages that agree except in
/// what their referenced messages themselves reference render alike,
/// regardless of the depth of the underlying reference chain.
pub proof fn lemma_quote_depth_bounded(
    m1: SourceMessage,
    m2: SourceMessage,
    guild_id: u64,
    guild_name: Option<String>,
)
    requires
        with_reference(m1, None) == with_reference(m2, None),
        m1.referenced_message is Some <==> m2.referenced_message is Some,
        m1.referenced_message is Some ==> with_reference(*m1.referenced_message->0, None)
            == with_reference(*m2.referenced_message->0, None),
    ensures
        format_spec(m1, guild_id, guild_name, false) == format_spec(
            m2,
            guild_id,
            guild_name,
            false,
        ),
{
    if m1.referenced_message is Some {
        let inner1 = *m1.referenced_message->0;
        let inner2 = *m2.referenced_message->0;
        lemma_quote_ignores_reference(inner1, None, guild_id, guild_name);
        lemma_quote_ignores_reference(inner2, None, guild_id, guild_name);
        assert(format_spec(inner1, guild_id, guild_name, true) == format_spec(
            inner2,
            guild_id,
            guild_name,
            true,
        ));
    }
}

} // verus!
