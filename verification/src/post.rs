//! The post builder: assembles the outbound curated repost from a
//! source message and its qualifying tally.

use vstd::prelude::*;
use vstd::string::StrSliceExecFns;
use vstd::string::StringExecFns;
use crate::format::FormatError;
use crate::format::format_content;
use crate::format::format_spec;
use crate::model::Attachment;
use crate::model::EmbedInfo;
use crate::model::GroupV;
use crate::model::MemberInfo;
use crate::model::ReactionGroup;
use crate::model::SourceMessage;
use crate::model::groups_view;
use crate::text::channel_mention;
use crate::text::channel_mention_spec;
use crate::text::dec_spec;
use crate::text::jump_url;
use crate::text::jump_url_spec;
use crate::text::u64_to_string;
use crate::text::user_mention_spec;

verus! {

/// Why a post could not be assembled.
#[derive(Clone, Copy, Debug, PartialEq, Eq, Structural)]
pub enum BuildError {
    /// The description could not be rendered.
    Format(FormatError),
    /// An embed is flagged as image-type but carries no URL.
    MissingImageUrl,
}

/// The author block of a curated post.
#[derive(Debug)]
pub struct AuthorBlock {
    pub name: String,
    pub icon_url: String,
    pub profile_url: Option<String>,
}

/// The mathematical content of an `AuthorBlock`.
#[verifier::ext_equal]
pub struct AuthorBlockV {
    pub name: Seq<char>,
    pub icon_url: Seq<char>,
    pub profile_url: Option<Seq<char>>,
}

impl View for AuthorBlock {
    type V = AuthorBlockV;

    open spec fn view(&self) -> AuthorBlockV {
        AuthorBlockV {
            name: self.name@,
            icon_url: self.icon_url@,
            profile_url: match self.profile_url {
                Some(u) => Some(u@),
                None => None,
            },
        }
    }
}

/// The outbound representation of a curated repost. It is recomputed on
/// every synchronization pass, never persisted.
#[derive(Debug)]
pub struct RenderedPost {
    pub author: AuthorBlock,
    pub description: String,
    pub image_url: Option<String>,
    pub content: String,
    pub link_url: String,
    pub link_label: String,
}

/// The mathematical content of a `RenderedPost`.
#[verifier::ext_equal]
pub struct PostV {
    pub author: AuthorBlockV,
    pub description: Seq<char>,
    pub image_url: Option<Seq<char>>,
    pub content: Seq<char>,
    pub link_url: Seq<char>,
    pub link_label: Seq<char>,
}

impl View for RenderedPost {
    type V = PostV;

    open spec fn view(&self) -> PostV {
        PostV {
            author: self.author@,
            description: self.description@,
            image_url: match self.image_url {
                Some(u) => Some(u@),
                None => None,
            },
            content: self.content@,
            link_url: self.link_url@,
            link_label: self.link_label@,
        }
    }
}

/// An attachment counts as an image when its declared content type
/// starts with the image media-type prefix.
pub open spec fn is_image_attachment(a: Attachment) -> bool {
    match a.content_type {
        Some(ct) => ct@.len() >= 6 && ct@.subrange(0int, 6int) == "image/"@,
        None => false,
    }
}

/// The first image-typed attachment, if any.
pub open spec fn first_image_attachment(s: Seq<Attachment>) -> Option<Attachment>
    decreases s.len(),
{
    if s.len() == 0 {
        None
    } else if is_image_attachment(s.first()) {
        Some(s.first())
    } else {
        first_image_attachment(s.drop_first())
    }
}

/// An embed counts as an image when its declared kind is `image`.
pub open spec fn is_image_embed(e: EmbedInfo) -> bool {
    match e.kind {
        Some(k) => k@ == "image"@,
        None => false,
    }
}

/// The first image-typed embed, if any.
pub open spec fn first_image_embed(s: Seq<EmbedInfo>) -> Option<EmbedInfo>
    decreases s.len(),
{
    if s.len() == 0 {
        None
    } else if is_image_embed(s.first()) {
        Some(s.first())
    } else {
        first_image_embed(s.drop_first())
    }
}

proof fn lemma_first_image_attachment_at(s: Seq<Attachment>, i: int)
    requires
        0 <= i < s.len(),
        is_image_attachment(s[i]),
        forall|j: int| 0 <= j < i ==> !is_image_attachment(#[trigger] s[j]),
    ensures
        first_image_attachment(s) == Some(s[i]),
    decreases s.len(),
{
    if i > 0 {
        lemma_first_image_attachment_at(s.drop_first(), i - 1);
    }
}

proof fn lemma_first_image_attachment_none(s: Seq<Attachment>)
    requires
        forall|j: int| 0 <= j < s.len() ==> !is_image_attachment(#[trigger] s[j]),
    ensures
        first_image_attachment(s) is None,
    decreases s.len(),
{
    if s.len() > 0 {
        lemma_first_image_attachment_none(s.drop_first());
    }
}

proof fn lemma_first_image_embed_at(s: Seq<EmbedInfo>, i: int)
    requires
        0 <= i < s.len(),
        is_image_embed(s[i]),
        forall|j: int| 0 <= j < i ==> !is_image_embed(#[trigger] s[j]),
    ensures
        first_image_embed(s) == Some(s[i]),
    decreases s.len(),
{
    if i > 0 {
        lemma_first_image_embed_at(s.drop_first(), i - 1);
    }
}

proof fn lemma_first_image_embed_none(s: Seq<EmbedInfo>)
    requires
        forall|j: int| 0 <= j < s.len() ==> !is_image_embed(#[trigger] s[j]),
    ensures
        first_image_embed(s) is None,
    decreases s.len(),
{
    if s.len() > 0 {
        lemma_first_image_embed_none(s.drop_first());
    }
}

/// The post's image: the first image-typed attachment's URL; else the
/// first image-typed embed's URL, which must be present; else none.
pub open spec fn image_spec(m: SourceMessage) -> Result<Option<Seq<char>>, BuildError> {
    match first_image_attachment(m.attachments@) {
        Some(a) => Ok(Some(a.url@)),
        None => match first_image_embed(m.embeds@) {
            Some(e) => match e.url {
                Some(u) => Ok(Some(u@)),
                None => Err(BuildError::MissingImageUrl),
            },
            None => Ok(None),
        },
    }
}

/// One tally entry of the content line: `<identifier> <count>`.
pub open spec fn tally_item(g: GroupV) -> Seq<char> {
    g.emoji + " "@ + dec_spec(g.count as nat)
}

/// The qualifying entries joined with two spaces, in tally order.
pub open spec fn tally_join(q: Seq<GroupV>) -> Seq<char>
    decreases q.len(),
{
    if q.len() == 0 {
        Seq::empty()
    } else if q.len() == 1 {
        tally_item(q[0])
    } else {
        tally_join(q.drop_last()) + "  "@ + tally_item(q.last())
    }
}

/// The content line: the joined tally, bold, then the source channel.
pub open spec fn content_line_spec(q: Seq<GroupV>, channel_id: u64) -> Seq<char> {
    "**"@ + tally_join(q) + "** in "@ + channel_mention_spec(channel_id)
}

/// The author block: a webhook message keeps its own display name and
/// avatar and gets no profile link; any other message shows the resolved
/// member, with the member avatar falling back to the author's, then to
/// the author's default, and links to the author's profile.
pub open spec fn author_block_spec(m: SourceMessage, member: Option<MemberInfo>) -> AuthorBlockV {
    if m.via_webhook {
        AuthorBlockV {
            name: m.author.name@,
            icon_url: match m.author.avatar_url {
                Some(u) => u@,
                None => "https://cdn.discordapp.com/embed/avatars/0.png"@,
            },
            profile_url: None,
        }
    } else {
        let mem = member->0;
        AuthorBlockV {
            name: mem.display_name@,
            icon_url: match mem.avatar_url {
                Some(u) => u@,
                None => match m.author.avatar_url {
                    Some(u) => u@,
                    None => m.author.default_avatar_url@,
                },
            },
            profile_url: Some("https://discord.com/users/"@ + dec_spec(m.author.id as nat)),
        }
    }
}

/// The exact post for `m` with qualifying tally `q`, or the error that
/// aborts assembly. A failed description takes precedence over a
/// missing image URL, as assembly renders the description first.
pub open spec fn build_spec(
    m: SourceMessage,
    guild_id: u64,
    guild_name: Option<String>,
    member: Option<MemberInfo>,
    q: Seq<GroupV>,
) -> Result<PostV, BuildError> {
    match format_spec(m, guild_id, guild_name, false) {
        Err(e) => Err(BuildError::Format(e)),
        Ok(desc) => match image_spec(m) {
            Err(e) => Err(e),
            Ok(img) => Ok(
                PostV {
                    author: author_block_spec(m, member),
                    description: desc,
                    image_url: img,
                    content: content_line_spec(q, m.channel_id),
                    link_url: jump_url_spec(Some(guild_id), m.channel_id, Some(m.id)),
                    link_label: "Original Message"@,
                },
            ),
        },
    }
}

/// Relates an executable build result to its specification.
pub open spec fn matches_build(
    r: Result<RenderedPost, BuildError>,
    s: Result<PostV, BuildError>,
) -> bool {
    match (r, s) {
        (Ok(a), Ok(b)) => a@ == b,
        (Err(a), Err(b)) => a == b,
        _ => false,
    }
}

fn is_image_attachment_exec(a: &Attachment) -> (r: bool)
    ensures
        r == is_image_attachment(*a),
{
    match &a.content_type {
        None => false,
        Some(ct) => {
            let s = ct.as_str();
            let n = s.unicode_len();
            if n < 6 {
                false
            } else {
                let sub = s.substring_char(0, 6);
                String::from_str(sub) == String::from_str("image/")
            }
        },
    }
}

fn is_image_embed_exec(e: &EmbedInfo) -> (r: bool)
    ensures
        r == is_image_embed(*e),
{
    match &e.kind {
        None => false,
        Some(k) => *k == String::from_str("image"),
    }
}

fn find_image(m: &SourceMessage) -> (r: Result<Option<String>, BuildError>)
    ensures
        match (r, image_spec(*m)) {
            (Ok(Some(a)), Ok(Some(b))) => a@ == b,
            (Ok(None), Ok(None)) => true,
            (Err(a), Err(b)) => a == b,
            _ => false,
        },
{
    let mut i: usize = 0;
    while i < m.attachments.len()
        invariant
            i <= m.attachments@.len(),
            forall|j: int| 0 <= j < i ==> !is_image_attachment(#[trigger] m.attachments@[j]),
        decreases m.attachments@.len() - i,
    {
        if is_image_attachment_exec(&m.attachments[i]) {
            proof {
                lemma_first_image_attachment_at(m.attachments@, i as int);
            }
            return Ok(Some(m.attachments[i].url.clone()));
        }
        i = i + 1;
    }
    proof {
        lemma_first_image_attachment_none(m.attachments@);
    }
    let mut k: usize = 0;
    while k < m.embeds.len()
        invariant
            k <= m.embeds@.len(),
            forall|j: int| 0 <= j < k ==> !is_image_embed(#[trigger] m.embeds@[j]),
            first_image_attachment(m.attachments@) is None,
        decreases m.embeds@.len() - k,
    {
        if is_image_embed_exec(&m.embeds[k]) {
            proof {
                lemma_first_image_embed_at(m.embeds@, k as int);
            }
            match &m.embeds[k].url {
                Some(u) => {
                    return Ok(Some(u.clone()));
                },
                None => {
                    return Err(BuildError::MissingImageUrl);
                },
            }
        }
        k = k + 1;
    }
    proof {
        lemma_first_image_embed_none(m.embeds@);
    }
    Ok(None)
}

fn content_line(q: &Vec<ReactionGroup>, channel_id: u64) -> (r: String)
    ensures
        r@ == content_line_spec(groups_view(q@), channel_id),
{
    let mut joined = String::new();
    let mut i: usize = 0;
    proof {
        assert(groups_view(q@).take(0int) =~= Seq::<GroupV>::empty());
    }
    while i < q.len()
        invariant
            i <= q.len(),
            joined@ == tally_join(groups_view(q@).take(i as int)),
        decreases q.len() - i,
    {
        let ghost whole = groups_view(q@).take(i + 1);
        proof {
            assert(whole.drop_last() =~= groups_view(q@).take(i as int));
            assert(whole.last() == q@[i as int]@);
        }
        if i > 0 {
            joined.append("  ");
        }
        joined.append(q[i].emoji.as_str());
        joined.append(" ");
        joined.append(u64_to_string(q[i].count).as_str());
        proof {
            if i == 0 {
                assert(joined@ =~= tally_item(q@[0int]@));
                assert(whole.len() == 1);
                assert(whole[0int] == q@[0int]@);
                assert(joined@ =~= tally_join(whole));
            } else {
                assert(joined@ =~= tally_join(whole.drop_last()) + "  "@ + tally_item(
                    whole.last(),
                ));
                assert(joined@ =~= tally_join(whole));
            }
        }
        i = i + 1;
    }
    proof {
        assert(groups_view(q@).take(q@.len() as int) =~= groups_view(q@));
    }
    let r = String::from_str("**").concat(joined.as_str()).concat("** in ").concat(
        channel_mention(channel_id).as_str(),
    );
    proof {
        assert(r@ =~= content_line_spec(groups_view(q@), channel_id));
    }
    r
}

fn build_author_block(m: &SourceMessage, member: &Option<MemberInfo>) -> (r: AuthorBlock)
    requires
        m.via_webhook || member is Some,
    ensures
        r@ == author_block_spec(*m, *member),
{
    if m.via_webhook {
        let icon = match &m.author.avatar_url {
            Some(u) => u.clone(),
            None => String::from_str("https://cdn.discordapp.com/embed/avatars/0.png"),
        };
        AuthorBlock { name: m.author.name.clone(), icon_url: icon, profile_url: None }
    } else {
        match member {
            Some(mem) => {
                let icon = match &mem.avatar_url {
                    Some(u) => u.clone(),
                    None => match &m.author.avatar_url {
                        Some(u) => u.clone(),
                        None => m.author.default_avatar_url.clone(),
                    },
                };
                let profile = String::from_str("https://discord.com/users/").concat(
                    u64_to_string(m.author.id).as_str(),
                );
                AuthorBlock {
                    name: mem.display_name.clone(),
                    icon_url: icon,
                    profile_url: Some(profile),
                }
            },
            None => vstd::pervasive::unreached(),
        }
    }
}

/// Assembles the post for `m` exactly as `build_spec` states. `member`
/// is the resolved guild member of the author; a webhook message needs
/// none.
pub fn build(
    m: &SourceMessage,
    guild_id: u64,
    guild_name: &Option<String>,
    member: &Option<MemberInfo>,
    q: &Vec<ReactionGroup>,
) -> (r: Result<RenderedPost, BuildError>)
    requires
        m.via_webhook || member is Some,
    ensures
        matches_build(r, build_spec(*m, guild_id, *guild_name, *member, groups_view(q@))),
{
    let author = build_author_block(m, member);
    let description = match format_content(m, guild_id, guild_name, false) {
        Ok(d) => d,
        Err(e) => {
            return Err(BuildError::Format(e));
        },
    };
    let image_url = match find_image(m) {
        Ok(u) => u,
        Err(e) => {
            return Err(e);
        },
    };
    let post = RenderedPost {
        author,
        description,
        image_url,
        content: content_line(q, m.channel_id),
        link_url: jump_url(Some(guild_id), m.channel_id, Some(m.id)),
        link_label: String::from_str("Original Message"),
    };
    proof {
        assert(post@ =~= build_spec(
            *m,
            guild_id,
            *guild_name,
            *member,
            groups_view(q@),
        )->Ok_0);
    }
    Ok(post)
}

} // verus!
