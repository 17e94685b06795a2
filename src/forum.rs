use vstd::prelude::*;

verus! {

/// The most tags the platform lets one thread carry.
pub const MAX_FORUM_TAGS: usize = 5;

/// The acknowledgement symbol (a white check mark) that closes a thread when
/// its owner reacts with it.
pub const CLOSE_EMOJI: char = '\u{2705}';

/// Where and how threads are closed automatically.
#[derive(Clone, Copy, Debug, PartialEq, Eq, Structural)]
pub struct ForumAutoCloseConfig {
    pub forum_channel_id: u64,
    pub close_tag_id: u64,
    pub lock_on_close: bool,
}

/// The kinds of channel the platform knows, as far as closing threads cares.
#[derive(Clone, Copy, Debug, PartialEq, Eq, Structural)]
pub enum ChannelKind {
    PublicThread,
    PrivateThread,
    NewsThread,
    Other,
}

impl ChannelKind {
    pub open spec fn is_thread_spec(self) -> bool {
        self != ChannelKind::Other
    }

    /// Whether a channel of this kind is a thread.
    pub fn is_thread(&self) -> (r: bool)
        ensures
            r == self.is_thread_spec(),
    {
        !matches!(self, ChannelKind::Other)
    }
}

/// What the automation reads of a thread.
#[derive(Clone, Debug)]
pub struct ThreadState {
    pub id: u64,
    pub parent_id: Option<u64>,
    pub kind: ChannelKind,
    pub owner_id: Option<u64>,
    pub applied_tags: Vec<u64>,
    /// Whether the thread is archived; a thread without metadata is not.
    pub archived: bool,
}

/// The edit that closes a thread: it is always archived; it is locked only
/// when `lock` holds (otherwise the lock is left as it is); its tags are
/// replaced only when `applied_tags` is given.
#[derive(Clone, Debug)]
pub struct ThreadEdit {
    pub thread_id: u64,
    pub lock: bool,
    pub applied_tags: Option<Vec<u64>>,
}

/// Whether a thread sits in the configured forum and is a thread at all.
pub open spec fn in_forum(config: ForumAutoCloseConfig, t: ThreadState) -> bool {
    t.parent_id == Some(config.forum_channel_id) && t.kind.is_thread_spec()
}

/// Whether `tags` holds `tag`.
pub fn has_tag(tags: &Vec<u64>, tag: u64) -> (r: bool)
    ensures
        r == tags@.contains(tag),
{
    let mut i: usize = 0;
    while i < tags.len()
        invariant
            i <= tags@.len(),
            forall|j: int| 0 <= j < i ==> tags@[j] != tag,
        decreases tags@.len() - i,
    {
        if tags[i] == tag {
            return true;
        }
        i += 1;
    }
    false
}

/// Whether a thread update is the close tag being applied to an open thread
/// of the forum: the tag is present now, was absent before, and the thread is
/// archived neither now nor before.
pub open spec fn tag_close_fires(
    config: ForumAutoCloseConfig,
    old: Option<ThreadState>,
    new: ThreadState,
) -> bool {
    &&& in_forum(config, new)
    &&& new.applied_tags@.contains(config.close_tag_id)
    &&& !(old matches Some(o) && o.applied_tags@.contains(config.close_tag_id))
    &&& !new.archived
    &&& !(old matches Some(o) && o.archived)
}

/// Decides what a thread update does: the edit that closes the thread when
/// the close tag was just applied, nothing otherwise (or when the automation
/// is not configured).
pub fn decide_tag_close(
    config: Option<ForumAutoCloseConfig>,
    old: Option<&ThreadState>,
    new: &ThreadState,
) -> (r: Option<ThreadEdit>)
    ensures
        r is Some <==> (config matches Some(c) && tag_close_fires(
            c,
            match old {
                Some(o) => Some(*o),
                None => None,
            },
            *new,
        )),
        r matches Some(e) ==> (config matches Some(c) && e.thread_id == new.id && e.lock
            == c.lock_on_close && e.applied_tags is None),
{
    let c = match config {
        Some(c) => c,
        None => return None,
    };
    if new.parent_id != Some(c.forum_channel_id) {
        return None;
    }
    if !new.kind.is_thread() {
        return None;
    }
    if !has_tag(&new.applied_tags, c.close_tag_id) {
        return None;
    }
    match old {
        Some(o) => {
            if has_tag(&o.applied_tags, c.close_tag_id) {
                return None;
            }
        },
        None => {},
    }
    if new.archived {
        return None;
    }
    match old {
        Some(o) => {
            if o.archived {
                return None;
            }
        },
        None => {},
    }
    Some(ThreadEdit { thread_id: new.id, lock: c.lock_on_close, applied_tags: None })
}

/// Whether an emoji is the acknowledgement symbol; a custom emoji (`None`)
/// never is.
pub fn is_close_emoji(emoji: Option<&str>) -> (r: bool)
    ensures
        r == (emoji matches Some(s) && s@ == seq![CLOSE_EMOJI]),
{
    match emoji {
        Some(s) => {
            if s.unicode_len() != 1 {
                return false;
            }
            let c = s.get_char(0);
            if c == CLOSE_EMOJI {
                assert(s@ =~= seq![CLOSE_EMOJI]);
                true
            } else {
                false
            }
        },
        None => false,
    }
}

/// First step of a reaction: the user whose reaction may close a thread, when
/// the automation is configured, the emoji is the acknowledgement symbol and
/// the reacting user is known. Only then is the channel worth fetching.
pub fn reaction_candidate(
    config: Option<ForumAutoCloseConfig>,
    emoji: Option<&str>,
    user_id: Option<u64>,
) -> (r: Option<u64>)
    ensures
        r == (if config is Some && (emoji matches Some(s) && s@ == seq![CLOSE_EMOJI]) {
            user_id
        } else {
            None
        }),
{
    if config.is_none() {
        return None;
    }
    if !is_close_emoji(emoji) {
        return None;
    }
    user_id
}

/// The tags a reaction-closed thread should carry: the close tag appended
/// when it is missing and there is room for it; `None` when the tags stay.
pub open spec fn tags_after_reaction(tags: Seq<u64>, close_tag: u64) -> Option<Seq<u64>> {
    if tags.contains(close_tag) || tags.len() >= MAX_FORUM_TAGS {
        None
    } else {
        Some(tags.push(close_tag))
    }
}

/// Whether a reaction by `user_id` on a message by `message_author_id` in
/// `channel` closes the thread: the channel is an open thread of the forum
/// and the user is its owner or the message's author.
pub open spec fn reaction_close_fires(
    config: ForumAutoCloseConfig,
    user_id: u64,
    message_author_id: Option<u64>,
    channel: ThreadState,
) -> bool {
    &&& in_forum(config, channel)
    &&& (channel.owner_id == Some(user_id) || message_author_id == Some(user_id))
    &&& !channel.archived
}

/// Second step of a reaction, once its channel is known (`None` when it is no
/// guild channel): the edit that closes the thread, adding the close tag when
/// it is missing and the thread has room for it.
pub fn decide_reaction_close(
    config: Option<ForumAutoCloseConfig>,
    user_id: u64,
    message_author_id: Option<u64>,
    channel: Option<&ThreadState>,
) -> (r: Option<ThreadEdit>)
    ensures
        r is Some <==> (config matches Some(c) && channel matches Some(t) && reaction_close_fires(
            c,
            user_id,
            message_author_id,
            *t,
        )),
        r matches Some(e) ==> (config matches Some(c) && channel matches Some(t) && e.thread_id
            == t.id && e.lock == c.lock_on_close && match e.applied_tags {
            Some(v) => tags_after_reaction(t.applied_tags@, c.close_tag_id) == Some(v@),
            None => tags_after_reaction(t.applied_tags@, c.close_tag_id) is None,
        }),
{
    let c = match config {
        Some(c) => c,
        None => return None,
    };
    let t = match channel {
        Some(t) => t,
        None => return None,
    };
    if t.parent_id != Some(c.forum_channel_id) {
        return None;
    }
    if !t.kind.is_thread() {
        return None;
    }
    let is_owner = t.owner_id == Some(user_id) || message_author_id == Some(user_id);
    if !is_owner {
        return None;
    }
    let tags = if has_tag(&t.applied_tags, c.close_tag_id) {
        None
    } else if t.applied_tags.len() >= MAX_FORUM_TAGS {
        None
    } else {
        let mut v = t.applied_tags.clone();
        v.push(c.close_tag_id);
        Some(v)
    };
    if t.archived {
        return None;
    }
    Some(ThreadEdit { thread_id: t.id, lock: c.lock_on_close, applied_tags: tags })
}

/// A thread update whose tag set is the same as before never closes the
/// thread; only the close tag going from absent to present does, on an open
/// thread of the forum.
pub proof fn lemma_tag_close_is_edge_triggered(
    config: ForumAutoCloseConfig,
    old: ThreadState,
    new: ThreadState,
)
    ensures
        old.applied_tags@ == new.applied_tags@ ==> !tag_close_fires(config, Some(old), new),
        tag_close_fires(config, Some(old), new) ==> !old.applied_tags@.contains(config.close_tag_id)
            && new.applied_tags@.contains(config.close_tag_id),
        (in_forum(config, new) && !old.applied_tags@.contains(config.close_tag_id)
            && new.applied_tags@.contains(config.close_tag_id) && !old.archived && !new.archived)
            ==> tag_close_fires(config, Some(old), new),
{
}

/// A reaction by someone who is neither the thread's owner nor the author of
/// the message reacted to never closes the thread.
pub proof fn lemma_reaction_close_needs_owner_or_author(
    config: ForumAutoCloseConfig,
    user_id: u64,
    message_author_id: Option<u64>,
    channel: ThreadState,
)
    requires
        channel.owner_id != Some(user_id),
        message_author_id != Some(user_id),
    ensures
        !reaction_close_fires(config, user_id, message_author_id, channel),
{
}

/// A thread that already carries the most tags it may, without the close
/// tag, is still closed by its owner's reaction, but its tags are left alone.
pub proof fn lemma_full_thread_closes_without_tag(
    config: ForumAutoCloseConfig,
    user_id: u64,
    channel: ThreadState,
)
    requires
        channel.applied_tags@.len() >= MAX_FORUM_TAGS,
        !channel.applied_tags@.contains(config.close_tag_id),
        in_forum(config, channel),
        channel.owner_id == Some(user_id),
        !channel.archived,
    ensures
        reaction_close_fires(config, user_id, None, channel),
        tags_after_reaction(channel.applied_tags@, config.close_tag_id) is None,
{
}

} // verus!
