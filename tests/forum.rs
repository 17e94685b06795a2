use luma1::cleanup::{bulk_chunks, bulk_deletable, Cleanup, CleanupAction};
use luma1::config::{load_forum_auto_close_config, ConfigError};
use luma1::forum::{
    decide_reaction_close, decide_tag_close, is_close_emoji, reaction_candidate, ChannelKind,
    ForumAutoCloseConfig, ThreadState,
};
use luma1::time::UtcInstant;

const CFG: ForumAutoCloseConfig =
    ForumAutoCloseConfig { forum_channel_id: 100, close_tag_id: 7, lock_on_close: true };

fn thread(tags: Vec<u64>, archived: bool) -> ThreadState {
    ThreadState {
        id: 555,
        parent_id: Some(100),
        kind: ChannelKind::PublicThread,
        owner_id: Some(1),
        applied_tags: tags,
        archived,
    }
}

#[test]
fn tag_applied_closes_and_locks() {
    let old = thread(vec![3], false);
    let new = thread(vec![3, 7], false);
    let e = decide_tag_close(Some(CFG), Some(&old), &new).expect("edit");
    assert_eq!(e.thread_id, 555);
    assert!(e.lock);
    assert!(e.applied_tags.is_none());
    let unlocked = ForumAutoCloseConfig { lock_on_close: false, ..CFG };
    assert!(!decide_tag_close(Some(unlocked), None, &new).unwrap().lock);
}

#[test]
fn tag_already_present_does_not_fire_again() {
    let old = thread(vec![7], false);
    let new = thread(vec![7], false);
    assert!(decide_tag_close(Some(CFG), Some(&old), &new).is_none());
}

#[test]
fn tag_close_guards() {
    let new = thread(vec![7], false);
    assert!(decide_tag_close(None, None, &new).is_none());
    assert!(decide_tag_close(Some(CFG), Some(&thread(vec![], true)), &new).is_none());
    assert!(decide_tag_close(Some(CFG), None, &thread(vec![7], true)).is_none());
    let mut other = thread(vec![7], false);
    other.parent_id = Some(101);
    assert!(decide_tag_close(Some(CFG), None, &other).is_none());
    let mut not_thread = thread(vec![7], false);
    not_thread.kind = ChannelKind::Other;
    assert!(decide_tag_close(Some(CFG), None, &not_thread).is_none());
}

#[test]
fn close_emoji_is_the_check_mark() {
    assert!(is_close_emoji(Some("\u{2705}")));
    assert!(!is_close_emoji(Some("x")));
    assert!(!is_close_emoji(Some("\u{2705}\u{2705}")));
    assert!(!is_close_emoji(None));
    assert_eq!(reaction_candidate(Some(CFG), Some("\u{2705}"), Some(4)), Some(4));
    assert_eq!(reaction_candidate(None, Some("\u{2705}"), Some(4)), None);
    assert_eq!(reaction_candidate(Some(CFG), Some("x"), Some(4)), None);
}

#[test]
fn owner_reaction_closes_and_adds_tag() {
    let t = thread(vec![3], false);
    let e = decide_reaction_close(Some(CFG), 1, Some(2), Some(&t)).expect("edit");
    assert_eq!(e.applied_tags, Some(vec![3, 7]));
    assert!(e.lock);
    let e = decide_reaction_close(Some(CFG), 2, Some(2), Some(&t)).expect("edit by author");
    assert_eq!(e.thread_id, 555);
}

#[test]
fn stranger_reaction_does_nothing() {
    let t = thread(vec![3], false);
    assert!(decide_reaction_close(Some(CFG), 9, Some(2), Some(&t)).is_none());
    assert!(decide_reaction_close(Some(CFG), 9, None, Some(&t)).is_none());
}

#[test]
fn full_thread_closes_without_tag() {
    let t = thread(vec![1, 2, 3, 4, 5], false);
    let e = decide_reaction_close(Some(CFG), 1, None, Some(&t)).expect("edit");
    assert!(e.applied_tags.is_none());
    assert!(e.lock);
}

#[test]
fn reaction_on_closed_or_foreign_thread_does_nothing() {
    assert!(decide_reaction_close(Some(CFG), 1, None, Some(&thread(vec![], true))).is_none());
    assert!(decide_reaction_close(Some(CFG), 1, None, None).is_none());
    let t = thread(vec![7], false);
    assert!(decide_reaction_close(Some(CFG), 1, None, Some(&t)).unwrap().applied_tags.is_none());
}

#[test]
fn config_absent_or_complete() {
    assert_eq!(load_forum_auto_close_config(None, None, None), Ok(None));
    assert_eq!(
        load_forum_auto_close_config(Some("100"), Some("+7"), None),
        Ok(Some(ForumAutoCloseConfig { forum_channel_id: 100, close_tag_id: 7, lock_on_close: false }))
    );
    assert_eq!(
        load_forum_auto_close_config(Some("18446744073709551615"), Some("7"), Some("true")),
        Ok(Some(ForumAutoCloseConfig { forum_channel_id: u64::MAX, close_tag_id: 7, lock_on_close: true }))
    );
}

#[test]
fn config_errors() {
    assert_eq!(load_forum_auto_close_config(None, None, Some("true")), Err(ConfigError::LockWithoutIds));
    assert_eq!(load_forum_auto_close_config(Some("1"), None, None), Err(ConfigError::IncompleteIds));
    assert_eq!(load_forum_auto_close_config(None, Some("1"), Some("false")), Err(ConfigError::IncompleteIds));
    assert_eq!(load_forum_auto_close_config(Some("x1"), Some("1"), None), Err(ConfigError::BadChannelId));
    assert_eq!(load_forum_auto_close_config(Some("18446744073709551616"), Some("1"), None), Err(ConfigError::BadChannelId));
    assert_eq!(load_forum_auto_close_config(Some("1"), Some(" 1"), None), Err(ConfigError::BadTagId));
    assert_eq!(load_forum_auto_close_config(Some("1"), Some("1"), Some("yes")), Err(ConfigError::BadLockFlag));
    assert_eq!(load_forum_auto_close_config(Some("0"), Some("456"), None), Err(ConfigError::BadChannelId));
    assert_eq!(load_forum_auto_close_config(Some("123"), Some("0"), None), Err(ConfigError::BadTagId));
    assert_eq!(load_forum_auto_close_config(Some("+0"), Some("0"), Some("true")), Err(ConfigError::BadChannelId));
    assert_eq!(ConfigError::BadLockFlag.message(), "FORUM_AUTO_CLOSE_LOCK must be either true or false");
    assert_eq!(ConfigError::BadChannelId.message(), "FORUM_AUTO_CLOSE_CHANNEL_ID must be a nonzero integer Discord channel id");
    assert_eq!(ConfigError::BadTagId.message(), "FORUM_AUTO_CLOSE_TAG_ID must be a nonzero integer Discord forum tag id");
    assert_eq!(ConfigError::LockWithoutIds.message(), "FORUM_AUTO_CLOSE_LOCK requires FORUM_AUTO_CLOSE_CHANNEL_ID and FORUM_AUTO_CLOSE_TAG_ID");
    assert_eq!(ConfigError::IncompleteIds.message(), "FORUM_AUTO_CLOSE_CHANNEL_ID and FORUM_AUTO_CLOSE_TAG_ID must both be provided when enabling forum auto-close");
}

#[test]
fn cleanup_walks_messages() {
    let now = UtcInstant { secs: 2_000_000, nanos: 0 };
    let young = UtcInstant { secs: 1_000_000, nanos: 0 };
    let old = UtcInstant { secs: 500_000, nanos: 0 };
    let mut c = Cleanup::new(2);
    assert_eq!(c.step(now, 1, young, true), CleanupAction::Keep);
    assert_eq!(c.step(now, 2, young, false), CleanupAction::QueueBulk);
    assert!(!c.is_done());
    assert_eq!(c.step(now, 3, old, false), CleanupAction::DeleteNow);
    assert!(c.is_done());
    assert_eq!(c.bulk, vec![2]);
}

#[test]
fn two_week_boundary() {
    let now = UtcInstant { secs: 1_209_600, nanos: 5 };
    assert!(bulk_deletable(now, UtcInstant { secs: 0, nanos: 6 }));
    assert!(!bulk_deletable(now, UtcInstant { secs: 0, nanos: 5 }));
    assert!(bulk_deletable(now, UtcInstant { secs: 1, nanos: 0 }));
}

#[test]
fn chunks_of_one_hundred() {
    let ids: Vec<u64> = (0..250).collect();
    let chunks = bulk_chunks(&ids);
    assert_eq!(chunks.len(), 3);
    assert_eq!(chunks[0].len(), 100);
    assert_eq!(chunks[2], (200..250).collect::<Vec<u64>>());
    assert!(bulk_chunks(&vec![]).is_empty());
    assert_eq!(bulk_chunks(&(0..100).collect()).len(), 1);
}
