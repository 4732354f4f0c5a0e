//! The pending-relocation queue and the relocation coordinator.
//!
//! A move that fails is recorded as a `(source, target)` pair keyed by the
//! source path — re-recording overwrites, never duplicates — and a periodic
//! sweep retries it. The caller performs the physical move, the shortcut and
//! the desktop notification; the functions here make every decision and keep
//! the queue, and their contracts pin down both.

use vstd::prelude::*;

use crate::naming::str_eq;

verus! {

/// A move is retried only once the source has been left alone for this many
/// seconds, so a file still being written is never picked up.
pub const DEBOUNCE_SECS: u64 = 5;

/// A source → target pair whose move failed and waits to be retried.
pub struct PendingRelocation {
    pub src_path: String,
    pub target_path: String,
}

/// The target recorded for a key, scanning the rows in order.
pub open spec fn spec_lookup(rows: Seq<PendingRelocation>, key: Seq<char>) -> Option<Seq<char>>
    decreases rows.len(),
{
    if rows.len() == 0 {
        Option::None
    } else if rows[0].src_path@ == key {
        Option::Some(rows[0].target_path@)
    } else {
        spec_lookup(rows.drop_first(), key)
    }
}

/// How many rows carry the key as their source.
pub open spec fn count_for(rows: Seq<PendingRelocation>, key: Seq<char>) -> nat
    decreases rows.len(),
{
    if rows.len() == 0 {
        0
    } else {
        (if rows.last().src_path@ == key {
            1nat
        } else {
            0nat
        }) + count_for(rows.drop_last(), key)
    }
}

proof fn lemma_lookup_some_iff(rows: Seq<PendingRelocation>, key: Seq<char>)
    ensures
        (spec_lookup(rows, key) is Some) <==> (exists|j: int|
            0 <= j < rows.len() && rows[j].src_path@ == key),
    decreases rows.len(),
{
    if rows.len() > 0 {
        lemma_lookup_some_iff(rows.drop_first(), key);
        if rows[0].src_path@ != key && spec_lookup(rows.drop_first(), key) is Some {
            let j = choose|j: int|
                0 <= j < rows.drop_first().len() && rows.drop_first()[j].src_path@ == key;
            assert(rows[j + 1].src_path@ == key);
        }
        if exists|j: int| 0 <= j < rows.len() && rows[j].src_path@ == key {
            let j = choose|j: int| 0 <= j < rows.len() && rows[j].src_path@ == key;
            if rows[0].src_path@ != key {
                assert(rows.drop_first()[j - 1].src_path@ == key);
            }
        }
    }
}

proof fn lemma_count_zero(rows: Seq<PendingRelocation>, key: Seq<char>)
    requires
        forall|j: int| 0 <= j < rows.len() ==> rows[j].src_path@ != key,
    ensures
        count_for(rows, key) == 0,
    decreases rows.len(),
{
    if rows.len() > 0 {
        lemma_count_zero(rows.drop_last(), key);
    }
}

proof fn lemma_lookup_remove(rows: Seq<PendingRelocation>, i: int, key: Seq<char>)
    requires
        0 <= i < rows.len(),
        forall|a: int, b: int|
            0 <= a < b < rows.len() ==> rows[a].src_path@ != rows[b].src_path@,
    ensures
        spec_lookup(rows.remove(i), key) == (if key == rows[i].src_path@ {
            Option::<Seq<char>>::None
        } else {
            spec_lookup(rows, key)
        }),
    decreases rows.len(),
{
    lemma_lookup_some_iff(rows.remove(i), key);
    lemma_lookup_some_iff(rows, key);
    if i == 0 {
        assert(rows.remove(0) =~= rows.drop_first());
        if key == rows[0].src_path@ {
            assert forall|j: int| 0 <= j < rows.drop_first().len() implies rows.drop_first()[
                j
            ].src_path@ != key by {
                assert(rows.drop_first()[j] == rows[j + 1]);
            }
            lemma_lookup_some_iff(rows.drop_first(), key);
        }
    } else {
        assert(rows.remove(i)[0] == rows[0]);
        if key != rows[0].src_path@ {
            lemma_lookup_remove(rows.drop_first(), i - 1, key);
            assert(rows.remove(i).drop_first() =~= rows.drop_first().remove(i - 1));
        } else {
            assert(rows.remove(i).len() > 0);
        }
    }
}

proof fn lemma_lookup_push(rows: Seq<PendingRelocation>, p: PendingRelocation, key: Seq<char>)
    ensures
        spec_lookup(rows.push(p), key) == (if spec_lookup(rows, key) is Some {
            spec_lookup(rows, key)
        } else if key == p.src_path@ {
            Option::Some(p.target_path@)
        } else {
            Option::<Seq<char>>::None
        }),
    decreases rows.len(),
{
    if rows.len() == 0 {
        assert(rows.push(p)[0] == p);
        assert(rows.push(p).drop_first() =~= Seq::<PendingRelocation>::empty());
    } else {
        assert(rows.push(p)[0] == rows[0]);
        lemma_lookup_push(rows.drop_first(), p, key);
        assert(rows.push(p).drop_first() =~= rows.drop_first().push(p));
    }
}

/// The durable set of pending relocations, keyed by source path.
pub struct PendingQueue {
    entries: Vec<PendingRelocation>,
}

impl View for PendingQueue {
    type V = Map<Seq<char>, Seq<char>>;

    /// The queue as a map from source path to recorded target path.
    closed spec fn view(&self) -> Map<Seq<char>, Seq<char>> {
        Map::new(
            |k: Seq<char>| spec_lookup(self.entries@, k) is Some,
            |k: Seq<char>| spec_lookup(self.entries@, k)->0,
        )
    }
}

impl PendingQueue {
    /// The rows as stored, for counting statements.
    pub closed spec fn rows(&self) -> Seq<PendingRelocation> {
        self.entries@
    }

    /// Each source path is recorded at most once.
    pub closed spec fn wf(&self) -> bool {
        forall|a: int, b: int|
            0 <= a < b < self.entries@.len() ==> self.entries@[a].src_path@
                != self.entries@[b].src_path@
    }

    /// An empty queue.
    pub fn new() -> (q: PendingQueue)
        ensures
            q.wf(),
            q@ == Map::<Seq<char>, Seq<char>>::empty(),
            q.rows().len() == 0,
    {
        let q = PendingQueue { entries: Vec::new() };
        proof {
            assert(q@ =~= Map::<Seq<char>, Seq<char>>::empty());
        }
        q
    }

    /// All pending relocations, each source path exactly once.
    pub fn list_all(&self) -> (r: &Vec<PendingRelocation>)
        ensures
            r@ == self.rows(),
    {
        &self.entries
    }

    /// Drop the entry for this source, if one is recorded.
    pub fn remove(&mut self, src_path: &str)
        requires
            old(self).wf(),
        ensures
            final(self).wf(),
            final(self)@ == old(self)@.remove(src_path@),
            count_for(final(self).rows(), src_path@) == 0,
            forall|k: Seq<char>| #![auto]
                spec_lookup(final(self).rows(), k) == (if k == src_path@ {
                    Option::<Seq<char>>::None
                } else {
                    spec_lookup(old(self).rows(), k)
                }),
    {
        let n: usize = self.entries.len();
        let mut i: usize = 0;
        while i < n
            invariant
                i <= n,
                n == self.entries@.len(),
                self.wf(),
                *self == *old(self),
                forall|j: int| 0 <= j < i ==> self.entries@[j].src_path@ != src_path@,
            decreases n - i,
        {
            if str_eq(self.entries[i].src_path.as_str(), src_path) {
                let ghost before = self.entries@;
                self.entries.remove(i);
                proof {
                    assert forall|k: Seq<char>| true implies spec_lookup(self.entries@, k) == (
                    if k == src_path@ {
                        Option::<Seq<char>>::None
                    } else {
                        spec_lookup(before, k)
                    }) by {
                        lemma_lookup_remove(before, i as int, k);
                    }
                    assert(self@ =~= old(self)@.remove(src_path@));
                    assert forall|j: int|
                        0 <= j < self.entries@.len() implies self.entries@[j].src_path@
                        != src_path@ by {
                        if j < i {
                            assert(self.entries@[j] == before[j]);
                        } else {
                            assert(self.entries@[j] == before[j + 1]);
                        }
                    }
                    lemma_count_zero(self.entries@, src_path@);
                    assert forall|a: int, b: int|
                        0 <= a < b < self.entries@.len() implies self.entries@[a].src_path@
                        != self.entries@[b].src_path@ by {
                        if b < i {
                        } else if a < i {
                            assert(self.entries@[b] == before[b + 1]);
                        } else {
                            assert(self.entries@[a] == before[a + 1]);
                            assert(self.entries@[b] == before[b + 1]);
                        }
                    }
                }
                return ;
            }
            i = i + 1;
        }
        proof {
            lemma_lookup_some_iff(self.entries@, src_path@);
            assert(self@ =~= old(self)@.remove(src_path@));
            lemma_count_zero(self.entries@, src_path@);
        }
    }

    /// Record the target for this source, overwriting any earlier record:
    /// afterwards exactly one row carries the source.
    pub fn upsert(&mut self, src_path: &str, target_path: &str)
        requires
            old(self).wf(),
        ensures
            final(self).wf(),
            final(self)@ == old(self)@.insert(src_path@, target_path@),
            count_for(final(self).rows(), src_path@) == 1,
    {
        self.remove(src_path);
        let ghost removed = self.entries@;
        let row = PendingRelocation {
            src_path: String::from_str(src_path),
            target_path: String::from_str(target_path),
        };
        proof {
            lemma_lookup_some_iff(removed, src_path@);
        }
        self.entries.push(row);
        proof {
            assert forall|k: Seq<char>| true implies spec_lookup(self.entries@, k) == (
            if spec_lookup(removed, k) is Some {
                spec_lookup(removed, k)
            } else if k == src_path@ {
                Option::Some(target_path@)
            } else {
                Option::<Seq<char>>::None
            }) by {
                lemma_lookup_push(removed, row, k);
            }
            assert(self@ =~= old(self)@.insert(src_path@, target_path@));
            assert(self.entries@.drop_last() =~= removed);
            assert forall|a: int, b: int|
                0 <= a < b < self.entries@.len() implies self.entries@[a].src_path@
                != self.entries@[b].src_path@ by {
                if b == self.entries@.len() - 1 {
                    assert(self.entries@[a] == removed[a]);
                }
            }
        }
    }
}

/// What the caller must do after a move attempt was confirmed.
#[derive(Clone, Copy, Debug, PartialEq, Eq, Structural)]
pub enum ConfirmAction {
    /// The move succeeded: leave a shortcut at the source pointing at the
    /// target, and notify the user of the filed episode.
    CreateShortcutAndNotify,
    /// The move failed: the pair is queued and a later sweep retries it.
    QueuedForRetry,
}

/// What a sweep step decided for one queue entry.
#[derive(Clone, Copy, Debug, PartialEq, Eq, Structural)]
pub enum SweepDecision {
    /// The source is gone or is itself a link: the entry was stale and has
    /// been dropped.
    DropStale,
    /// The source was modified too recently: leave the entry untouched and
    /// try again on a later pass.
    Skip,
    /// The entry is ready: attempt the move, then confirm it with `insert`.
    AttemptMove,
}

/// The shared move-and-confirm routine of both entry points. The caller has
/// just attempted the physical move of `src_path` to `target_path` and
/// reports the outcome in `moved`. On success any record for the source is
/// dropped and the caller is told to create the shortcut and notify; on
/// failure the pair is recorded — exactly one row for this source — for a
/// later sweep to retry.
pub fn insert(queue: &mut PendingQueue, src_path: &str, target_path: &str, moved: bool) -> (a:
    ConfirmAction)
    requires
        old(queue).wf(),
    ensures
        final(queue).wf(),
        moved ==> final(queue)@ == old(queue)@.remove(src_path@),
        moved ==> count_for(final(queue).rows(), src_path@) == 0,
        moved ==> a == ConfirmAction::CreateShortcutAndNotify,
        !moved ==> final(queue)@ == old(queue)@.insert(src_path@, target_path@),
        !moved ==> count_for(final(queue).rows(), src_path@) == 1,
        !moved ==> a == ConfirmAction::QueuedForRetry,
{
    if moved {
        queue.remove(src_path);
        ConfirmAction::CreateShortcutAndNotify
    } else {
        queue.upsert(src_path, target_path);
        ConfirmAction::QueuedForRetry
    }
}

/// One sweep step over a queue entry. The caller reports what it observed of
/// the source file; a missing source or one that is itself a symbolic link
/// marks the entry stale and drops it, a source modified within the debounce
/// window is skipped with the queue left exactly as it was, and otherwise
/// the caller is told to attempt the move and confirm it with `insert`.
pub fn process(
    queue: &mut PendingQueue,
    src_path: &str,
    source_exists: bool,
    source_is_symlink: bool,
    seconds_since_modified: u64,
) -> (d: SweepDecision)
    requires
        old(queue).wf(),
    ensures
        final(queue).wf(),
        (!source_exists || source_is_symlink) ==> d == SweepDecision::DropStale && final(queue)@
            == old(queue)@.remove(src_path@),
        (source_exists && !source_is_symlink && seconds_since_modified < DEBOUNCE_SECS) ==> d
            == SweepDecision::Skip && *final(queue) == *old(queue),
        (source_exists && !source_is_symlink && seconds_since_modified >= DEBOUNCE_SECS) ==> d
            == SweepDecision::AttemptMove && *final(queue) == *old(queue),
{
    if !source_exists || source_is_symlink {
        queue.remove(src_path);
        SweepDecision::DropStale
    } else if seconds_since_modified < DEBOUNCE_SECS {
        SweepDecision::Skip
    } else {
        SweepDecision::AttemptMove
    }
}

/// The localized title of the "new video filed" notification.
pub open spec fn spec_notification_title(lang: Seq<char>) -> Seq<char> {
    if lang == "zh_CN"@ {
        "Anime-Repository:新视频已经入库！"@
    } else if lang == "ja_JP"@ {
        "Anime-Repository:新しい動画が追加されました！"@
    } else {
        "Anime-Repository:New video has been added!"@
    }
}

/// Pick the notification title for the user-interface language.
pub fn notification_title(lang: &str) -> (r: String)
    ensures
        r@ == spec_notification_title(lang@),
{
    if str_eq(lang, "zh_CN") {
        String::from_str("Anime-Repository:新视频已经入库！")
    } else if str_eq(lang, "ja_JP") {
        String::from_str("Anime-Repository:新しい動画が追加されました！")
    } else {
        String::from_str("Anime-Repository:New video has been added!")
    }
}

} // verus!
