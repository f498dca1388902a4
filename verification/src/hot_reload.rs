use vstd::prelude::*;

verus! {

/// A file modification time: the offset from the Unix epoch and its sign.
#[derive(Clone, Copy, Debug, PartialEq, Eq, Structural)]
pub struct FileStamp {
    /// Whether the time lies before the epoch.
    pub before_epoch: bool,
    pub secs: u64,
    pub nanos: u32,
}

/// The polling state of the watched configuration files, one entry per
/// configuration: `keys[i]` identifies the configuration of entry `i`.
#[derive(Debug)]
pub struct ConfigWatcher {
    /// The key of each watched configuration (one per configuration type).
    pub keys: Vec<u64>,
    /// The last modification time seen of each watched file, `None` when it
    /// could not be read.
    pub last_modified: Vec<Option<FileStamp>>,
    /// Minimum time between two polls, in nanoseconds.
    pub poll_interval: u128,
    /// Time of the last poll, in nanoseconds since the app started.
    pub last_poll: u128,
}

/// A watched file counts as changed when its time can be read now and
/// differs from the last one seen.
pub open spec fn file_changed(current: Option<FileStamp>, last: Option<FileStamp>) -> bool {
    current is Some && current != last
}

/// The modification time remembered after a poll.
pub open spec fn stamp_after_poll(current: Option<FileStamp>, last: Option<FileStamp>) -> Option<FileStamp> {
    if file_changed(current, last) {
        current
    } else {
        last
    }
}

/// No configuration key occurs twice.
pub open spec fn keys_distinct(keys: Seq<u64>) -> bool {
    forall|i: int, j: int| 0 <= i < j < keys.len() ==> keys[i] != keys[j]
}

/// Some entry is watched under `key`.
pub open spec fn is_watched(keys: Seq<u64>, key: u64) -> bool {
    exists|i: int| 0 <= i < keys.len() && keys[i] == key
}

impl ConfigWatcher {
    /// The entries line up: one modification time per key.
    pub open spec fn wf(&self) -> bool {
        self.keys@.len() == self.last_modified@.len()
    }

    /// A watcher with no files, polling at most every `poll_interval`
    /// nanoseconds.
    pub fn new(poll_interval: u128) -> (w: Self)
        ensures
            w.wf(),
            w.keys@.len() == 0,
            w.last_modified@.len() == 0,
            w.poll_interval == poll_interval,
            w.last_poll == 0,
    {
        ConfigWatcher { keys: Vec::new(), last_modified: Vec::new(), poll_interval, last_poll: 0 }
    }

    /// Watch the file of configuration `key`, whose current modification
    /// time is `stamp`; returns the entry's index. Watching a configuration
    /// again replaces its entry; a new configuration gets a new entry.
    pub fn watch(&mut self, key: u64, stamp: Option<FileStamp>) -> (index: usize)
        requires
            old(self).wf(),
            old(self).keys@.len() < usize::MAX,
        ensures
            final(self).wf(),
            final(self).poll_interval == old(self).poll_interval,
            final(self).last_poll == old(self).last_poll,
            index < final(self).keys@.len(),
            final(self).keys@[index as int] == key,
            final(self).last_modified@[index as int] == stamp,
            is_watched(old(self).keys@, key) ==> {
                &&& index < old(self).keys@.len()
                &&& old(self).keys@[index as int] == key
                &&& final(self).keys@ == old(self).keys@
                &&& final(self).last_modified@ == old(self).last_modified@.update(index as int, stamp)
            },
            !is_watched(old(self).keys@, key) ==> {
                &&& index == old(self).keys@.len()
                &&& final(self).keys@ == old(self).keys@.push(key)
                &&& final(self).last_modified@ == old(self).last_modified@.push(stamp)
            },
            keys_distinct(old(self).keys@) ==> keys_distinct(final(self).keys@),
    {
        let mut i: usize = 0;
        while i < self.keys.len()
            invariant
                i <= self.keys@.len(),
                forall|j: int| 0 <= j < i ==> self.keys@[j] != key,
                self.keys@ == old(self).keys@,
                self.last_modified@ == old(self).last_modified@,
                self.poll_interval == old(self).poll_interval,
                self.last_poll == old(self).last_poll,
                old(self).wf(),
                old(self).keys@.len() < usize::MAX,
            decreases self.keys.len() - i,
        {
            if self.keys[i] == key {
                self.last_modified.set(i, stamp);
                assert(is_watched(old(self).keys@, key));
                return i;
            }
            i = i + 1;
        }
        let index = self.keys.len();
        self.keys.push(key);
        self.last_modified.push(stamp);
        assert(!is_watched(old(self).keys@, key));
        index
    }

    /// Whether a poll is due at time `now`: at least one interval has passed
    /// since the last poll.
    pub fn poll_due(&self, now: u128) -> (due: bool)
        requires
            self.last_poll <= now,
        ensures
            due == (now - self.last_poll >= self.poll_interval),
    {
        now - self.last_poll >= self.poll_interval
    }

    /// Record a poll at time `now` that read the current modification times:
    /// remember the new times of the changed files and return their indices,
    /// in increasing order.
    pub fn record_poll(&mut self, now: u128, current: &Vec<Option<FileStamp>>) -> (changed: Vec<usize>)
        requires
            current@.len() == old(self).last_modified@.len(),
        ensures
            final(self).keys@ == old(self).keys@,
            final(self).last_poll == now,
            final(self).poll_interval == old(self).poll_interval,
            final(self).last_modified@.len() == old(self).last_modified@.len(),
            forall|i: int|
                0 <= i < current@.len() ==> #[trigger] final(self).last_modified@[i]
                    == stamp_after_poll(current@[i], old(self).last_modified@[i]),
            forall|k: int|
                0 <= k < changed@.len() ==> changed@[k] < current@.len() && file_changed(
                    current@[changed@[k] as int],
                    old(self).last_modified@[changed@[k] as int],
                ),
            forall|k: int, l: int| 0 <= k < l < changed@.len() ==> changed@[k] < changed@[l],
            forall|i: int|
                0 <= i < current@.len() && file_changed(current@[i], old(self).last_modified@[i])
                    ==> exists|k: int| 0 <= k < changed@.len() && changed@[k] == i,
    {
        self.last_poll = now;
        let mut changed: Vec<usize> = Vec::new();
        let ghost old_last = self.last_modified@;
        let mut i: usize = 0;
        while i < current.len()
            invariant
                current@.len() == old_last.len(),
                self.last_modified@.len() == old_last.len(),
                self.last_poll == now,
                self.keys@ == old(self).keys@,
                self.poll_interval == old(self).poll_interval,
                old_last == old(self).last_modified@,
                i <= current@.len(),
                forall|j: int|
                    0 <= j < i ==> #[trigger] self.last_modified@[j] == stamp_after_poll(
                        current@[j],
                        old_last[j],
                    ),
                forall|j: int| i <= j < old_last.len() ==> #[trigger] self.last_modified@[j] == old_last[j],
                forall|k: int|
                    0 <= k < changed@.len() ==> changed@[k] < i && file_changed(
                        current@[changed@[k] as int],
                        old_last[changed@[k] as int],
                    ),
                forall|k: int, l: int| 0 <= k < l < changed@.len() ==> changed@[k] < changed@[l],
                forall|j: int|
                    0 <= j < i && file_changed(current@[j], old_last[j]) ==> exists|k: int|
                        0 <= k < changed@.len() && changed@[k] == j,
            decreases current.len() - i,
        {
            let cur = current[i];
            let is_changed = match cur {
                Some(_) => cur != self.last_modified[i],
                None => false,
            };
            if is_changed {
                self.last_modified.set(i, cur);
                let ghost before = changed@;
                changed.push(i);
                assert forall|j: int|
                    0 <= j < i + 1 && file_changed(current@[j], old_last[j]) implies exists|k: int|
                    0 <= k < changed@.len() && changed@[k] == j by {
                    if j == i {
                        assert(changed@[before.len() as int] == j);
                    } else {
                        let k = choose|k: int| 0 <= k < before.len() && before[k] == j;
                        assert(changed@[k] == j);
                    }
                }
            }
            i = i + 1;
        }
        changed
    }
}

/// A file that cannot be read never counts as changed, nor does one whose
/// time is the one last seen; a readable time that differs from the last
/// one always counts, and it is the one remembered.
pub proof fn lemma_change_detection(current: Option<FileStamp>, last: Option<FileStamp>)
    ensures
        current is None ==> !file_changed(current, last) && stamp_after_poll(current, last) == last,
        current == last ==> !file_changed(current, last) && stamp_after_poll(current, last) == last,
        current is Some && current != last ==> file_changed(current, last) && stamp_after_poll(
            current,
            last,
        ) == current,
{
}

/// A second poll that reads the same modification times reports no change:
/// files are reloaded once per modification.
pub proof fn lemma_poll_idempotent(last: Seq<Option<FileStamp>>, current: Seq<Option<FileStamp>>)
    requires
        last.len() == current.len(),
    ensures
        forall|i: int|
            0 <= i < current.len() ==> !file_changed(
                #[trigger] current[i],
                stamp_after_poll(current[i], last[i]),
            ),
{
}

} // verus!
