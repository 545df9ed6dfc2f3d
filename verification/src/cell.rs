//! The broadcast value cell: holds the latest snapshot from one producer and
//! lets any number of consumers read the current value or detect that a newer
//! one has been published since they last looked.
//!
//! Every write bumps a version counter. A consumer holds a `Subscriber`
//! cursor recording the last version it observed; polling against the cell
//! yields the current value exactly when it is newer than the cursor. The
//! blocking `read` of the running system is this poll wrapped in a wait: the
//! waiting itself is scheduling, not logic, and lives with the runtime.

use vstd::prelude::*;

verus! {

/// A shared latest-value holder. Consumers never see a torn value and never
/// see an older value after a newer one: the version orders all writes.
pub struct SingleQueue<T> {
    /// The snapshot most recently published.
    pub value: T,
    /// How many writes the cell has seen.
    pub version: u64,
}

/// One consumer's cursor into a [`SingleQueue`]: the version of the last
/// value it observed.
pub struct Subscriber {
    /// The version of the last value this cursor observed.
    pub seen: u64,
}

/// The cell after a write: the new value, one version later.
pub open spec fn written<T>(q: SingleQueue<T>, v: T) -> SingleQueue<T> {
    SingleQueue { value: v, version: (q.spec_version() + 1) as u64 }
}

/// What a poll against version `seen` returns: the current value when it is
/// newer, nothing otherwise.
pub open spec fn poll_result<T>(seen: u64, q: SingleQueue<T>) -> Option<T> {
    if q.spec_version() > seen {
        Some(q.spec_value())
    } else {
        None
    }
}

impl<T> SingleQueue<T> {
    /// The value most recently published.
    pub open spec fn spec_value(self) -> T {
        self.value
    }

    /// How many writes the cell has seen.
    pub open spec fn spec_version(self) -> u64 {
        self.version
    }

    /// A fresh cell seeded with an initial value, at version zero.
    pub fn new(data: T) -> (q: Self)
        ensures
            q.spec_value() == data,
            q.spec_version() == 0,
    {
        SingleQueue { value: data, version: 0 }
    }

    /// Publishes a new snapshot, superseding the previous one for every
    /// subscriber at once. Never blocks.
    pub fn write(&mut self, data: T)
        requires
            old(self).spec_version() < u64::MAX,
        ensures
            *final(self) == written(*old(self), data),
    {
        self.value = data;
        self.version = self.version + 1;
    }

    /// The latest published value, immediately.
    pub fn read_now(&self) -> (r: &T)
        ensures
            *r == self.spec_value(),
    {
        &self.value
    }

    /// The current version, for diagnostics and subscription.
    pub fn version(&self) -> (v: u64)
        ensures
            v == self.spec_version(),
    {
        self.version
    }

    /// A cursor that has observed the current value, so that it will only be
    /// woken by a strictly later publication.
    pub fn subscribe(&self) -> (s: Subscriber)
        ensures
            s.spec_seen() == self.spec_version(),
    {
        Subscriber { seen: self.version }
    }

    /// One consumer's check for news: the current value exactly when it is
    /// newer than what the cursor already observed, advancing the cursor to
    /// it; nothing (and an unmoved cursor) otherwise. A consumer that missed
    /// several writes jumps straight to the latest value.
    pub fn poll<'a>(&'a self, sub: &mut Subscriber) -> (r: Option<&'a T>)
        ensures
            (match r {
                Some(v) => *v == self.spec_value(),
                None => true,
            }),
            r is Some <==> poll_result(old(sub).spec_seen(), *self) is Some,
            r is Some ==> final(sub).spec_seen() == self.spec_version(),
            r is None ==> *final(sub) == *old(sub),
            final(sub).spec_seen() >= old(sub).spec_seen() || final(sub).spec_seen()
                == self.spec_version(),
    {
        if self.version > sub.seen {
            sub.seen = self.version;
            Some(&self.value)
        } else {
            None
        }
    }
}

impl Subscriber {
    /// The version of the last value this cursor observed.
    pub open spec fn spec_seen(self) -> u64 {
        self.seen
    }
}

/// Law: no missed update. If a writer publishes `v1` and then `v2`, a
/// consumer whose cursor already observed `v1` next receives `v2` (the
/// latest), never `v1` again, and never nothing.
pub proof fn lemma_no_missed_update<T>(q0: SingleQueue<T>, v1: T, v2: T)
    requires
        q0.spec_version() + 2 <= u64::MAX,
    ensures
        ({
            let q2 = written(written(q0, v1), v2);
            let seen = written(q0, v1).spec_version();
            poll_result(seen, q2) == Some(v2)
        }),
{
}

} // verus!
