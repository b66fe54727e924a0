//! Recording State: a single-writer boolean cell with versioned,
//! last-value-wins updates, and the observer that turns version advances into
//! change notifications for the accumulator.

use vstd::prelude::*;

verus! {

/// The "is recording" cell. Every write bumps the version, even a write of
/// the value already held, so a late reader can always tell that something
/// was written since it last looked.
pub struct RecordingFlag {
    value: bool,
    version: u64,
}

impl RecordingFlag {
    /// The boolean the cell currently holds.
    pub closed spec fn value(self) -> bool {
        self.value
    }

    /// How many writes the cell has seen.
    pub closed spec fn version(self) -> nat {
        self.version as nat
    }

    /// A fresh cell: not recording, no writes yet.
    pub fn new() -> (r: RecordingFlag)
        ensures
            !r.value(),
            r.version() == 0,
    {
        RecordingFlag { value: false, version: 0 }
    }

    /// Writes the cell (last value wins) and bumps the version, also when
    /// `value` equals what the cell already held.
    pub fn set(&mut self, value: bool)
        requires
            old(self).version() < u64::MAX,
        ensures
            final(self).value() == value,
            final(self).version() == old(self).version() + 1,
    {
        self.value = value;
        self.version = self.version + 1;
    }

    /// Starts a recording session: writes `true`.
    pub fn begin(&mut self)
        requires
            old(self).version() < u64::MAX,
        ensures
            final(self).value(),
            final(self).version() == old(self).version() + 1,
    {
        self.set(true);
    }

    /// Ends a recording session: writes `false`.
    pub fn end(&mut self)
        requires
            old(self).version() < u64::MAX,
        ensures
            !final(self).value(),
            final(self).version() == old(self).version() + 1,
    {
        self.set(false);
    }

    /// Reads the current value without consuming any notification.
    pub fn get(&self) -> (v: bool)
        ensures
            v == self.value(),
    {
        self.value
    }

    /// How many writes the cell has seen, for callers that must keep the
    /// version counter in range.
    pub fn write_count(&self) -> (n: u64)
        ensures
            n == self.version(),
    {
        self.version
    }
}

/// One reader of a [`RecordingFlag`]. It remembers the version it caught up
/// to and the last logical value it reported, so that a change is reported
/// exactly when the cell was written since the last look *and* the value
/// differs from what this reader last observed — a rewrite of the same value
/// is not synthesized into a duplicate event.
pub struct FlagObserver {
    seen_version: u64,
    seen_value: bool,
}

impl FlagObserver {
    /// The version this observer has caught up to.
    pub closed spec fn seen_version(self) -> nat {
        self.seen_version as nat
    }

    /// The last value this observer reported (initially `false`).
    pub closed spec fn seen_value(self) -> bool {
        self.seen_value
    }

    /// A fresh observer, caught up to a fresh cell: it has logically
    /// observed `false` at version zero.
    pub fn new() -> (r: FlagObserver)
        ensures
            r.seen_version() == 0,
            !r.seen_value(),
    {
        FlagObserver { seen_version: 0, seen_value: false }
    }

    /// Looks at the cell and reports `Some(new value)` exactly when the cell
    /// was written since the last look and its value differs from the value
    /// this observer last observed; otherwise reports `None`. Either way the
    /// observer is caught up to the cell's version afterwards.
    pub fn observe(&mut self, flag: &RecordingFlag) -> (r: Option<bool>)
        ensures
            flag.version() <= old(self).seen_version() ==> r is None
                && *final(self) == *old(self),
            flag.version() > old(self).seen_version() ==> {
                &&& final(self).seen_version() == flag.version()
                &&& (flag.value() == old(self).seen_value() ==> r is None
                    && final(self).seen_value() == old(self).seen_value())
                &&& (flag.value() != old(self).seen_value() ==> r == Some(flag.value())
                    && final(self).seen_value() == flag.value())
            },
    {
        if flag.version > self.seen_version {
            self.seen_version = flag.version;
            if flag.value != self.seen_value {
                self.seen_value = flag.value;
                Some(flag.value)
            } else {
                None
            }
        } else {
            None
        }
    }
}

} // verus!
