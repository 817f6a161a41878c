//! The bounded list of time-stamped messages shown to the user.

use crate::outside::{is_clock_text, local_time_text, CLOCK_PATTERN};
use vstd::prelude::*;

verus! {

/// How many entries the panel keeps.
pub const LOG_LIMIT: usize = 100;

/// An entry: the time in square brackets, a space, the message.
pub open spec fn log_entry(stamp: Seq<char>, message: Seq<char>) -> Seq<char> {
    seq!['['] + stamp + seq![']', ' '] + message
}

/// The entries after one more is added: it goes to the end, and if that makes
/// more than the limit the oldest entry leaves.
pub open spec fn log_after(log: Seq<Seq<char>>, entry: Seq<char>) -> Seq<Seq<char>> {
    let grown = log.push(entry);
    if grown.len() > LOG_LIMIT {
        grown.drop_first()
    } else {
        grown
    }
}

/// `after` is `before` with `message` added under some time of day.
pub open spec fn logged(before: Seq<Seq<char>>, after: Seq<Seq<char>>, message: Seq<char>) -> bool {
    exists|stamp: Seq<char>|
        is_clock_text(stamp) && after == log_after(before, #[trigger] log_entry(stamp, message))
}

/// `after` is `before` with `first` and then `second` added, each under some
/// time stamp.
pub open spec fn logged_both(
    before: Seq<Seq<char>>,
    after: Seq<Seq<char>>,
    first: Seq<char>,
    second: Seq<char>,
) -> bool {
    exists|between: Seq<Seq<char>>| #[trigger]
        logged(before, between, first) && logged(between, after, second)
}

/// The messages of a session, oldest first, never more than `LOG_LIMIT`.
#[derive(Debug)]
pub struct LogPanel {
    entries: Vec<String>,
}

impl View for LogPanel {
    type V = Seq<Seq<char>>;

    closed spec fn view(&self) -> Seq<Seq<char>> {
        self.entries@.map_values(|s: String| s@)
    }
}

impl LogPanel {
    #[verifier::type_invariant]
    spec fn within_limit(self) -> bool {
        self.entries@.len() <= LOG_LIMIT
    }

    /// An empty panel.
    pub fn new() -> (r: LogPanel)
        ensures
            r@ == Seq::<Seq<char>>::empty(),
    {
        let r = LogPanel { entries: Vec::new() };
        assert(r@ =~= Seq::<Seq<char>>::empty());
        r
    }

    /// The number of entries.
    pub fn len(&self) -> (r: usize)
        ensures
            r == self@.len(),
            r <= LOG_LIMIT,
    {
        proof {
            use_type_invariant(self);
        }
        self.entries.len()
    }

    /// Entry `i`, counted from the oldest.
    pub fn entry(&self, i: usize) -> (r: &str)
        requires
            i < self@.len(),
        ensures
            r@ == self@[i as int],
    {
        self.entries[i].as_str()
    }

    /// Adds `message` under the time stamp `stamp`.
    pub fn record(&mut self, stamp: &str, message: &str)
        ensures
            final(self)@ == log_after(old(self)@, log_entry(stamp@, message@)),
            final(self)@.len() <= LOG_LIMIT,
    {
        proof {
            use_type_invariant(&*self);
            reveal_strlit("[");
            reveal_strlit("] ");
        }
        let mut entry = String::from_str("[");
        entry.append(stamp);
        entry.append("] ");
        entry.append(message);
        assert(entry@ =~= log_entry(stamp@, message@));
        let mut taken = LogPanel { entries: Vec::new() };
        core::mem::swap(self, &mut taken);
        let mut entries = taken.entries;
        let ghost before = entries@;
        entries.push(entry);
        assert(entries@.map_values(|s: String| s@) =~= before.map_values(|s: String| s@).push(
            entry@,
        ));
        if entries.len() > LOG_LIMIT {
            let ghost grown = entries@;
            entries.remove(0);
            assert(entries@.map_values(|s: String| s@) =~= grown.map_values(|s: String| s@).drop_first());
        }
        *self = LogPanel { entries };
    }

    /// Adds `message` under the current local time of day.
    pub fn add_log(&mut self, message: &str)
        ensures
            logged(old(self)@, final(self)@, message@),
            final(self)@.len() <= LOG_LIMIT,
    {
        let stamp = local_time_text(CLOCK_PATTERN);
        self.record(stamp.as_str(), message);
        assert(is_clock_text(stamp@) && final(self)@ == log_after(
            old(self)@,
            log_entry(stamp@, message@),
        ));
    }
}

} // verus!
