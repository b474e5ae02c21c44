//! The bounded combat log: a strict FIFO of event strings.

use std::collections::VecDeque;

use vstd::prelude::*;
use vstd::string::StrSliceExecFns;

verus! {

/// `needle` occurs as a contiguous run of characters inside `hay`.
pub open spec fn seq_contains_sub(hay: Seq<char>, needle: Seq<char>) -> bool {
    exists|i: int|
        0 <= i && i + needle.len() <= hay.len() && #[trigger] hay.subrange(
            i,
            i + needle.len(),
        ) == needle
}

/// What one append does to the log's entries: the message goes to the back,
/// and if the log then exceeds its capacity the oldest entry is evicted.
pub open spec fn log_add(entries: Seq<Seq<char>>, capacity: nat, message: Seq<char>) -> Seq<Seq<char>> {
    let grown = entries.push(message);
    if grown.len() > capacity {
        grown.drop_first()
    } else {
        grown
    }
}

/// Law: the log is bounded — once the entries fit the capacity, one append
/// keeps them fitting it — and strictly first-in-first-out: the appended
/// message is always the newest entry, and the retained older entries keep
/// their order, as a suffix of the prior contents.
pub proof fn lemma_log_add_bounded_fifo(entries: Seq<Seq<char>>, capacity: nat, message: Seq<char>)
    requires
        1 <= capacity,
        entries.len() <= capacity,
    ensures
        log_add(entries, capacity, message).len() <= capacity,
        log_add(entries, capacity, message).last() == message,
        log_add(entries, capacity, message).drop_last() == if entries.len() < capacity {
            entries
        } else {
            entries.drop_first()
        },
{
    let grown = entries.push(message);
    assert(grown.last() == message);
    if grown.len() > capacity {
        assert(grown.drop_first().last() == message);
        assert(grown.drop_first().drop_last() =~= entries.drop_first());
    } else {
        assert(grown.drop_last() =~= entries);
    }
}

/// A bounded first-in-first-out log of human-readable event strings.  The
/// turn machine appends; presentation layers only read.  Once the length
/// would exceed `max_events`, the oldest entry is dropped — no deduplication,
/// no priorities.
#[derive(Debug)]
pub struct CombatLog {
    /// The retained entries, oldest first.
    pub events: VecDeque<String>,
    /// The capacity: how many entries are retained.
    pub max_events: usize,
}

impl View for CombatLog {
    type V = Seq<Seq<char>>;

    /// The entries as character sequences, oldest first.
    open spec fn view(&self) -> Seq<Seq<char>> {
        self.events@.map_values(|s: String| s@)
    }
}

impl CombatLog {
    /// An empty log that will retain at most `max_events` entries.
    pub fn new(max_events: usize) -> (log: CombatLog)
        ensures
            log@ == Seq::<Seq<char>>::empty(),
            log.max_events == max_events,
    {
        let log = CombatLog { events: VecDeque::new(), max_events };
        proof {
            assert(log@ =~= Seq::<Seq<char>>::empty());
        }
        log
    }

    /// Appends `message`, evicting the oldest entry if the log would
    /// otherwise exceed its capacity.
    pub fn add(&mut self, message: String)
        ensures
            final(self)@ == log_add(old(self)@, old(self).max_events as nat, message@),
            final(self).max_events == old(self).max_events,
    {
        let ghost prior = self@;
        self.events.push_back(message);
        proof {
            assert(self@ =~= prior.push(message@));
        }
        if self.events.len() > self.max_events {
            let ghost grown = self@;
            self.events.pop_front();
            proof {
                assert(self@ =~= grown.drop_first());
            }
        }
    }

    /// The number of retained entries.
    pub fn len(&self) -> (n: usize)
        ensures
            n == self@.len(),
    {
        self.events.len()
    }

    /// The most recent `count` entries (all of them if fewer), oldest first.
    pub fn get_recent(&self, count: usize) -> (recent: Vec<String>)
        ensures
            recent.deep_view() == self@.skip(
                if count < self@.len() {
                    self@.len() - count
                } else {
                    0
                },
            ),
    {
        let len = self.events.len();
        let start = if count < len {
            len - count
        } else {
            0
        };
        let mut recent: Vec<String> = Vec::new();
        let mut i = start;
        while i < len
            invariant
                start <= i <= len,
                len == self@.len(),
                recent.deep_view() =~~= self@.subrange(start as int, i as int),
            decreases len - i,
        {
            let ghost before = recent.deep_view();
            let entry = self.events[i].clone();
            proof {
                assert(entry@ == self.events@[i as int]@);
                assert(entry@ == self@[i as int]);
            }
            recent.push(entry);
            proof {
                assert(recent.deep_view().len() == before.len() + 1);
                assert(forall|q: int|
                    0 <= q < before.len() ==> recent.deep_view()[q] == before[q]);
                assert(recent.deep_view()[before.len() as int] == self@[i as int]);
                assert(recent.deep_view() =~~= self@.subrange(start as int, i as int + 1));
            }
            i = i + 1;
        }
        proof {
            assert(recent.deep_view() =~~= self@.skip(start as int));
        }
        recent
    }

    /// Whether any retained entry contains `text` as a substring.
    pub fn contains(&self, text: &str) -> (found: bool)
        ensures
            found == exists|k: int|
                0 <= k < self@.len() && seq_contains_sub(#[trigger] self@[k], text@),
    {
        let len = self.events.len();
        let mut k: usize = 0;
        while k < len
            invariant
                0 <= k <= len,
                len == self@.len(),
                forall|j: int| 0 <= j < k ==> !seq_contains_sub(#[trigger] self@[j], text@),
            decreases len - k,
        {
            if str_contains_sub(self.events[k].as_str(), text) {
                proof {
                    assert(seq_contains_sub(self@[k as int], text@));
                }
                return true;
            }
            k = k + 1;
        }
        false
    }
}

/// Whether `needle` occurs as a substring of `hay`, by direct scan.
pub fn str_contains_sub(hay: &str, needle: &str) -> (found: bool)
    ensures
        found == seq_contains_sub(hay@, needle@),
{
    let hay_len = hay.unicode_len();
    let needle_len = needle.unicode_len();
    if needle_len > hay_len {
        return false;
    }
    if needle_len == 0 {
        proof {
            assert(hay@.subrange(0, 0 + needle@.len() as int) =~= needle@);
        }
        return true;
    }
    let mut start: usize = 0;
    while start <= hay_len - needle_len
        invariant
            hay_len == hay@.len(),
            needle_len == needle@.len(),
            1 <= needle_len <= hay_len,
            0 <= start <= hay_len - needle_len + 1,
            forall|i: int|
                0 <= i < start ==> #[trigger] hay@.subrange(i, i + needle@.len()) != needle@,
        decreases hay_len - start,
    {
        let mut j: usize = 0;
        let mut matched = true;
        while j < needle_len
            invariant
                hay_len == hay@.len(),
                needle_len == needle@.len(),
                0 <= j <= needle_len,
                start + needle_len <= hay_len,
                matched ==> forall|p: int| 0 <= p < j ==> hay@[start + p] == needle@[p],
                !matched ==> hay@.subrange(start as int, start + needle@.len()) != needle@,
            decreases needle_len - j,
        {
            if hay.get_char(start + j) != needle.get_char(j) {
                proof {
                    let full = hay@.subrange(start as int, start + needle@.len());
                    assert(full[j as int] == hay@[start + j]);
                }
                matched = false;
                j = needle_len;
            } else {
                j = j + 1;
            }
        }
        if matched {
            proof {
                assert(hay@.subrange(start as int, start + needle@.len()) =~= needle@);
            }
            return true;
        }
        start = start + 1;
    }
    proof {
        assert forall|i: int| 0 <= i && i + needle@.len() <= hay@.len() implies #[trigger] hay@
            .subrange(i, i + needle@.len()) != needle@ by {
            assert(i < start);
        }
    }
    false
}

} // verus!
