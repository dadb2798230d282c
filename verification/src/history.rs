//! What the renderer remembers about the dmabufs that it has sampled from.

use vstd::prelude::*;

use crate::dmabuf::{Dmabuf, WeakDmabuf};
use crate::evidence::SampledDmabufWaylandLayoutHistory;

verus! {

/// What was last done with one buffer.
#[derive(Debug, Clone, Copy, PartialEq, Eq, Structural)]
pub struct SampledDmabufLayoutHistoryEntry {
    pub dmabuf: WeakDmabuf,
    pub history: SampledDmabufWaylandLayoutHistory,
}

/// What was last done with each buffer. A buffer that is not listed was never used.
#[derive(Debug)]
pub struct SampledDmabufLayoutHistories {
    entries: Vec<SampledDmabufLayoutHistoryEntry>,
}

impl View for SampledDmabufLayoutHistories {
    type V = Map<WeakDmabuf, SampledDmabufWaylandLayoutHistory>;

    closed spec fn view(&self) -> Map<WeakDmabuf, SampledDmabufWaylandLayoutHistory> {
        Self::listed(self.entries@)
    }
}

impl SampledDmabufLayoutHistories {
    spec fn lists(
        entries: Seq<SampledDmabufLayoutHistoryEntry>,
        i: int,
        dmabuf: WeakDmabuf,
    ) -> bool {
        0 <= i < entries.len() && entries[i].dmabuf == dmabuf
    }

    spec fn listed(entries: Seq<SampledDmabufLayoutHistoryEntry>) -> Map<
        WeakDmabuf,
        SampledDmabufWaylandLayoutHistory,
    > {
        Map::new(
            |dmabuf: WeakDmabuf| exists|i: int| Self::lists(entries, i, dmabuf),
            |dmabuf: WeakDmabuf| entries[choose|i: int| Self::lists(entries, i, dmabuf)].history,
        )
    }

    spec fn distinct(entries: Seq<SampledDmabufLayoutHistoryEntry>) -> bool {
        forall|i: int, j: int|
            0 <= i < j < entries.len() ==> (#[trigger] entries[i]).dmabuf != (
            #[trigger] entries[j]).dmabuf
    }

    /// No buffer is listed twice.
    pub closed spec fn well_formed(self) -> bool {
        Self::distinct(self.entries@)
    }

    /// What was last done with `dmabuf`.
    pub open spec fn of(self, dmabuf: WeakDmabuf) -> SampledDmabufWaylandLayoutHistory {
        if self@.dom().contains(dmabuf) {
            self@[dmabuf]
        } else {
            SampledDmabufWaylandLayoutHistory::NoRendererHistory
        }
    }

    /// `dmabuf` is one of those that are still alive.
    pub open spec fn alive(dmabuf: WeakDmabuf, live: Seq<u64>) -> bool {
        live.contains(dmabuf.identity)
    }

    proof fn lemma_entry_is_listed(entries: Seq<SampledDmabufLayoutHistoryEntry>, i: int)
        requires
            Self::distinct(entries),
            0 <= i < entries.len(),
        ensures
            Self::listed(entries).dom().contains(entries[i].dmabuf),
            Self::listed(entries)[entries[i].dmabuf] == entries[i].history,
    {
        assert(Self::lists(entries, i, entries[i].dmabuf));
        let k = choose|k: int| Self::lists(entries, k, entries[i].dmabuf);
        assert(k == i);
    }

    /// Nothing was done with any buffer.
    pub fn new() -> (r: Self)
        ensures
            r.well_formed(),
            r@ == Map::<WeakDmabuf, SampledDmabufWaylandLayoutHistory>::empty(),
    {
        let r = SampledDmabufLayoutHistories { entries: Vec::new() };
        assert(r@ =~= Map::<WeakDmabuf, SampledDmabufWaylandLayoutHistory>::empty()) by {
            assert forall|dmabuf: WeakDmabuf| !r@.dom().contains(dmabuf) by {
                assert(forall|i: int| !Self::lists(r.entries@, i, dmabuf));
            }
        }
        r
    }

    /// How many buffers are listed.
    pub fn len(&self) -> (r: usize)
        requires
            self.well_formed(),
        ensures
            self@.dom().finite(),
            r == self@.dom().len(),
    {
        proof {
            Self::lemma_size(self.entries@);
        }
        self.entries.len()
    }

    proof fn lemma_size(entries: Seq<SampledDmabufLayoutHistoryEntry>)
        requires
            Self::distinct(entries),
        ensures
            Self::listed(entries).dom().finite(),
            Self::listed(entries).dom().len() == entries.len(),
        decreases entries.len(),
    {
        let all = Self::listed(entries).dom();
        if entries.len() == 0 {
            assert forall|dmabuf: WeakDmabuf| !all.contains(dmabuf) by {
                assert(forall|i: int| !Self::lists(entries, i, dmabuf));
            }
            assert(all =~= Set::empty());
        } else {
            let rest = entries.drop_last();
            Self::lemma_size(rest);
            let fewer = Self::listed(rest).dom();
            assert(!fewer.contains(entries.last().dmabuf)) by {
                assert(forall|i: int| !Self::lists(rest, i, entries.last().dmabuf));
            }
            assert forall|dmabuf: WeakDmabuf|
                all.contains(dmabuf) <==> fewer.insert(entries.last().dmabuf).contains(dmabuf) by {
                if all.contains(dmabuf) {
                    let i = choose|i: int| Self::lists(entries, i, dmabuf);
                    if i < rest.len() {
                        assert(Self::lists(rest, i, dmabuf));
                    }
                }
                if fewer.contains(dmabuf) {
                    let i = choose|i: int| Self::lists(rest, i, dmabuf);
                    assert(Self::lists(entries, i, dmabuf));
                }
                assert(Self::lists(entries, entries.len() - 1, entries.last().dmabuf));
            }
            assert(all =~= fewer.insert(entries.last().dmabuf));
        }
    }

    fn position(&self, dmabuf: WeakDmabuf) -> (r: Option<usize>)
        requires
            self.well_formed(),
        ensures
            match r {
                Some(i) => i < self.entries@.len() && self.entries@[i as int].dmabuf == dmabuf
                    && self@.dom().contains(dmabuf) && self@[dmabuf]
                    == self.entries@[i as int].history,
                None => !self@.dom().contains(dmabuf) && forall|i: int|
                    0 <= i < self.entries@.len() ==> (#[trigger] self.entries@[i]).dmabuf != dmabuf,
            },
    {
        let mut i: usize = 0;
        while i < self.entries.len()
            invariant
                self.well_formed(),
                i <= self.entries@.len(),
                forall|j: int| 0 <= j < i ==> (#[trigger] self.entries@[j]).dmabuf != dmabuf,
            decreases self.entries.len() - i,
        {
            if self.entries[i].dmabuf == dmabuf {
                proof {
                    Self::lemma_entry_is_listed(self.entries@, i as int);
                }
                return Some(i);
            }
            i = i + 1;
        }
        assert(forall|j: int| !Self::lists(self.entries@, j, dmabuf));
        None
    }

    /// What was last done with `dmabuf`.
    pub fn get(&self, dmabuf: &Dmabuf) -> (r: SampledDmabufWaylandLayoutHistory)
        requires
            self.well_formed(),
        ensures
            r == self.of(dmabuf.weak_spec()),
    {
        match self.position(dmabuf.weak()) {
            Some(i) => self.entries[i].history,
            None => SampledDmabufWaylandLayoutHistory::NoRendererHistory,
        }
    }

    /// Remembers that `history` is what was last done with `dmabuf`.
    pub fn record(&mut self, dmabuf: WeakDmabuf, history: SampledDmabufWaylandLayoutHistory)
        requires
            old(self).well_formed(),
        ensures
            final(self).well_formed(),
            final(self)@ == old(self)@.insert(dmabuf, history),
    {
        let ghost before = self.entries@;
        let entry = SampledDmabufLayoutHistoryEntry { dmabuf, history };
        let ghost place: int;
        match self.position(dmabuf) {
            Some(i) => {
                self.entries.set(i, entry);
                proof {
                    place = i as int;
                }
            },
            None => {
                self.entries.push(entry);
                proof {
                    place = before.len() as int;
                }
            },
        }
        proof {
            let after = self.entries@;
            assert(Self::distinct(after));
            assert forall|other: WeakDmabuf|
                Self::listed(after).dom().contains(other) == Self::listed(before).insert(
                    dmabuf,
                    history,
                ).dom().contains(other) by {
                if Self::listed(before).dom().contains(other) {
                    let i = choose|i: int| Self::lists(before, i, other);
                    assert(Self::lists(after, i, other));
                }
                if Self::listed(after).dom().contains(other) && other != dmabuf {
                    let i = choose|i: int| Self::lists(after, i, other);
                    assert(Self::lists(before, i, other));
                }
                Self::lemma_entry_is_listed(after, place);
            }
            assert forall|other: WeakDmabuf| Self::listed(after).dom().contains(other) implies (
            #[trigger] Self::listed(after)[other]) == Self::listed(before).insert(
                dmabuf,
                history,
            )[other] by {
                if other == dmabuf {
                    Self::lemma_entry_is_listed(after, place);
                } else {
                    let i = choose|i: int| Self::lists(after, i, other);
                    assert(before[i] == after[i]);
                    Self::lemma_entry_is_listed(after, i);
                    Self::lemma_entry_is_listed(before, i);
                }
            }
            assert(self@ =~= old(self)@.insert(dmabuf, history));
        }
    }

    /// Forgets the buffers that are not among `live`.
    pub fn prune(&mut self, live: &[u64])
        requires
            old(self).well_formed(),
        ensures
            final(self).well_formed(),
            final(self)@ == old(self)@.restrict(
                Set::new(|dmabuf: WeakDmabuf| Self::alive(dmabuf, live@)),
            ),
    {
        let mut kept: Vec<SampledDmabufLayoutHistoryEntry> = Vec::new();
        let ghost mut from: Seq<int> = Seq::empty();
        let mut i: usize = 0;
        while i < self.entries.len()
            invariant
                self.well_formed(),
                i <= self.entries@.len(),
                from.len() == kept@.len(),
                forall|k: int|
                    0 <= k < kept@.len() ==> 0 <= #[trigger] from[k] < i && kept@[k]
                        == self.entries@[from[k]],
                forall|k: int, l: int| 0 <= k < l < from.len() ==> #[trigger] from[k] < #[trigger] from[l],
                forall|k: int|
                    0 <= k < kept@.len() ==> Self::alive((#[trigger] kept@[k]).dmabuf, live@),
                forall|j: int|
                    0 <= j < i && Self::alive((#[trigger] self.entries@[j]).dmabuf, live@)
                        ==> kept@.contains(self.entries@[j]),
            decreases self.entries.len() - i,
        {
            let entry = self.entries[i];
            let ghost kept_before = kept@;
            if is_live(entry.dmabuf, live) {
                kept.push(entry);
                proof {
                    from = from.push(i as int);
                }
                assert(kept@[kept_before.len() as int] == entry);
            }
            assert forall|j: int|
                0 <= j < i + 1 && Self::alive((#[trigger] self.entries@[j]).dmabuf, live@)
                    implies kept@.contains(self.entries@[j]) by {
                if j < i {
                    let k = choose|k: int|
                        0 <= k < kept_before.len() && kept_before[k] == self.entries@[j];
                    assert(kept@[k] == self.entries@[j]);
                }
            }
            i = i + 1;
        }
        proof {
            let before = self.entries@;
            let after = kept@;
            assert(Self::distinct(after)) by {
                assert forall|k: int, l: int| 0 <= k < l < after.len() implies (
                #[trigger] after[k]).dmabuf != (#[trigger] after[l]).dmabuf by {
                    assert(from[k] < from[l]);
                }
            }
            let keep = Set::new(|dmabuf: WeakDmabuf| Self::alive(dmabuf, live@));
            let expected = Self::listed(before).restrict(keep);
            assert forall|other: WeakDmabuf|
                Self::listed(after).dom().contains(other) == expected.dom().contains(other) by {
                if Self::listed(after).dom().contains(other) {
                    let k = choose|k: int| Self::lists(after, k, other);
                    assert(Self::lists(before, from[k], other));
                }
                if expected.dom().contains(other) {
                    let j = choose|j: int| Self::lists(before, j, other);
                    assert(after.contains(before[j]));
                    let k = choose|k: int| 0 <= k < after.len() && after[k] == before[j];
                    assert(Self::lists(after, k, other));
                }
            }
            assert forall|other: WeakDmabuf| Self::listed(after).dom().contains(other) implies (
            #[trigger] Self::listed(after)[other]) == expected[other] by {
                let k = choose|k: int| Self::lists(after, k, other);
                Self::lemma_entry_is_listed(after, k);
                Self::lemma_entry_is_listed(before, from[k]);
            }
            assert(Self::listed(after) =~= expected);
        }
        self.entries = kept;
    }
}

fn is_live(dmabuf: WeakDmabuf, live: &[u64]) -> (r: bool)
    ensures
        r == SampledDmabufLayoutHistories::alive(dmabuf, live@),
{
    let mut i: usize = 0;
    while i < live.len()
        invariant
            i <= live@.len(),
            forall|j: int| 0 <= j < i ==> #[trigger] live@[j] != dmabuf.identity,
        decreases live.len() - i,
    {
        if live[i] == dmabuf.identity {
            assert(live@[i as int] == dmabuf.identity);
            return true;
        }
        i = i + 1;
    }
    false
}

/// What is recorded about a buffer is read back for it, and for every other buffer what was read
/// before is read still.
pub proof fn law_recorded_histories_are_read_back(
    histories: &mut SampledDmabufLayoutHistories,
    recorded: WeakDmabuf,
    history: SampledDmabufWaylandLayoutHistory,
    dmabuf: Dmabuf,
    before: SampledDmabufWaylandLayoutHistory,
    after: SampledDmabufWaylandLayoutHistory,
)
    requires
        call_ensures(
            SampledDmabufLayoutHistories::get,
            (old(histories), &dmabuf),
            before,
        ),
        call_ensures(SampledDmabufLayoutHistories::record, (histories, recorded, history), ()),
        call_ensures(
            SampledDmabufLayoutHistories::get,
            (final(histories), &dmabuf),
            after,
        ),
    ensures
        after == if dmabuf.identity == recorded.identity {
            history
        } else {
            before
        },
{
}

/// Forgetting keeps what is known about the buffers that are alive, and nothing about any other; at
/// first nothing is known about any buffer.
pub proof fn law_histories_of_live_buffers_are_kept(
    first: SampledDmabufLayoutHistories,
    histories: &mut SampledDmabufLayoutHistories,
    live: &[u64],
    dmabuf: Dmabuf,
    nothing: SampledDmabufWaylandLayoutHistory,
    before: SampledDmabufWaylandLayoutHistory,
    after: SampledDmabufWaylandLayoutHistory,
    count: usize,
)
    requires
        call_ensures(SampledDmabufLayoutHistories::new, (), first),
        call_ensures(SampledDmabufLayoutHistories::get, (&first, &dmabuf), nothing),
        call_ensures(SampledDmabufLayoutHistories::len, (&first,), count),
        call_ensures(
            SampledDmabufLayoutHistories::get,
            (old(histories), &dmabuf),
            before,
        ),
        call_ensures(SampledDmabufLayoutHistories::prune, (histories, live), ()),
        call_ensures(
            SampledDmabufLayoutHistories::get,
            (final(histories), &dmabuf),
            after,
        ),
    ensures
        nothing is NoRendererHistory,
        count == 0,
        live@.contains(dmabuf.identity) ==> after == before,
        !live@.contains(dmabuf.identity) ==> after is NoRendererHistory,
{
}

/// Recording about a buffer lists it once: it is one more listed buffer if it was not listed, and
/// none otherwise.
pub proof fn law_buffers_are_listed_once(
    histories: &mut SampledDmabufLayoutHistories,
    recorded: WeakDmabuf,
    history: SampledDmabufWaylandLayoutHistory,
    before: usize,
    after: usize,
)
    requires
        call_ensures(SampledDmabufLayoutHistories::len, (old(histories),), before),
        call_ensures(SampledDmabufLayoutHistories::record, (histories, recorded, history), ()),
        call_ensures(SampledDmabufLayoutHistories::len, (final(histories),), after),
    ensures
        after == if old(histories)@.contains_key(recorded) {
            before as int
        } else {
            before + 1
        },
{
    if old(histories)@.contains_key(recorded) {
        assert(final(histories)@.dom() =~= old(histories)@.dom());
    } else {
        assert(final(histories)@.dom() =~= old(histories)@.dom().insert(recorded));
    }
}

} // verus!
