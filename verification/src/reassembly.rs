//! Write side of a transfer: puts numbered chunks back in their order.
//!
//! Chunks reach the write side in whatever order their sends complete. The
//! reassembler holds back those that arrive ahead of their turn and releases
//! each chunk only when every chunk before it has been released.

use std::collections::HashMap;
use vstd::prelude::*;

verus! {

broadcast use vstd::std_specs::hash::group_hash_axioms;

/// Every sequence number from `from` up to, not including, `to` is held.
pub open spec fn contiguous(pending: Map<nat, Seq<u8>>, from: nat, to: nat) -> bool {
    forall|k: nat| from <= k < to ==> pending.contains_key(k)
}

/// `gap` is the first sequence number at or after `from` that is not held.
pub open spec fn is_first_gap(pending: Map<nat, Seq<u8>>, from: nat, gap: nat) -> bool {
    &&& from <= gap
    &&& contiguous(pending, from, gap)
    &&& !pending.contains_key(gap)
}

/// The first sequence number at or after `from` that is not held.
pub open spec fn first_gap(pending: Map<nat, Seq<u8>>, from: nat) -> nat {
    choose|gap: nat| is_first_gap(pending, from, gap)
}

/// The held payloads numbered `from` up to, not including, `to`, in order.
pub open spec fn run_of(pending: Map<nat, Seq<u8>>, from: nat, to: nat) -> Seq<Seq<u8>> {
    Seq::new((to - from) as nat, |i: int| pending[(from + i) as nat])
}

/// What is still held once the numbers `from` up to, not including, `to` left.
pub open spec fn without_run(pending: Map<nat, Seq<u8>>, from: nat, to: nat) -> Map<
    nat,
    Seq<u8>,
> {
    Map::new(
        |k: nat| pending.contains_key(k) && !(from <= k < to),
        |k: nat| pending[k],
    )
}

/// There is at most one first gap.
pub proof fn lemma_first_gap_unique(pending: Map<nat, Seq<u8>>, from: nat, gap: nat)
    requires
        is_first_gap(pending, from, gap),
    ensures
        first_gap(pending, from) == gap,
{
    let other = first_gap(pending, from);
    assert(is_first_gap(pending, from, other));
    if other < gap {
        assert(pending.contains_key(other));
    }
    if gap < other {
        assert(pending.contains_key(gap));
    }
}

/// The write side in mathematical terms.
pub struct ReassemblyState {
    /// Sequence number of the next chunk to release.
    pub next_expected: nat,
    /// Chunks that arrived ahead of their turn, by sequence number.
    pub pending: Map<nat, Seq<u8>>,
}

impl ReassemblyState {
    /// Nothing received, chunk 0 expected.
    pub open spec fn initial() -> ReassemblyState {
        ReassemblyState { next_expected: 0, pending: Map::empty() }
    }

    /// One arrival: the chunk is held, then the held chunks from
    /// `next_expected` up to the first missing number are released in order.
    /// Gives the state afterwards and the released payloads.
    pub open spec fn accept(self, sequence: nat, payload: Seq<u8>) -> (
        ReassemblyState,
        Seq<Seq<u8>>,
    ) {
        let held = self.pending.insert(sequence, payload);
        let gap = first_gap(held, self.next_expected);
        (
            ReassemblyState {
                next_expected: gap,
                pending: without_run(held, self.next_expected, gap),
            },
            run_of(held, self.next_expected, gap),
        )
    }

    /// An arrival while the sink is stopped is dropped: nothing is held,
    /// nothing released.
    pub open spec fn accept_unless(self, stopped: bool, sequence: nat, payload: Seq<u8>) -> (
        ReassemblyState,
        Seq<Seq<u8>>,
    ) {
        if stopped {
            (self, Seq::empty())
        } else {
            self.accept(sequence, payload)
        }
    }

    /// A whole series of arrivals, oldest first. Gives the state afterwards
    /// and everything released, in the order of release.
    pub open spec fn feed(self, arrivals: Seq<(nat, Seq<u8>)>) -> (ReassemblyState, Seq<Seq<u8>>)
        decreases arrivals.len(),
    {
        if arrivals.len() == 0 {
            (self, Seq::empty())
        } else {
            let before = self.feed(arrivals.drop_last());
            let last = before.0.accept(arrivals.last().0, arrivals.last().1);
            (last.0, before.1 + last.1)
        }
    }
}

/// The payloads of `chunks` as mathematical sequences.
pub open spec fn payloads(chunks: Seq<Vec<u8>>) -> Seq<Seq<u8>> {
    chunks.map_values(|chunk: Vec<u8>| chunk@)
}

/// Receives `(sequence, payload)` pairs in any order and releases the
/// payloads in ascending sequence order, without gaps.
pub struct OrderedReassembler {
    next_expected: usize,
    pending: HashMap<usize, Vec<u8>>,
}

/// The held chunks of the executable map, keyed by natural numbers.
spec fn held_chunks(pending: Map<usize, Vec<u8>>) -> Map<nat, Seq<u8>> {
    Map::new(
        |k: nat| k <= usize::MAX && pending.contains_key(k as usize),
        |k: nat| pending[k as usize]@,
    )
}

impl View for OrderedReassembler {
    type V = ReassemblyState;

    closed spec fn view(&self) -> ReassemblyState {
        ReassemblyState {
            next_expected: self.next_expected as nat,
            pending: held_chunks(self.pending@),
        }
    }
}

impl OrderedReassembler {
    /// Every held sequence number has a successor that the machine can
    /// count to. [`OrderedReassembler::new`] establishes this and every
    /// method keeps it.
    pub closed spec fn wf(&self) -> bool {
        forall|k: usize| self.pending@.contains_key(k) ==> k < usize::MAX
    }

    /// A reassembler that has received nothing and expects chunk 0.
    pub fn new() -> (reassembler: Self)
        ensures
            reassembler.wf(),
            reassembler@ == ReassemblyState::initial(),
    {
        let reassembler = OrderedReassembler { next_expected: 0, pending: HashMap::new() };
        assert(reassembler@.pending =~= Map::empty());
        reassembler
    }

    /// Sequence number of the next chunk to release.
    pub fn next_expected(&self) -> (next: usize)
        ensures
            next == self@.next_expected,
    {
        self.next_expected
    }

    /// Takes one arrival and returns the payloads to write now, in the
    /// order in which they must be written.
    pub fn accept(&mut self, sequence: usize, payload: Vec<u8>) -> (ready: Vec<Vec<u8>>)
        requires
            old(self).wf(),
            sequence < usize::MAX,
        ensures
            final(self).wf(),
            final(self)@ == old(self)@.accept(sequence as nat, payload@).0,
            payloads(ready@) == old(self)@.accept(sequence as nat, payload@).1,
            is_first_gap(
                old(self)@.pending.insert(sequence as nat, payload@),
                old(self)@.next_expected,
                final(self)@.next_expected,
            ),
    {
        let ghost from = self.next_expected as nat;
        self.pending.insert(sequence, payload);
        let ghost held = held_chunks(self.pending@);
        assert(held =~= old(self)@.pending.insert(sequence as nat, payload@));
        let mut ready: Vec<Vec<u8>> = Vec::new();
        loop
            invariant
                from <= self.next_expected,
                forall|k: usize| self.pending@.contains_key(k) ==> k < usize::MAX,
                contiguous(held, from, self.next_expected as nat),
                held_chunks(self.pending@) =~= without_run(held, from, self.next_expected as nat),
                payloads(ready@) =~= run_of(held, from, self.next_expected as nat),
            ensures
                is_first_gap(held, from, self.next_expected as nat),
                held_chunks(self.pending@) =~= without_run(held, from, self.next_expected as nat),
                payloads(ready@) =~= run_of(held, from, self.next_expected as nat),
            decreases self.pending@.dom().len(),
        {
            let ghost before = self.pending@;
            let ghost current = self.next_expected;
            match self.pending.remove(&self.next_expected) {
                Some(chunk) => {
                    assert(before.contains_key(current) && before[current] == chunk);
                    assert(self.pending@ == before.remove(current));
                    let ghost released = payloads(ready@);
                    ready.push(chunk);
                    self.next_expected = self.next_expected + 1;
                    proof {
                        let number = current as nat;
                        let kept = without_run(held, from, number);
                        assert(held_chunks(before).contains_key(number));
                        assert(kept.contains_key(number));
                        assert(held_chunks(before)[number] == chunk@);
                        assert(held[number] == chunk@);
                        assert forall|k: nat|
                            held_chunks(self.pending@).contains_key(k) == without_run(
                                held,
                                from,
                                number + 1,
                            ).contains_key(k) by {
                            if k != number {
                                assert(held_chunks(before).contains_key(k) == kept.contains_key(k));
                            }
                        }
                        assert forall|k: nat| #[trigger]
                            held_chunks(self.pending@).contains_key(k) implies held_chunks(
                            self.pending@,
                        )[k] == without_run(held, from, number + 1)[k] by {
                            assert(held_chunks(before).contains_key(k));
                            assert(held_chunks(before)[k] == kept[k]);
                        }
                        assert(payloads(ready@) =~= released.push(chunk@));
                    }
                },
                None => {
                    assert(!before.contains_key(current));
                    assert(self.pending@ == before);
                    assert(!held_chunks(before).contains_key(current as nat));
                    break ;
                },
            }
        }
        proof {
            lemma_first_gap_unique(held, from, self.next_expected as nat);
        }
        ready
    }

    /// As [`OrderedReassembler::accept`], unless the sink has been told to
    /// stop: then the arrival is dropped and nothing is to be written.
    pub fn accept_unless(&mut self, stopped: bool, sequence: usize, payload: Vec<u8>) -> (ready:
        Vec<Vec<u8>>)
        requires
            old(self).wf(),
            sequence < usize::MAX,
        ensures
            final(self).wf(),
            final(self)@ == old(self)@.accept_unless(stopped, sequence as nat, payload@).0,
            payloads(ready@) == old(self)@.accept_unless(stopped, sequence as nat, payload@).1,
            stopped ==> ready@.len() == 0 && final(self)@ == old(self)@,
    {
        if stopped {
            let ready: Vec<Vec<u8>> = Vec::new();
            assert(payloads(ready@) =~= Seq::empty());
            ready
        } else {
            self.accept(sequence, payload)
        }
    }
}

/// `order` names each sequence number below `count` exactly once: one of the
/// orders in which the sends of `count` chunks can complete.
pub open spec fn is_completion_order(order: Seq<nat>, count: nat) -> bool {
    &&& order.len() == count
    &&& order.no_duplicates()
    &&& forall|i: int| 0 <= i < order.len() ==> order[i] < count
}

/// The arrivals at the write side when the sends of `chunks` complete in
/// `order`: each chunk travels with its own sequence number.
pub open spec fn arrivals_in(chunks: Seq<Seq<u8>>, order: Seq<nat>) -> Seq<(nat, Seq<u8>)> {
    Seq::new(order.len(), |i: int| (order[i], chunks[order[i] as int]))
}

spec fn below(count: nat) -> Set<nat> {
    Set::new(|k: nat| k < count)
}

proof fn lemma_below_len(count: nat)
    ensures
        below(count).finite(),
        below(count).len() == count,
    decreases count,
{
    if count == 0 {
        assert(below(count) =~= Set::empty());
    } else {
        lemma_below_len((count - 1) as nat);
        assert(below(count) =~= below((count - 1) as nat).insert((count - 1) as nat));
    }
}

proof fn lemma_completion_order_covers(order: Seq<nat>, count: nat)
    requires
        is_completion_order(order, count),
    ensures
        forall|k: nat| k < count ==> order.contains(k),
{
    order.unique_seq_to_set();
    lemma_below_len(count);
    assert(order.to_set().subset_of(below(count))) by {
        assert forall|k: nat| order.to_set().contains(k) implies below(count).contains(k) by {
            let i = choose|i: int| 0 <= i < order.len() && order[i] == k;
            assert(order[i] < count);
        }
    }
    vstd::set_lib::lemma_set_subset_finite(below(count), order.to_set());
    vstd::set_lib::lemma_subset_equality(order.to_set(), below(count));
    assert forall|k: nat| k < count implies order.contains(k) by {
        assert(below(count).contains(k));
        assert(order.to_set().contains(k));
    }
}

proof fn lemma_first_gap_exists(pending: Map<nat, Seq<u8>>, from: nat, bound: nat) -> (gap: nat)
    requires
        from <= bound,
        !pending.contains_key(bound),
    ensures
        is_first_gap(pending, from, gap),
        gap <= bound,
    decreases bound - from,
{
    if !pending.contains_key(from) {
        from
    } else {
        lemma_first_gap_exists(pending, from + 1, bound)
    }
}

/// What holds after the first `done` arrivals of a completion order.
spec fn in_order_so_far(
    chunks: Seq<Seq<u8>>,
    order: Seq<nat>,
    done: int,
    state: ReassemblyState,
    released: Seq<Seq<u8>>,
) -> bool {
    let arrived = order.take(done);
    &&& state.next_expected <= chunks.len()
    &&& released == chunks.take(state.next_expected as int)
    &&& forall|k: nat|
        state.pending.contains_key(k) <==> (state.next_expected <= k && arrived.contains(k))
    &&& forall|k: nat| state.pending.contains_key(k) ==> state.pending[k] == chunks[k as int]
    &&& forall|k: nat| k < state.next_expected ==> arrived.contains(k)
    &&& !state.pending.contains_key(state.next_expected)
}

proof fn lemma_feed_in_order(chunks: Seq<Seq<u8>>, order: Seq<nat>, done: int)
    requires
        is_completion_order(order, chunks.len()),
        0 <= done <= order.len(),
    ensures
        in_order_so_far(
            chunks,
            order,
            done,
            ReassemblyState::initial().feed(arrivals_in(chunks, order).take(done)).0,
            ReassemblyState::initial().feed(arrivals_in(chunks, order).take(done)).1,
        ),
    decreases done,
{
    let arrivals = arrivals_in(chunks, order);
    let start = ReassemblyState::initial();
    if done == 0 {
        assert(chunks.take(0) =~= Seq::empty());
    } else {
        lemma_feed_in_order(chunks, order, done - 1);
        assert(arrivals.take(done).drop_last() =~= arrivals.take(done - 1));
        let before = start.feed(arrivals.take(done - 1));
        let number = order[done - 1];
        let payload = chunks[number as int];
        assert(arrivals.take(done).last() == (number, payload));
        let earlier = order.take(done - 1);
        let arrived = order.take(done);
        assert(arrived =~= earlier.push(number));
        assert(!earlier.contains(number)) by {
            if earlier.contains(number) {
                let i = choose|i: int| 0 <= i < earlier.len() && earlier[i] == number;
                assert(order[i] == order[done - 1]);
            }
        }
        assert forall|k: nat| arrived.contains(k) <==> (earlier.contains(k) || k == number) by {
            if earlier.contains(k) {
                let i = choose|i: int| 0 <= i < earlier.len() && earlier[i] == k;
                assert(arrived[i] == k);
            }
            if k == number {
                assert(arrived[done - 1] == k);
            }
            if arrived.contains(k) {
                let i = choose|i: int| 0 <= i < arrived.len() && arrived[i] == k;
                if i < done - 1 {
                    assert(earlier[i] == k);
                }
            }
        }
        let from = before.0.next_expected;
        assert(from <= number);
        let held = before.0.pending.insert(number, payload);
        assert(!held.contains_key(chunks.len())) by {
            if arrived.contains(chunks.len()) {
                let i = choose|i: int| 0 <= i < arrived.len() && arrived[i] == chunks.len();
                assert(order[i] < chunks.len());
            }
        }
        let gap = lemma_first_gap_exists(held, from, chunks.len());
        lemma_first_gap_unique(held, from, gap);
        let after = before.0.accept(number, payload);
        assert(after.0.next_expected == gap);
        assert(start.feed(arrivals.take(done)) == (after.0, before.1 + after.1));
        assert(before.1 + after.1 =~= chunks.take(gap as int)) by {
            assert forall|i: int| from <= i < gap implies held[i as nat] == chunks[i] by {
                assert(held.contains_key(i as nat));
            }
        }
        assert forall|k: nat| k < gap implies arrived.contains(k) by {
            if from <= k {
                assert(held.contains_key(k));
            }
        }
        assert forall|k: nat| #[trigger] after.0.pending.contains_key(k) implies gap <= k
            && arrived.contains(k) by {
            assert(held.contains_key(k));
            if k != number {
                assert(before.0.pending.contains_key(k));
                assert(earlier.contains(k));
            }
        }
    }
}

/// At every moment of a transfer, whatever the order in which the sends
/// complete and however many have completed, what the write side has
/// released is a prefix of the source's chunk sequence, without a gap:
/// a transfer that stops early leaves the start of the source behind, never
/// a later part without the earlier ones.
pub proof fn lemma_released_is_a_prefix(chunks: Seq<Seq<u8>>, order: Seq<nat>, done: int)
    requires
        is_completion_order(order, chunks.len()),
        0 <= done <= order.len(),
    ensures
        ReassemblyState::initial().feed(arrivals_in(chunks, order).take(done)).0.next_expected
            <= chunks.len(),
        ReassemblyState::initial().feed(arrivals_in(chunks, order).take(done)).1 == chunks.take(
            ReassemblyState::initial().feed(
                arrivals_in(chunks, order).take(done),
            ).0.next_expected as int,
        ),
{
    lemma_feed_in_order(chunks, order, done);
}

/// Whatever the order in which the sends complete, the write side releases
/// the chunks in ascending sequence order, each exactly once and none
/// missing: what it released is the source's chunk sequence, so the bytes
/// written are the bytes read; and it holds nothing back.
pub proof fn lemma_reassembly_restores_order(chunks: Seq<Seq<u8>>, order: Seq<nat>)
    requires
        is_completion_order(order, chunks.len()),
    ensures
        ReassemblyState::initial().feed(arrivals_in(chunks, order)).1 == chunks,
        ReassemblyState::initial().feed(arrivals_in(chunks, order)).1.flatten()
            == chunks.flatten(),
        ReassemblyState::initial().feed(arrivals_in(chunks, order)).0 == (ReassemblyState {
            next_expected: chunks.len(),
            pending: Map::empty(),
        }),
{
    let arrivals = arrivals_in(chunks, order);
    let end = ReassemblyState::initial().feed(arrivals);
    lemma_feed_in_order(chunks, order, order.len() as int);
    assert(arrivals.take(order.len() as int) =~= arrivals);
    assert(order.take(order.len() as int) =~= order);
    lemma_completion_order_covers(order, chunks.len());
    if end.0.next_expected < chunks.len() {
        assert(order.contains(end.0.next_expected));
        assert(end.0.pending.contains_key(end.0.next_expected));
    }
    assert(chunks.take(chunks.len() as int) =~= chunks);
    assert(end.0.pending =~= Map::empty()) by {
        assert forall|k: nat| !end.0.pending.contains_key(k) by {
            if order.contains(k) {
                let i = choose|i: int| 0 <= i < order.len() && order[i] == k;
                assert(order[i] < chunks.len());
            }
        }
    }
}

} // verus!
