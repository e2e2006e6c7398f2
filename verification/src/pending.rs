//! Bookkeeping for a batch of remote calls that complete in any order.
//!
//! The calls of a batch are numbered `0..n`. A driver polls the calls that are
//! still pending; each poll reports the positions, within the pending list, of
//! the calls that have finished. The batch records their outcomes under their
//! call numbers and drops them from the pending list, which keeps the order in
//! which the calls were issued.
use vstd::prelude::*;

verus! {

/// `s` without the elements at the positions that `ready` lists.
pub open spec fn drop_ready_spec<T>(s: Seq<T>, ready: Seq<u32>) -> Seq<T>
    decreases s.len(),
{
    if s.len() == 0 {
        s
    } else {
        let rest = drop_ready_spec(s.drop_last(), ready);
        if ready.contains((s.len() - 1) as u32) {
            rest
        } else {
            rest.push(s.last())
        }
    }
}

/// How many of the positions `0..m` `ready` lists.
pub open spec fn ready_count(m: nat, ready: Seq<u32>) -> nat
    decreases m,
{
    if m == 0 {
        0
    } else {
        ready_count((m - 1) as nat, ready) + if ready.contains((m - 1) as u32) {
            1nat
        } else {
            0nat
        }
    }
}

/// A poll report for a pending list of length `n`: distinct positions, each
/// below `n`.
pub open spec fn valid_ready(ready: Seq<u32>, n: nat) -> bool {
    &&& ready.no_duplicates()
    &&& forall|k: int| 0 <= k < ready.len() ==> (#[trigger] ready[k]) < n
}

/// Whether `s` is strictly increasing.
pub open spec fn strictly_increasing(s: Seq<usize>) -> bool {
    forall|a: int, b: int| 0 <= a < b < s.len() ==> s[a] < s[b]
}

/// The elements of `pending` at the positions that `ready` lists, in the order
/// of `ready`.
pub open spec fn ready_targets(pending: Seq<usize>, ready: Seq<u32>) -> Seq<usize> {
    Seq::new(ready.len(), |k: int| pending[ready[k] as int])
}

/// Dropping the listed positions removes as many elements as are listed.
pub proof fn lemma_drop_ready_len<T>(s: Seq<T>, ready: Seq<u32>)
    ensures
        drop_ready_spec(s, ready).len() + ready_count(s.len(), ready) == s.len(),
    decreases s.len(),
{
    if s.len() > 0 {
        lemma_drop_ready_len(s.drop_last(), ready);
    }
}

proof fn lemma_ready_count_drop_last(m: nat, ready: Seq<u32>)
    requires
        ready.len() > 0,
        ready.no_duplicates(),
        m <= 0x1_0000_0000,
    ensures
        ready_count(m, ready) == ready_count(m, ready.drop_last()) + if (ready.last() as nat)
            < m {
            1nat
        } else {
            0nat
        },
    decreases m,
{
    if m > 0 {
        lemma_ready_count_drop_last((m - 1) as nat, ready);
        let i: u32 = (m - 1) as u32;
        assert(i as int == m - 1);
        let r = ready.drop_last();
        if ready.contains(i) && ready.last() != i {
            let k = choose|k: int| 0 <= k < ready.len() && ready[k] == i;
            assert(r[k] == i);
        }
        if r.contains(i) {
            let k = choose|k: int| 0 <= k < r.len() && r[k] == i;
            assert(ready[k] == i);
            if ready.last() == i {
                assert(ready[k] == ready[ready.len() - 1]);
            }
        }
        if ready.last() == i {
            assert(ready[ready.len() - 1] == i);
        }
    }
}

/// When the positions are distinct and all below `m`, each of them is counted
/// once.
pub proof fn lemma_ready_count_all(m: nat, ready: Seq<u32>)
    requires
        valid_ready(ready, m),
        m <= 0x1_0000_0000,
    ensures
        ready_count(m, ready) == ready.len(),
    decreases ready.len(),
{
    if ready.len() == 0 {
        lemma_ready_count_none(m, ready);
    } else {
        lemma_ready_count_drop_last(m, ready);
        let r = ready.drop_last();
        assert forall|k: int| 0 <= k < r.len() implies (#[trigger] r[k]) < m by {
            assert(r[k] == ready[k]);
        }
        assert forall|a: int, b: int| 0 <= a < r.len() && 0 <= b < r.len() && a != b implies r[a]
            != r[b] by {
            assert(r[a] == ready[a] && r[b] == ready[b]);
        }
        assert(ready.last() == ready[ready.len() - 1]);
        lemma_ready_count_all(m, r);
    }
}

proof fn lemma_ready_count_none(m: nat, ready: Seq<u32>)
    requires
        ready.len() == 0,
    ensures
        ready_count(m, ready) == 0,
    decreases m,
{
    if m > 0 {
        lemma_ready_count_none((m - 1) as nat, ready);
    }
}

/// Dropping positions from a strictly increasing sequence keeps it strictly
/// increasing, keeps only its own elements, and keeps an element exactly when
/// its position is not listed.
pub proof fn lemma_drop_ready_elements(s: Seq<usize>, ready: Seq<u32>)
    requires
        strictly_increasing(s),
    ensures
        strictly_increasing(drop_ready_spec(s, ready)),
        forall|j: int|
            0 <= j < drop_ready_spec(s, ready).len() ==> s.contains(
                #[trigger] drop_ready_spec(s, ready)[j],
            ),
        forall|i: int|
            0 <= i < s.len() ==> (drop_ready_spec(s, ready).contains(#[trigger] s[i])
                <==> !ready.contains(i as u32)),
    decreases s.len(),
{
    if s.len() > 0 {
        let t = s.drop_last();
        let d = drop_ready_spec(t, ready);
        assert(strictly_increasing(t));
        lemma_drop_ready_elements(t, ready);
        let last = s.last();
        assert forall|j: int| 0 <= j < d.len() implies d[j] < last by {
            let i = choose|i: int| 0 <= i < t.len() && t[i] == d[j];
            assert(s[i] == t[i]);
        }
        assert(!d.contains(last));
        if ready.contains((s.len() - 1) as u32) {
            assert forall|j: int| 0 <= j < d.len() implies s.contains(#[trigger] d[j]) by {
                let i = choose|i: int| 0 <= i < t.len() && t[i] == d[j];
                assert(s[i] == t[i]);
            }
            assert forall|i: int| 0 <= i < s.len() implies (d.contains(#[trigger] s[i])
                <==> !ready.contains(i as u32)) by {
                if i < s.len() - 1 {
                    assert(s[i] == t[i]);
                }
            }
        } else {
            let e = d.push(last);
            assert forall|a: int, b: int| 0 <= a < b < e.len() implies e[a] < e[b] by {
                if b == e.len() - 1 {
                    assert(e[a] == d[a]);
                }
            }
            assert forall|j: int| 0 <= j < e.len() implies s.contains(#[trigger] e[j]) by {
                if j == e.len() - 1 {
                    assert(s[s.len() - 1] == last);
                } else {
                    assert(e[j] == d[j]);
                    let i = choose|i: int| 0 <= i < t.len() && t[i] == d[j];
                    assert(s[i] == t[i]);
                }
            }
            assert forall|i: int| 0 <= i < s.len() implies (e.contains(#[trigger] s[i])
                <==> !ready.contains(i as u32)) by {
                if i < s.len() - 1 {
                    assert(s[i] == t[i]);
                    assert(s[i] < last);
                    if e.contains(s[i]) {
                        let j = choose|j: int| 0 <= j < e.len() && e[j] == s[i];
                        if j < d.len() {
                            assert(d[j] == e[j]);
                        }
                    }
                    if d.contains(s[i]) {
                        let j = choose|j: int| 0 <= j < d.len() && d[j] == s[i];
                        assert(e[j] == d[j]);
                    }
                } else {
                    assert(e[e.len() - 1] == last);
                }
            }
        }
    }
}

/// The items whose positions `ready` does not list, in their order.
pub fn drop_ready<T: Copy>(items: &Vec<T>, ready: &Vec<u32>) -> (kept: Vec<T>)
    ensures
        kept@ == drop_ready_spec(items@, ready@),
        items@.len() <= 0x1_0000_0000 && valid_ready(ready@, items@.len()) ==> kept@.len()
            == items@.len() - ready@.len(),
{
    let mut kept: Vec<T> = Vec::new();
    let n: usize = items.len();
    let mut i: usize = 0;
    while i < n
        invariant
            n == items@.len(),
            i <= n,
            kept@ == drop_ready_spec(items@.take(i as int), ready@),
        decreases n - i,
    {
        let mut listed = false;
        let mut k: usize = 0;
        while k < ready.len()
            invariant
                k <= ready@.len(),
                listed == (exists|k2: int| 0 <= k2 < k && ready@[k2] == i as u32),
            decreases ready@.len() - k,
        {
            if ready[k] == i as u32 {
                listed = true;
            }
            k = k + 1;
        }
        assert(listed == ready@.contains(i as u32));
        assert(items@.take(i + 1).drop_last() =~= items@.take(i as int));
        if !listed {
            kept.push(items[i]);
        }
        i = i + 1;
    }
    assert(items@.take(n as int) =~= items@);
    proof {
        lemma_drop_ready_len(items@, ready@);
        if items@.len() <= 0x1_0000_0000 && valid_ready(ready@, items@.len()) {
            lemma_ready_count_all(items@.len(), ready@);
        }
    }
    kept
}

/// `results` with the outcome `outcomes[k]` recorded under the call number
/// `targets[k]`, for every `k`.
pub open spec fn step_results<V>(
    results: Seq<Result<V, String>>,
    targets: Seq<usize>,
    outcomes: Seq<Result<V, String>>,
) -> Seq<Result<V, String>> {
    Seq::new(
        results.len(),
        |j: int|
            if targets.contains(j as usize) {
                outcomes[choose|k: int| 0 <= k < targets.len() && targets[k] == j as usize]
            } else {
                results[j]
            },
    )
}

/// The outcomes and pending list of a batch after one poll that reported the
/// positions `ready` with the outcomes `outcomes`.
pub open spec fn after_poll<V>(
    results: Seq<Result<V, String>>,
    pending: Seq<usize>,
    ready: Seq<u32>,
    outcomes: Seq<Result<V, String>>,
) -> (Seq<Result<V, String>>, Seq<usize>) {
    (
        step_results(results, ready_targets(pending, ready), outcomes),
        drop_ready_spec(pending, ready),
    )
}

/// The outcomes and pending list of a batch after a run of polls, the `p`-th
/// of which reported `reports[p]` with the outcomes `outcomes[p]`.
pub open spec fn after_polls<V>(
    results: Seq<Result<V, String>>,
    pending: Seq<usize>,
    reports: Seq<Seq<u32>>,
    outcomes: Seq<Seq<Result<V, String>>>,
) -> (Seq<Result<V, String>>, Seq<usize>)
    decreases reports.len(),
{
    if reports.len() == 0 {
        (results, pending)
    } else {
        let before = after_polls(results, pending, reports.drop_last(), outcomes.drop_last());
        after_poll(before.0, before.1, reports.last(), outcomes.last())
    }
}

/// Every poll of the run is a valid report for the pending list it was made
/// on, and each outcome it delivers for a call `c` is `answer(c)`.
pub open spec fn polls_deliver<V>(
    results: Seq<Result<V, String>>,
    pending: Seq<usize>,
    reports: Seq<Seq<u32>>,
    outcomes: Seq<Seq<Result<V, String>>>,
    answer: spec_fn(usize) -> Result<V, String>,
) -> bool
    decreases reports.len(),
{
    if reports.len() == 0 {
        outcomes.len() == 0
    } else {
        let before = after_polls(results, pending, reports.drop_last(), outcomes.drop_last());
        &&& outcomes.len() == reports.len()
        &&& polls_deliver(results, pending, reports.drop_last(), outcomes.drop_last(), answer)
        &&& valid_ready(reports.last(), before.1.len())
        &&& outcomes.last().len() == reports.last().len()
        &&& forall|k: int|
            0 <= k < reports.last().len() ==> outcomes.last()[k] == answer(
                #[trigger] ready_targets(before.1, reports.last())[k],
            )
    }
}

proof fn lemma_batch_invariant<V>(
    n: nat,
    results: Seq<Result<V, String>>,
    pending: Seq<usize>,
    reports: Seq<Seq<u32>>,
    outcomes: Seq<Seq<Result<V, String>>>,
    answer: spec_fn(usize) -> Result<V, String>,
)
    requires
        n <= 0x1_0000_0000,
        results.len() == n,
        pending.len() == n,
        forall|i: int| 0 <= i < n ==> #[trigger] pending[i] == i as usize,
        polls_deliver(results, pending, reports, outcomes, answer),
    ensures
        ({
            let s = after_polls(results, pending, reports, outcomes);
            &&& s.0.len() == n
            &&& strictly_increasing(s.1)
            &&& forall|j: int| 0 <= j < s.1.len() ==> #[trigger] s.1[j] < n
            &&& forall|i: int|
                0 <= i < n ==> s.1.contains(i as usize) || #[trigger] s.0[i] == answer(
                    i as usize,
                )
        }),
    decreases reports.len(),
{
    if reports.len() == 0 {
        assert forall|i: int| 0 <= i < n implies pending.contains(i as usize) || #[trigger] results[i]
            == answer(i as usize) by {
            assert(pending[i] == i as usize);
        }
    } else {
        lemma_batch_invariant(n, results, pending, reports.drop_last(), outcomes.drop_last(), answer);
        let b = after_polls(results, pending, reports.drop_last(), outcomes.drop_last());
        let r = reports.last();
        let o = outcomes.last();
        let t = ready_targets(b.1, r);
        let s = after_polls(results, pending, reports, outcomes);
        assert(s == after_poll(b.0, b.1, r, o));
        lemma_drop_ready_elements(b.1, r);
        // The pending list never gets longer than the batch.
        lemma_increasing_below_len(b.1, n);
        assert forall|j: int| 0 <= j < s.1.len() implies #[trigger] s.1[j] < n by {
            assert(b.1.contains(s.1[j]));
            let p = choose|p: int| 0 <= p < b.1.len() && b.1[p] == s.1[j];
        }
        assert forall|i: int| 0 <= i < n implies s.1.contains(i as usize) || #[trigger] s.0[i]
            == answer(i as usize) by {
            if !s.1.contains(i as usize) {
                if t.contains(i as usize) {
                    let k = choose|k: int| 0 <= k < t.len() && t[k] == i as usize;
                    assert(o[k] == answer(t[k]));
                } else if b.1.contains(i as usize) {
                    let p = choose|p: int| 0 <= p < b.1.len() && b.1[p] == i as usize;
                    assert(!s.1.contains(b.1[p]));
                    assert(r.contains(p as u32));
                    let k = choose|k: int| 0 <= k < r.len() && r[k] == p as u32;
                    assert(p as u32 as int == p);
                    assert(t[k] == b.1[p]);
                    assert(false);
                } else {
                    assert(b.0[i] == answer(i as usize));
                }
            }
        }
    }
}

proof fn lemma_increasing_below_len(s: Seq<usize>, n: nat)
    requires
        strictly_increasing(s),
        forall|j: int| 0 <= j < s.len() ==> #[trigger] s[j] < n,
    ensures
        s.len() <= n,
    decreases s.len(),
{
    if s.len() > 0 {
        let t = s.drop_last();
        assert forall|j: int| 0 <= j < t.len() implies #[trigger] t[j] < s.last() by {
            assert(t[j] == s[j]);
        }
        assert forall|j: int| 0 <= j < t.len() implies #[trigger] t[j] < s.last() as nat by {
            assert(t[j] == s[j]);
        }
        assert(strictly_increasing(t));
        lemma_increasing_below_len(t, s.last() as nat);
    }
}

/// A run of polls that starts with every call of a batch of `n` pending and
/// ends with none pending, and in which each outcome delivered for a call `c`
/// is `answer(c)`, leaves `answer(c)` recorded under every call number `c`:
/// every call's outcome is recorded, under its own number, and no call is left
/// without one.
pub proof fn lemma_batch_outcomes<V>(
    n: nat,
    results: Seq<Result<V, String>>,
    pending: Seq<usize>,
    reports: Seq<Seq<u32>>,
    outcomes: Seq<Seq<Result<V, String>>>,
    answer: spec_fn(usize) -> Result<V, String>,
)
    requires
        n <= 0x1_0000_0000,
        results.len() == n,
        pending.len() == n,
        forall|i: int| 0 <= i < n ==> #[trigger] pending[i] == i as usize,
        polls_deliver(results, pending, reports, outcomes, answer),
        after_polls(results, pending, reports, outcomes).1.len() == 0,
    ensures
        after_polls(results, pending, reports, outcomes).0.len() == n,
        forall|i: int|
            0 <= i < n ==> #[trigger] after_polls(results, pending, reports, outcomes).0[i]
                == answer(i as usize),
{
    lemma_batch_invariant(n, results, pending, reports, outcomes, answer);
}

/// The outcome that a call has before it completes.
pub open spec fn not_ready() -> Seq<char> {
    "Not ready"@
}

/// The outcomes of a batch of calls, and the calls still pending.
pub struct PendingCalls<V> {
    values: Vec<Result<V, String>>,
    mapping: Vec<usize>,
}

impl<V> PendingCalls<V> {
    /// The outcome recorded for each call, by call number.
    pub closed spec fn results(&self) -> Seq<Result<V, String>> {
        self.values@
    }

    /// The numbers of the calls still pending, in the order they were issued.
    pub closed spec fn pending(&self) -> Seq<usize> {
        self.mapping@
    }

    /// The pending list is strictly increasing and names calls of the batch.
    #[verifier::type_invariant]
    spec fn wf(&self) -> bool {
        &&& strictly_increasing(self.mapping@)
        &&& forall|j: int| 0 <= j < self.mapping@.len() ==> #[trigger] self.mapping@[j]
            < self.values@.len()
    }

    /// A batch of `n` calls, all pending, none with an outcome yet.
    pub fn new(n: usize) -> (b: PendingCalls<V>)
        ensures
            b.results().len() == n,
            forall|i: int| 0 <= i < n ==> (#[trigger] b.results()[i] matches Err(e) && e@
                == not_ready()),
            b.pending() == Seq::new(n as nat, |i: int| i as usize),
            b.pending().len() == n,
            forall|i: int| 0 <= i < n ==> #[trigger] b.pending()[i] == i as usize,
    {
        let mut values: Vec<Result<V, String>> = Vec::new();
        let mut mapping: Vec<usize> = Vec::new();
        let mut i: usize = 0;
        while i < n
            invariant
                i <= n,
                values@.len() == i,
                forall|j: int| 0 <= j < i ==> (#[trigger] values@[j] matches Err(e) && e@
                    == not_ready()),
                mapping@ == Seq::new(i as nat, |j: int| j as usize),
            decreases n - i,
        {
            values.push(Err("Not ready".to_string()));
            mapping.push(i);
            assert(mapping@ =~= Seq::new((i + 1) as nat, |j: int| j as usize));
            i = i + 1;
        }
        assert(strictly_increasing(mapping@));
        PendingCalls { values, mapping }
    }

    /// Whether no call is pending any more.
    pub fn is_done(&self) -> (b: bool)
        ensures
            b == (self.pending().len() == 0),
    {
        self.mapping.len() == 0
    }

    /// How many calls are pending.
    pub fn pending_count(&self) -> (c: usize)
        ensures
            c == self.pending().len(),
    {
        self.mapping.len()
    }

    /// The call numbers at the positions of the pending list that a poll
    /// reported ready, in the order of the report.
    pub fn ready_calls(&self, ready: &Vec<u32>) -> (calls: Vec<usize>)
        requires
            forall|k: int| 0 <= k < ready@.len() ==> (#[trigger] ready@[k]) < self.pending().len(),
        ensures
            calls@ == ready_targets(self.pending(), ready@),
    {
        let mut calls: Vec<usize> = Vec::new();
        let mut k: usize = 0;
        while k < ready.len()
            invariant
                k <= ready@.len(),
                forall|k2: int| 0 <= k2 < ready@.len() ==> (#[trigger] ready@[k2]) < self.mapping@.len(),
                calls@ == ready_targets(self.mapping@, ready@).take(k as int),
            decreases ready@.len() - k,
        {
            calls.push(self.mapping[ready[k] as usize]);
            assert(calls@ =~= ready_targets(self.mapping@, ready@).take(k + 1));
            k = k + 1;
        }
        assert(calls@ =~= ready_targets(self.mapping@, ready@));
        calls
    }

    /// Records the outcomes of the calls that a poll reported ready
    /// (`outcomes[k]` for the call at position `ready[k]` of the pending list)
    /// and drops those calls from the pending list.
    pub fn complete(&mut self, ready: &Vec<u32>, outcomes: Vec<Result<V, String>>)
        requires
            valid_ready(ready@, old(self).pending().len()),
            outcomes@.len() == ready@.len(),
        ensures
            (final(self).results(), final(self).pending()) == after_poll(
                old(self).results(),
                old(self).pending(),
                ready@,
                outcomes@,
            ),
            final(self).results().len() == old(self).results().len(),
            forall|k: int|
                0 <= k < ready@.len() ==> final(self).results()[#[trigger] ready_targets(
                    old(self).pending(),
                    ready@,
                )[k] as int] == outcomes@[k],
            forall|j: int|
                0 <= j < old(self).results().len() && !ready_targets(
                    old(self).pending(),
                    ready@,
                ).contains(j as usize) ==> #[trigger] final(self).results()[j] == old(
                    self,
                ).results()[j],
            final(self).pending() == drop_ready_spec(old(self).pending(), ready@),
            old(self).pending().len() <= 0x1_0000_0000 ==> final(self).pending().len() == old(
                self,
            ).pending().len() - ready@.len(),
            forall|i: int|
                0 <= i < old(self).pending().len() ==> (final(self).pending().contains(
                    #[trigger] old(self).pending()[i],
                ) <==> !ready@.contains(i as u32)),
            forall|j: int|
                0 <= j < old(self).results().len() && !old(self).pending().contains(j as usize)
                    ==> #[trigger] final(self).results()[j] == old(self).results()[j],
    {
        proof {
            use_type_invariant(&*self);
        }
        let ghost old_values = self.values@;
        let ghost pending = self.mapping@;
        let mut mapping: Vec<usize> = Vec::new();
        core::mem::swap(&mut mapping, &mut self.mapping);
        let mut values: Vec<Result<V, String>> = Vec::new();
        core::mem::swap(&mut values, &mut self.values);
        let total: usize = values.len();
        let ghost targets = ready_targets(pending, ready@);
        assert forall|a: int, b: int|
            0 <= a < targets.len() && 0 <= b < targets.len() && a != b implies targets[a]
            != targets[b] by {
            assert(ready@[a] != ready@[b]);
            if ready@[a] < ready@[b] {
                assert(pending[ready@[a] as int] < pending[ready@[b] as int]);
            } else {
                assert(pending[ready@[b] as int] < pending[ready@[a] as int]);
            }
        }
        let mut outs = outcomes;
        let mut k: usize = 0;
        while k < ready.len()
            invariant
                k <= ready@.len(),
                mapping@ == pending,
                values@.len() == old_values.len(),
                strictly_increasing(pending),
                forall|j: int| 0 <= j < pending.len() ==> #[trigger] pending[j] < old_values.len(),
                valid_ready(ready@, pending.len()),
                targets == ready_targets(pending, ready@),
                forall|a: int, b: int|
                    0 <= a < targets.len() && 0 <= b < targets.len() && a != b ==> targets[a]
                        != targets[b],
                outs@ == outcomes@.skip(k as int),
                outcomes@.len() == ready@.len(),
                forall|k2: int| 0 <= k2 < k ==> values@[#[trigger] targets[k2] as int] == outcomes@[k2],
                forall|j: int|
                    0 <= j < old_values.len() && !targets.take(k as int).contains(j as usize)
                        ==> #[trigger] values@[j] == old_values[j],
            decreases ready@.len() - k,
        {
            let idx: usize = mapping[ready[k] as usize];
            assert(idx == targets[k as int]);
            let out = outs.remove(0);
            assert(outs@ =~= outcomes@.skip(k + 1));
            values.set(idx, out);
            assert(targets.take(k + 1) =~= targets.take(k as int).push(targets[k as int]));
            assert forall|k2: int| 0 <= k2 < k + 1 implies values@[#[trigger] targets[k2] as int]
                == outcomes@[k2] by {
                if k2 < k {
                    assert(targets[k2] != targets[k as int]);
                }
            }
            assert forall|j: int|
                0 <= j < old_values.len() && !targets.take(k + 1).contains(
                    j as usize,
                ) implies #[trigger] values@[j] == old_values[j] by {
                assert(targets.take(k + 1)[k as int] == targets[k as int]);
                if targets.take(k as int).contains(j as usize) {
                    let k2 = choose|k2: int| 0 <= k2 < k && targets.take(k as int)[k2] == j as usize;
                    assert(targets.take(k + 1)[k2] == targets.take(k as int)[k2]);
                }
            }
            k = k + 1;
        }
        assert(targets.take(ready@.len() as int) =~= targets);
        let kept = drop_ready(&mapping, ready);
        proof {
            lemma_drop_ready_elements(pending, ready@);
        }
        assert forall|j: int|
            0 <= j < old_values.len() && !pending.contains(j as usize) implies #[trigger] values@[j]
            == old_values[j] by {
            if targets.contains(j as usize) {
                let k2 = choose|k2: int| 0 <= k2 < targets.len() && targets[k2] == j as usize;
                assert(pending[ready@[k2] as int] == j as usize);
            }
        }
        assert forall|j: int| 0 <= j < kept@.len() implies #[trigger] kept@[j]
            < values@.len() by {
            let i = choose|i: int| 0 <= i < pending.len() && pending[i] == kept@[j];
        }
        assert forall|j: int| 0 <= j < old_values.len() implies #[trigger] values@[j]
            == step_results(old_values, targets, outcomes@)[j] by {
            assert(old_values.len() == total as int);
            assert(j as usize as int == j);
            if targets.contains(j as usize) {
                let k = choose|k: int| 0 <= k < targets.len() && targets[k] == j as usize;
                assert(values@[targets[k] as int] == outcomes@[k]);
                assert(step_results(old_values, targets, outcomes@)[j] == outcomes@[k]);
            } else {
                assert(!targets.take(ready@.len() as int).contains(j as usize));
                assert(step_results(old_values, targets, outcomes@)[j] == old_values[j]);
            }
        }
        assert(values@ =~= step_results(old_values, targets, outcomes@));
        self.values = values;
        self.mapping = kept;
    }

    /// The outcomes of all calls, by call number.
    pub fn into_results(self) -> (r: Vec<Result<V, String>>)
        ensures
            r@ == self.results(),
    {
        self.values
    }
}

/// A call that has not completed has the outcome "Not ready".
pub proof fn lemma_not_ready_text()
    ensures
        not_ready() == seq!['N', 'o', 't', ' ', 'r', 'e', 'a', 'd', 'y'],
{
    reveal_strlit("Not ready");
    assert(not_ready() =~= seq!['N', 'o', 't', ' ', 'r', 'e', 'a', 'd', 'y']);
}

} // verus!
