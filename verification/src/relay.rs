//! The broadcast relay's send pass. For each queued message the relay
//! walks the registry in order, writes one framed copy of the payload
//! to every connection, records the position of every connection whose
//! write failed, and prunes exactly those positions afterwards — one
//! dead client never blocks delivery to the others, and no failure
//! ever ends the loop.

use vstd::prelude::*;

use crate::registry::Registry;
use crate::registry::lemma_push_contains;
use crate::registry::remove_indices;
use crate::registry::survivors;

verus! {

/// What the relay loop got for one queue item.
#[derive(Clone, PartialEq, Eq, Debug)]
pub enum RelayEvent {
    /// A message arrived and its extracted payload is in hand.
    Received(String),
    /// The queue receive failed (the producer may be gone).
    ReceiveFailed,
    /// The message arrived but its payload could not be extracted.
    PayloadFailed,
    /// The registry lock could not be acquired this time round.
    LockFailed,
}

/// What the relay loop does with one queue item.
#[derive(Clone, PartialEq, Eq, Debug)]
pub enum RelayAction {
    /// Run one full broadcast pass, writing exactly this payload as
    /// one framed text message to every connection.
    Broadcast(String),
    /// Log, drop this item, and wait for the next one.
    Skip,
}

/// The relay's decision for one queue item.
pub open spec fn relay_decision(ev: RelayEvent) -> RelayAction {
    match ev {
        RelayEvent::Received(p) => RelayAction::Broadcast(p),
        _ => RelayAction::Skip,
    }
}

/// The relay loop's failure policy for one queue item: only a message
/// whose payload is in hand is broadcast, and what is broadcast is
/// that payload, unchanged; a failed receive, a bad payload and an
/// unavailable lock each skip just this item. No failure ends the
/// loop — the action type has no exit, so a dead producer leaves the
/// relay serving a frozen stream rather than crashing.
pub fn relay_step(ev: RelayEvent) -> (a: RelayAction)
    ensures
        a == relay_decision(ev),
{
    match ev {
        RelayEvent::Received(p) => RelayAction::Broadcast(p),
        _ => RelayAction::Skip,
    }
}

/// The positions among the first `n` write outcomes that failed, in
/// ascending order.
pub open spec fn failures_upto(outcomes: Seq<bool>, n: int) -> Seq<usize>
    decreases n,
{
    if n <= 0 {
        Seq::empty()
    } else if outcomes[n - 1] {
        failures_upto(outcomes, n - 1)
    } else {
        failures_upto(outcomes, n - 1).push((n - 1) as usize)
    }
}

/// The positions of all failed writes of one pass, in ascending order.
pub open spec fn failed_of(outcomes: Seq<bool>) -> Seq<usize> {
    failures_upto(outcomes, outcomes.len() as int)
}

/// Among the first `n` connections of `s`, those whose write succeeded
/// (`outcomes` true), in their registry order. These are exactly the
/// connections that received the payload and that the pass keeps.
pub open spec fn delivered_upto<C>(s: Seq<C>, outcomes: Seq<bool>, n: int) -> Seq<C>
    decreases n,
{
    if n <= 0 {
        Seq::empty()
    } else if outcomes[n - 1] {
        delivered_upto(s, outcomes, n - 1).push(s[n - 1])
    } else {
        delivered_upto(s, outcomes, n - 1)
    }
}

/// The registry after one full broadcast pass over `s` with write
/// outcomes `outcomes`: the connections that accepted the write, in
/// their original order. Because a connection receives the payload
/// exactly when its write succeeds, this is also the list of
/// connections the payload was delivered to.
pub open spec fn pass_result<C>(s: Seq<C>, outcomes: Seq<bool>) -> Seq<C> {
    delivered_upto(s, outcomes, s.len() as int)
}

/// The registry after a whole run of broadcast passes, first to last.
pub open spec fn run_passes<C>(s: Seq<C>, passes: Seq<Seq<bool>>) -> Seq<C>
    decreases passes.len(),
{
    if passes.len() == 0 {
        s
    } else {
        run_passes(pass_result(s, passes[0]), passes.drop_first())
    }
}

proof fn lemma_failures_mention(outcomes: Seq<bool>, n: int, i: usize)
    requires
        0 <= n <= outcomes.len() <= usize::MAX,
    ensures
        failures_upto(outcomes, n).contains(i) <==> (i < n && !outcomes[i as int]),
    decreases n,
{
    if n > 0 {
        lemma_failures_mention(outcomes, n - 1, i);
        if !outcomes[n - 1] {
            lemma_push_contains(failures_upto(outcomes, n - 1), (n - 1) as usize, i);
        }
    }
}

proof fn lemma_prune_failed_upto<C>(s: Seq<C>, outcomes: Seq<bool>, n: int)
    requires
        outcomes.len() == s.len() <= usize::MAX,
        0 <= n <= s.len(),
    ensures
        survivors(s, failed_of(outcomes), n) == delivered_upto(s, outcomes, n),
    decreases n,
{
    if n > 0 {
        lemma_prune_failed_upto(s, outcomes, n - 1);
        lemma_failures_mention(outcomes, outcomes.len() as int, (n - 1) as usize);
    }
}

/// Removing exactly the failed positions of a pass keeps exactly the
/// connections whose write succeeded, in order.
pub proof fn lemma_prune_failed_is_pass_result<C>(s: Seq<C>, outcomes: Seq<bool>)
    requires
        outcomes.len() == s.len() <= usize::MAX,
    ensures
        remove_indices(s, failed_of(outcomes)) == pass_result(s, outcomes),
{
    lemma_prune_failed_upto(s, outcomes, s.len() as int);
}

/// The positions whose write failed during one pass, in ascending
/// order: position `i` is recorded exactly when `outcomes[i]` is
/// false.
pub fn failed_indices(outcomes: &Vec<bool>) -> (failed: Vec<usize>)
    ensures
        failed@ == failed_of(outcomes@),
{
    let mut failed: Vec<usize> = Vec::new();
    let mut i: usize = 0;
    while i < outcomes.len()
        invariant
            i <= outcomes@.len(),
            failed@ =~= failures_upto(outcomes@, i as int),
        decreases outcomes@.len() - i,
    {
        if !outcomes[i] {
            failed.push(i);
        }
        i = i + 1;
    }
    proof {
        assert(failed@ =~= failed_of(outcomes@));
    }
    failed
}

/// Ends one broadcast pass: given the write outcome for each
/// connection, in registry order, removes exactly the connections
/// whose write failed. The caller must have walked the whole registry,
/// so one outcome per connection is owed; the pass never touches the
/// connections that accepted the write.
pub fn apply_pass<C>(reg: &mut Registry<C>, outcomes: &Vec<bool>)
    requires
        outcomes@.len() == old(reg)@.len(),
    ensures
        final(reg)@ == pass_result(old(reg)@, outcomes@),
{
    let n = outcomes.len();
    assert(old(reg)@.len() == n);
    let failed = failed_indices(outcomes);
    reg.snapshot_and_prune(&failed);
    proof {
        lemma_prune_failed_is_pass_result(old(reg)@, outcomes@);
    }
}

proof fn lemma_flawless_delivered_upto<C>(s: Seq<C>, outcomes: Seq<bool>, n: int)
    requires
        0 <= n <= s.len(),
        forall|i: int| 0 <= i < n ==> outcomes[i],
    ensures
        delivered_upto(s, outcomes, n) == s.take(n),
    decreases n,
{
    if n <= 0 {
        assert(delivered_upto(s, outcomes, n) =~= s.take(n));
    } else {
        lemma_flawless_delivered_upto(s, outcomes, n - 1);
        assert(s.take(n - 1).push(s[n - 1]) =~= s.take(n));
    }
}

/// A broadcast pass with no write failure delivers the payload to
/// every registered connection, in registry order, and leaves the
/// registry exactly as it was.
pub proof fn lemma_flawless_pass_keeps_all<C>(s: Seq<C>, outcomes: Seq<bool>)
    requires
        outcomes.len() == s.len(),
        forall|i: int| 0 <= i < outcomes.len() ==> outcomes[i],
    ensures
        pass_result(s, outcomes) == s,
{
    lemma_flawless_delivered_upto(s, outcomes, s.len() as int);
    assert(s.take(s.len() as int) =~= s);
}

/// Over any run of broadcast passes in which no write ever fails, the
/// registry before every single pass is the original registry, so
/// every connection receives every message of the run, one message per
/// pass, in the order the passes (and so the bus messages) arrived.
pub proof fn lemma_flawless_run_keeps_all<C>(s: Seq<C>, passes: Seq<Seq<bool>>)
    requires
        forall|p: int|
            0 <= p < passes.len() ==> ((#[trigger] passes[p]).len() == s.len() && forall|i: int|
                0 <= i < passes[p].len() ==> passes[p][i]),
    ensures
        run_passes(s, passes) == s,
        forall|p: int| 0 <= p < passes.len() ==> #[trigger] run_passes(s, passes.take(p)) == s,
    decreases passes.len(),
{
    if passes.len() > 0 {
        lemma_flawless_pass_keeps_all(s, passes[0]);
        assert(forall|p: int|
            0 <= p < passes.drop_first().len() ==> #[trigger] passes.drop_first()[p] == passes[p
                + 1]);
        lemma_flawless_run_keeps_all(s, passes.drop_first());
    }
    assert forall|p: int| 0 <= p < passes.len() implies #[trigger] run_passes(s, passes.take(p))
        == s by {
        assert(forall|q: int|
            0 <= q < passes.take(p).len() ==> #[trigger] passes.take(p)[q] == passes[q]);
        lemma_flawless_run_keeps_all(s, passes.take(p));
    }
}

proof fn lemma_delivered_membership<C>(s: Seq<C>, outcomes: Seq<bool>, n: int)
    requires
        0 <= n <= s.len(),
    ensures
        forall|x: C|
            #[trigger] delivered_upto(s, outcomes, n).contains(x) <==> exists|j: int|
                0 <= j < n && outcomes[j] && s[j] == x,
    decreases n,
{
    if n > 0 {
        lemma_delivered_membership(s, outcomes, n - 1);
        let prev = delivered_upto(s, outcomes, n - 1);
        assert forall|x: C| #[trigger] delivered_upto(s, outcomes, n).contains(x) implies exists|
            j: int,
        | 0 <= j < n && outcomes[j] && s[j] == x by {
            if outcomes[n - 1] {
                lemma_push_contains(prev, s[n - 1], x);
                if prev.contains(x) {
                    let j = choose|j: int| 0 <= j < n - 1 && outcomes[j] && s[j] == x;
                    assert(0 <= j < n && outcomes[j] && s[j] == x);
                } else {
                    assert(0 <= n - 1 < n && outcomes[n - 1] && s[n - 1] == x);
                }
            } else {
                let j = choose|j: int| 0 <= j < n - 1 && outcomes[j] && s[j] == x;
                assert(0 <= j < n && outcomes[j] && s[j] == x);
            }
        }
        assert forall|x: C| (exists|j: int| 0 <= j < n && outcomes[j] && s[j] == x) implies #[trigger] delivered_upto(
            s,
            outcomes,
            n,
        ).contains(x) by {
            let j = choose|j: int| 0 <= j < n && outcomes[j] && s[j] == x;
            if outcomes[n - 1] {
                lemma_push_contains(prev, s[n - 1], x);
                if j < n - 1 {
                    assert(prev.contains(x));
                }
            } else {
                assert(j < n - 1);
                assert(prev.contains(x));
            }
        }
    }
}

/// When the write to the connection at position `i` fails during a
/// pass, that connection (and only a connection whose write failed) is
/// out of the registry once the pass ends, while every connection
/// whose write succeeded stays registered and has received the
/// payload. The distinctness hypothesis says no connection is
/// registered twice.
pub proof fn lemma_failed_write_removed<C>(s: Seq<C>, outcomes: Seq<bool>, i: int)
    requires
        outcomes.len() == s.len(),
        0 <= i < s.len(),
        !outcomes[i],
        forall|j: int, k: int| 0 <= j < k < s.len() ==> s[j] != s[k],
    ensures
        !pass_result(s, outcomes).contains(s[i]),
        forall|j: int| 0 <= j < s.len() && outcomes[j] ==> pass_result(s, outcomes).contains(s[j]),
{
    lemma_delivered_membership(s, outcomes, s.len() as int);
    if pass_result(s, outcomes).contains(s[i]) {
        let j = choose|j: int| 0 <= j < s.len() && outcomes[j] && s[j] == s[i];
        if j < i {
            assert(s[j] != s[i]);
        } else if i < j {
            assert(s[i] != s[j]);
        }
        assert(false);
    }
    assert forall|j: int| 0 <= j < s.len() && outcomes[j] implies pass_result(s, outcomes).contains(
        s[j],
    ) by {
        assert(0 <= j < s.len() && outcomes[j] && s[j] == s[j]);
    }
}

proof fn lemma_pass_result_within<C>(s: Seq<C>, outcomes: Seq<bool>)
    ensures
        forall|x: C| #[trigger] pass_result(s, outcomes).contains(x) ==> s.contains(x),
{
    lemma_delivered_membership(s, outcomes, s.len() as int);
    assert forall|x: C| #[trigger] pass_result(s, outcomes).contains(x) implies s.contains(x) by {
        let j = choose|j: int| 0 <= j < s.len() && outcomes[j] && s[j] == x;
        assert(s[j] == x);
    }
}

/// A connection that is not registered when a pass starts — one whose
/// acceptance has not completed — receives nothing of that pass: it is
/// neither among the delivered connections nor in the pass's result.
pub proof fn lemma_unregistered_receives_nothing<C>(s: Seq<C>, outcomes: Seq<bool>, c: C)
    requires
        !s.contains(c),
    ensures
        !pass_result(s, outcomes).contains(c),
{
    lemma_pass_result_within(s, outcomes);
}

/// Broadcast passes only ever remove connections: once a connection is
/// absent from the registry it stays absent through any further run of
/// passes, whatever their outcomes.
pub proof fn lemma_gone_stays_gone<C>(s: Seq<C>, passes: Seq<Seq<bool>>, c: C)
    requires
        !s.contains(c),
    ensures
        !run_passes(s, passes).contains(c),
    decreases passes.len(),
{
    if passes.len() > 0 {
        lemma_pass_result_within(s, passes[0]);
        lemma_gone_stays_gone(pass_result(s, passes[0]), passes.drop_first(), c);
    }
}

proof fn lemma_delivered_upto_push<C>(s: Seq<C>, outcomes: Seq<bool>, c: C, ok: bool, n: int)
    requires
        0 <= n <= s.len(),
        outcomes.len() == s.len(),
    ensures
        delivered_upto(s.push(c), outcomes.push(ok), n) == delivered_upto(s, outcomes, n),
    decreases n,
{
    if n > 0 {
        lemma_delivered_upto_push(s, outcomes, c, ok, n - 1);
        assert(s.push(c)[n - 1] == s[n - 1]);
        assert(outcomes.push(ok)[n - 1] == outcomes[n - 1]);
    }
}

/// A connection accepted around a broadcast pass never disturbs the
/// others: whether it is appended before the pass (then written to,
/// with outcome `ok`) or after it, the connections that were already
/// registered end the pass exactly as they would have alone, and the
/// new connection sits at the end.
pub proof fn lemma_late_insert_undisturbed<C>(s: Seq<C>, outcomes: Seq<bool>, c: C, ok: bool)
    requires
        outcomes.len() == s.len(),
    ensures
        pass_result(s.push(c), outcomes.push(ok)) == if ok {
            pass_result(s, outcomes).push(c)
        } else {
            pass_result(s, outcomes)
        },
{
    lemma_delivered_upto_push(s, outcomes, c, ok, s.len() as int);
    assert(s.push(c).len() == s.len() + 1);
    assert(s.push(c)[s.len() as int] == c);
    assert(outcomes.push(ok)[s.len() as int] == ok);
}

} // verus!
