//! The connection registry: the ordered collection of live client
//! connections. The acceptor task appends to it, and the broadcast
//! relay walks it and prunes, by index, every connection whose write
//! failed. The caller serializes all access behind one lock; this
//! module supplies the verified bookkeeping that runs under that lock.

use vstd::prelude::*;

verus! {

/// The connections that survive a prune of `s` by the index list
/// `failed`, looking only at the first `n` positions: position `i`
/// is kept exactly when `failed` does not mention `i`. Order is
/// preserved.
pub open spec fn survivors<C>(s: Seq<C>, failed: Seq<usize>, n: int) -> Seq<C>
    decreases n,
{
    if n <= 0 {
        Seq::empty()
    } else {
        let prefix = survivors(s, failed, n - 1);
        if failed.contains((n - 1) as usize) {
            prefix
        } else {
            prefix.push(s[n - 1])
        }
    }
}

/// The result of removing from `s` every position listed in `failed`:
/// the subsequence of `s` at the positions that `failed` does not
/// mention, in their original order. Positions in `failed` that lie
/// beyond `s`, or occur twice, remove nothing further.
pub open spec fn remove_indices<C>(s: Seq<C>, failed: Seq<usize>) -> Seq<C> {
    survivors(s, failed, s.len() as int)
}

pub(crate) proof fn lemma_push_contains<A>(s: Seq<A>, x: A, y: A)
    ensures
        s.push(x).contains(y) <==> (s.contains(y) || y == x),
{
    if s.contains(y) {
        let k = choose|k: int| 0 <= k < s.len() && s[k] == y;
        assert(s.push(x)[k] == y);
    }
    if y == x {
        assert(s.push(x)[s.len() as int] == y);
    }
    if s.push(x).contains(y) {
        let k = choose|k: int| 0 <= k < s.push(x).len() && s.push(x)[k] == y;
        if k < s.len() {
            assert(s[k] == y);
        }
    }
}

proof fn lemma_survivors_extra_index<C>(s: Seq<C>, failed: Seq<usize>, i: usize, n: int)
    requires
        failed.contains(i) || i >= s.len(),
        0 <= n <= s.len(),
    ensures
        survivors(s, failed.push(i), n) == survivors(s, failed, n),
    decreases n,
{
    if n > 0 {
        lemma_survivors_extra_index(s, failed, i, n - 1);
        lemma_push_contains(failed, i, (n - 1) as usize);
    }
}

/// Pruning is idempotent in each recorded position: a connection whose
/// write fails twice before the sweep, and whose position is therefore
/// recorded twice, is removed once; the duplicate entry removes no
/// unrelated connection.
pub proof fn lemma_prune_duplicate_index<C>(s: Seq<C>, failed: Seq<usize>, i: usize)
    requires
        failed.contains(i),
    ensures
        remove_indices(s, failed.push(i)) == remove_indices(s, failed),
{
    lemma_survivors_extra_index(s, failed, i, s.len() as int);
}

/// Pruning a position that is already absent — one at or beyond the
/// end of the registry — removes no connection at all.
pub proof fn lemma_prune_beyond_len<C>(s: Seq<C>, failed: Seq<usize>, i: usize)
    requires
        i >= s.len(),
    ensures
        remove_indices(s, failed.push(i)) == remove_indices(s, failed),
{
    lemma_survivors_extra_index(s, failed, i, s.len() as int);
}

/// Whether the index list `failed` mentions position `i`.
fn mentions(failed: &Vec<usize>, i: usize) -> (b: bool)
    ensures
        b == failed@.contains(i),
{
    let mut k: usize = 0;
    while k < failed.len()
        invariant
            k <= failed@.len(),
            forall|j: int| 0 <= j < k ==> failed@[j] != i,
        decreases failed@.len() - k,
    {
        if failed[k] == i {
            assert(failed@.contains(i)) by {
                assert(failed@[k as int] == i);
            }
            return true;
        }
        k = k + 1;
    }
    false
}

/// The ordered, in-memory collection of live client connections.
///
/// Every connection in the registry is treated as writable until a
/// write to it fails; a failed connection is removed by the next
/// prune and never re-enters (a reconnecting client is a fresh
/// connection, appended at the end).
pub struct Registry<C> {
    conns: Vec<C>,
}

impl<C> View for Registry<C> {
    type V = Seq<C>;

    closed spec fn view(&self) -> Seq<C> {
        self.conns@
    }
}

impl<C> Registry<C> {
    /// An empty registry: no clients are connected at startup.
    pub fn new() -> (r: Self)
        ensures
            r@ =~= Seq::<C>::empty(),
    {
        Registry { conns: Vec::new() }
    }

    /// How many connections are currently registered.
    pub fn len(&self) -> (n: usize)
        ensures
            n == self@.len(),
    {
        self.conns.len()
    }

    /// Appends a freshly accepted connection at the end: every
    /// connection registered before keeps its position, and the new
    /// one joins only the passes that start after this insertion.
    pub fn insert(&mut self, conn: C)
        ensures
            final(self)@ == old(self)@.push(conn),
    {
        self.conns.push(conn);
    }

    /// Borrows the connection at position `i` read-only.
    pub fn connection(&self, i: usize) -> (conn: &C)
        requires
            i < self@.len(),
        ensures
            *conn == self@[i as int],
    {
        &self.conns[i]
    }

    /// Borrows the connection at position `i` so that one framed
    /// message can be written to it during a broadcast pass. The
    /// registry itself is reshaped only through the borrow.
    pub fn connection_mut(&mut self, i: usize) -> (conn: &mut C)
        requires
            i < old(self)@.len(),
        ensures
            *conn == old(self)@[i as int],
            final(self)@ == old(self)@.update(i as int, *final(conn)),
    {
        &mut self.conns[i]
    }

    /// Removes every position recorded in `failed` in one sweep,
    /// rebuilding the collection so that shifting positions cannot
    /// remove the wrong connection. A duplicate or out-of-range entry
    /// in `failed` removes nothing further and never panics.
    pub fn snapshot_and_prune(&mut self, failed: &Vec<usize>)
        ensures
            final(self)@ == remove_indices(old(self)@, failed@),
    {
        let ghost orig = self.conns@;
        let n0 = self.conns.len();
        let mut kept: Vec<C> = Vec::new();
        let mut i: usize = 0;
        while self.conns.len() > 0
            invariant
                orig.len() == n0,
                i + self.conns@.len() == orig.len(),
                self.conns@ =~= orig.skip(i as int),
                kept@ =~= survivors(orig, failed@, i as int),
            decreases self.conns@.len(),
        {
            let c = self.conns.remove(0);
            assert(c == orig[i as int]);
            if !mentions(failed, i) {
                kept.push(c);
            }
            i = i + 1;
            assert(self.conns@ =~= orig.skip(i as int));
        }
        self.conns = kept;
    }
}

} // verus!
