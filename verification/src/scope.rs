use vstd::prelude::*;

verus! {

// Scope paths encode the lexical tree as root-to-leaf sequences of fresh ids.
// The partial order "p is an ancestor of q" is "p is a prefix of q", and the
// lowest common ancestor of two paths is their longest common prefix.

/// Length of the longest common prefix of two scope paths.
pub open spec fn common_prefix_len(a: Seq<u64>, b: Seq<u64>) -> nat
    decreases a.len(),
{
    if a.len() == 0 || b.len() == 0 || a[0] != b[0] {
        0
    } else {
        1 + common_prefix_len(a.skip(1), b.skip(1))
    }
}

/// The lowest common ancestor of two scope paths: their longest common prefix.
pub open spec fn lca(a: Seq<u64>, b: Seq<u64>) -> Seq<u64> {
    a.take(common_prefix_len(a, b) as int)
}

/// `p` is an ancestor of (or equal to) `q`.
pub open spec fn is_prefix_of(p: Seq<u64>, q: Seq<u64>) -> bool {
    p.len() <= q.len() && q.take(p.len() as int) == p
}

/// The longest common prefix is no longer than either path, both paths agree
/// on it, and it cannot be extended: either it exhausts one path or the next
/// elements differ.
pub proof fn lemma_cpl_bounds(a: Seq<u64>, b: Seq<u64>)
    ensures
        common_prefix_len(a, b) <= a.len(),
        common_prefix_len(a, b) <= b.len(),
        forall|i: int| 0 <= i < common_prefix_len(a, b) ==> a[i] == b[i],
        common_prefix_len(a, b) < a.len() && common_prefix_len(a, b) < b.len() ==> a[
            common_prefix_len(a, b) as int
        ] != b[common_prefix_len(a, b) as int],
    decreases a.len(),
{
    if a.len() == 0 || b.len() == 0 || a[0] != b[0] {
    } else {
        lemma_cpl_bounds(a.skip(1), b.skip(1));
        assert forall|i: int| 0 <= i < common_prefix_len(a, b) implies a[i] == b[i] by {
            if i > 0 {
                assert(a.skip(1)[i - 1] == a[i]);
                assert(b.skip(1)[i - 1] == b[i]);
            }
        }
        let n = common_prefix_len(a, b) as int;
        if n < a.len() && n < b.len() {
            assert(a.skip(1)[n - 1] == a[n]);
            assert(b.skip(1)[n - 1] == b[n]);
        }
    }
}

/// The longest common prefix is the unique n that is bounded by both lengths,
/// on which both paths agree, and which cannot be extended.
pub proof fn lemma_cpl_unique(a: Seq<u64>, b: Seq<u64>, n: nat)
    requires
        n <= a.len(),
        n <= b.len(),
        forall|i: int| 0 <= i < n ==> a[i] == b[i],
        n == a.len() || n == b.len() || a[n as int] != b[n as int],
    ensures
        common_prefix_len(a, b) == n,
{
    lemma_cpl_bounds(a, b);
    let m = common_prefix_len(a, b);
    if m < n {
        assert(a[m as int] == b[m as int]);
    }
}

pub proof fn lemma_cpl_comm(a: Seq<u64>, b: Seq<u64>)
    ensures
        common_prefix_len(a, b) == common_prefix_len(b, a),
{
    lemma_cpl_bounds(a, b);
    lemma_cpl_unique(b, a, common_prefix_len(a, b));
}

/// The lowest common ancestor is an ancestor of both paths.
pub proof fn lemma_lca_is_ancestor(a: Seq<u64>, b: Seq<u64>)
    ensures
        is_prefix_of(lca(a, b), a),
        is_prefix_of(lca(a, b), b),
    decreases a.len(),
{
    lemma_cpl_bounds(a, b);
    let n = common_prefix_len(a, b) as int;
    assert(a.take(n).take(n) =~= a.take(n));
    assert(b.take(n) =~= a.take(n));
}

/// Any common ancestor of two paths is an ancestor of their lowest common
/// ancestor: the lca really is the lowest.
pub proof fn lemma_lca_is_lowest(a: Seq<u64>, b: Seq<u64>, p: Seq<u64>)
    requires
        is_prefix_of(p, a),
        is_prefix_of(p, b),
    ensures
        is_prefix_of(p, lca(a, b)),
{
    lemma_cpl_bounds(a, b);
    let n = common_prefix_len(a, b) as int;
    assert forall|i: int| 0 <= i < p.len() implies a[i] == b[i] by {
        assert(a.take(p.len() as int)[i] == a[i]);
        assert(b.take(p.len() as int)[i] == b[i]);
    }
    if p.len() > n {
        assert(a[n] == b[n]);
    }
    assert(a.take(n).take(p.len() as int) =~= p);
}

/// The lowest common ancestor of a path with itself is the path: lca is
/// idempotent.
pub proof fn lemma_lca_idempotent(a: Seq<u64>)
    ensures
        lca(a, a) == a,
{
    lemma_cpl_unique(a, a, a.len());
    assert(a.take(a.len() as int) =~= a);
}

/// lca is commutative.
pub proof fn lemma_lca_comm(a: Seq<u64>, b: Seq<u64>)
    ensures
        lca(a, b) == lca(b, a),
{
    lemma_cpl_comm(a, b);
    lemma_cpl_bounds(a, b);
    assert(lca(a, b) =~= lca(b, a));
}

/// Truncating one argument truncates the common prefix accordingly.
proof fn lemma_cpl_take(a: Seq<u64>, b: Seq<u64>, m: nat)
    requires
        m <= a.len(),
    ensures
        common_prefix_len(a.take(m as int), b) == vstd::math::min(
            m as int,
            common_prefix_len(a, b) as int,
        ),
{
    lemma_cpl_bounds(a, b);
    let n = common_prefix_len(a, b);
    if n <= m {
        lemma_cpl_unique(a.take(m as int), b, n);
    } else {
        lemma_cpl_unique(a.take(m as int), b, m);
    }
}

/// lca is associative.
pub proof fn lemma_lca_assoc(a: Seq<u64>, b: Seq<u64>, c: Seq<u64>)
    ensures
        lca(lca(a, b), c) == lca(a, lca(b, c)),
{
    let x = common_prefix_len(a, b);
    let y = common_prefix_len(a, c);
    let z = common_prefix_len(b, c);
    lemma_cpl_bounds(a, b);
    lemma_cpl_bounds(a, c);
    lemma_cpl_bounds(b, c);
    // Of the three pairwise common-prefix lengths, the least two are equal,
    // so min(x, y) == min(x, z).
    if x < z && y < z {
        assert(x == y) by {
            if x < y {
                assert(b[x as int] == c[x as int]);
                assert(a[x as int] == c[x as int]);
            } else if y < x {
                assert(a[y as int] == b[y as int]);
                assert(b[y as int] == c[y as int]);
            }
        }
    } else if x < y && z < y {
        assert(x == z) by {
            if x < z {
                assert(a[x as int] == c[x as int]);
                assert(b[x as int] == c[x as int]);
            } else if z < x {
                assert(a[z as int] == b[z as int]);
                assert(a[z as int] == c[z as int]);
            }
        }
    } else {
        // y >= z and either x >= z (then min both sides is bounded by z)
        // or similar; handled below by the uniqueness computations.
    }
    lemma_cpl_take(a, c, x);
    lemma_cpl_comm(b, c);
    lemma_cpl_comm(a, b);
    lemma_cpl_take(b, a, z);
    // cpl(lca(a,b), c) == min(x, y); cpl(a, lca(b,c)) == min(z, x).
    assert(common_prefix_len(a.take(x as int), c) == vstd::math::min(x as int, y as int));
    assert(common_prefix_len(b.take(z as int), a) == vstd::math::min(z as int, x as int));
    lemma_cpl_comm(a, b.take(z as int));
    let l = vstd::math::min(x as int, vstd::math::min(y as int, z as int));
    assert(vstd::math::min(x as int, y as int) == l || vstd::math::min(z as int, x as int) == l);
    assert(vstd::math::min(x as int, y as int) == vstd::math::min(z as int, x as int));
    assert(lca(lca(a, b), c) =~= lca(a, lca(b, c)));
}

/// Being an ancestor is transitive.
pub proof fn lemma_prefix_transitive(p: Seq<u64>, q: Seq<u64>, r: Seq<u64>)
    requires
        is_prefix_of(p, q),
        is_prefix_of(q, r),
    ensures
        is_prefix_of(p, r),
{
    assert forall|i: int| 0 <= i < p.len() implies r.take(p.len() as int)[i] == p[i] by {
        assert(q.take(p.len() as int)[i] == p[i]);
        assert(r.take(q.len() as int)[i] == q[i]);
    }
    assert(r.take(p.len() as int) =~= p);
}

/// Returns the longest common prefix of two scope paths: the lowest common
/// ancestor in the scope tree. If one path is a prefix of the other, the
/// shorter; if they are equal, either one.
pub fn get_common_ancestor(scope: &[u64], scope_prev: &[u64]) -> (r: Vec<u64>)
    ensures
        r@ == lca(scope@, scope_prev@),
{
    let a_len = scope.len();
    let b_len = scope_prev.len();
    let mut i: usize = 0;
    while i < a_len && i < b_len && scope[i] == scope_prev[i]
        invariant
            i <= a_len,
            i <= b_len,
            a_len == scope@.len(),
            b_len == scope_prev@.len(),
            forall|j: int| 0 <= j < i ==> scope@[j] == scope_prev@[j],
        decreases a_len - i,
    {
        i = i + 1;
    }
    proof {
        lemma_cpl_unique(scope@, scope_prev@, i as nat);
    }
    let mut r: Vec<u64> = Vec::new();
    let mut j: usize = 0;
    while j < i
        invariant
            j <= i,
            i <= scope@.len(),
            r@ =~= scope@.take(j as int),
        decreases i - j,
    {
        r.push(scope[j]);
        j = j + 1;
    }
    proof {
        assert(r@ =~= lca(scope@, scope_prev@));
    }
    r
}

/// Copies a scope path.
pub fn clone_scope(v: &Vec<u64>) -> (r: Vec<u64>)
    ensures
        r@ == v@,
{
    let r = v.clone();
    proof {
        assert(r@ =~= v@);
    }
    r
}

/// The value a saturated id counter takes after one draw.
pub open spec fn next_count(c: u64) -> u64 {
    if c < u64::MAX {
        (c + 1) as u64
    } else {
        c
    }
}

/// A process-local counter of fresh ids. Ids are handed out in increasing
/// order, so they are unique within one compilation as long as the counter
/// has not reached its ceiling.
pub struct IdGenerator {
    pub count: u64,
}

impl IdGenerator {
    pub fn new() -> (r: IdGenerator)
        ensures
            r.count == 0,
    {
        IdGenerator { count: 0 }
    }

    /// Draws a fresh id: returns the current count and advances it.
    pub fn next(&mut self) -> (id: u64)
        ensures
            id == old(self).count,
            final(self).count == next_count(old(self).count),
    {
        let id = self.count;
        if self.count < u64::MAX {
            self.count = self.count + 1;
        }
        id
    }
}

} // verus!
