use vstd::prelude::*;
use vstd::multiset::Multiset;
use crate::models::Team;

verus! {

/// Relies on rand::Rng::gen_range on rand::thread_rng(): a value drawn from
/// `0..n`; the call panics on an empty range.
#[verifier::external_body]
fn random_below(n: usize) -> (r: usize)
    requires
        n > 0,
    ensures
        r < n,
{
    rand::Rng::gen_range(&mut rand::thread_rng(), 0..n)
}

/// How often each team is entered in the draw pool: `k` times, or none when
/// `k` is not positive.
pub open spec fn entries_per_team(k: int) -> nat {
    if k > 0 { k as nat } else { 0 }
}

/// The size of the draw pool: each of `n` teams entered `k` times (none when
/// `k` is not positive).
pub open spec fn pool_size(n: nat, k: int) -> nat {
    if k > 0 { (n * k) as nat } else { 0 }
}

/// The team indices that the pairs hold, each pair contributing both.
pub open spec fn pair_slots(pairs: Seq<(usize, usize)>) -> Multiset<usize>
    decreases pairs.len(),
{
    if pairs.len() == 0 {
        Multiset::empty()
    } else {
        pair_slots(pairs.drop_last()).insert(pairs.last().0).insert(pairs.last().1)
    }
}

/// What a round's pairing of `n` teams with target `k` satisfies: it holds at
/// most half the pool, and exactly half (an odd leftover dropped) when each
/// team is in the pool at most once; each pair names two different teams by
/// index below `n`; no team plays more than `k` of them, and at most one team
/// plays fewer than `k`.
pub open spec fn valid_pairing(n: nat, k: int, pairs: Seq<(usize, usize)>) -> bool {
    &&& pairs.len() <= pool_size(n, k) / 2
    &&& forall|t: usize| #[trigger] pair_slots(pairs).count(t) <= entries_per_team(k)
    &&& forall|t: usize, u: usize|
        #![trigger pair_slots(pairs).count(t), pair_slots(pairs).count(u)]
        t < n && u < n && t != u ==> pair_slots(pairs).count(t) == entries_per_team(k)
            || pair_slots(pairs).count(u) == entries_per_team(k)
    &&& k <= 1 ==> pairs.len() == pool_size(n, k) / 2
    &&& forall|p: int|
        0 <= p < pairs.len() ==> (#[trigger] pairs[p]).0 < n && pairs[p].1 < n && pairs[p].0
            != pairs[p].1
}

/// Every team below `n` but `s` has all its `k` matches.
pub open spec fn full_except(n: nat, k: int, pairs: Seq<(usize, usize)>, s: usize) -> bool {
    forall|x: usize| x < n && x != s ==> #[trigger] pair_slots(pairs).count(x) == entries_per_team(k)
}

proof fn lemma_empty_pool(s: Seq<usize>)
    requires
        s.len() == 0,
    ensures
        forall|x: usize| #[trigger] s.to_multiset().count(x) == 0,
{
    broadcast use vstd::seq_lib::group_to_multiset_ensures;
    broadcast use vstd::multiset::group_multiset_axioms;
    assert(s.to_multiset().len() == 0);
    assert(s.to_multiset() =~= Multiset::empty());
}

proof fn lemma_swap_remove_multiset(s: Seq<usize>, i: int)
    requires
        0 <= i < s.len(),
    ensures
        s.to_multiset().count(s[i]) > 0,
        forall|x: usize|
            #[trigger] s.update(i, s.last()).drop_last().to_multiset().count(x) == s.to_multiset().count(
                x,
            ) - (if x == s[i] { 1int } else { 0int }),
{
    broadcast use vstd::seq_lib::group_to_multiset_ensures;
    broadcast use vstd::multiset::group_multiset_axioms;
    let u = s.update(i, s.last());
    let l = s.last();
    vstd::seq_lib::to_multiset_update(s, i, l);
    assert(u.drop_last().push(u.last()) =~= u);
    assert(u.last() == l);
    assert(s.contains(s[i]));
    assert(s.to_multiset().count(s[i]) > 0);
    assert forall|x: usize|
        #[trigger] u.drop_last().to_multiset().count(x) == s.to_multiset().count(x) - (if x == s[i] {
            1int
        } else {
            0int
        }) by {
        assert(u.to_multiset() == u.drop_last().to_multiset().insert(l));
        assert(u.to_multiset() == s.to_multiset().insert(l).remove(s[i]));
        let c = s.to_multiset().count(x);
        let d = u.drop_last().to_multiset().count(x);
        assert(u.drop_last().to_multiset().insert(l).count(x) == d + (if x == l { 1int } else { 0int }));
        assert(s.to_multiset().insert(l).count(x) == c + (if x == l { 1int } else { 0int }));
        assert(s.to_multiset().insert(l).count(s[i]) > 0);
        assert(s.to_multiset().insert(l).remove(s[i]).count(x) == s.to_multiset().insert(l).count(x) - (
        if x == s[i] {
            1int
        } else {
            0int
        }));
    }
}

proof fn lemma_swap_remove_distinct(old_pool: Seq<usize>, i: int)
    requires
        0 <= i < old_pool.len(),
        old_pool.no_duplicates(),
    ensures
        old_pool.update(i, old_pool.last()).drop_last().no_duplicates(),
        !old_pool.update(i, old_pool.last()).drop_last().contains(old_pool[i]),
{
    let np = old_pool.update(i, old_pool.last()).drop_last();
    let last = old_pool.len() - 1;
    assert forall|p: int, q: int| 0 <= p < np.len() && 0 <= q < np.len() && p != q implies np[p]
        != np[q] by {
        let op = if p == i { last } else { p };
        let oq = if q == i { last } else { q };
        assert(np[p] == old_pool[op]);
        assert(np[q] == old_pool[oq]);
    }
    if np.contains(old_pool[i]) {
        let p = choose|p: int| 0 <= p < np.len() && np[p] == old_pool[i];
        let op = if p == i { last } else { p };
        assert(np[p] == old_pool[op]);
    }
}

/// Draws the pairs of a round as indices into a roster of `n` teams: a pool
/// holds each index `k` times; for each pair one entry is drawn at random
/// without replacement, then its partner among the entries of other teams,
/// until half the pool, rounded up, is paired, or the pool runs dry or holds
/// one team only.
pub fn pair_indices(n: usize, k: i32) -> (r: Vec<(usize, usize)>)
    ensures
        valid_pairing(n as nat, k as int, r@),
{
    let mut pool: Vec<usize> = Vec::new();
    proof {
        lemma_empty_pool(pool@);
    }
    if k > 0 {
        let rounds = k as usize;
        let mut rd: usize = 0;
        while rd < rounds
            invariant
                rounds == k,
                rd <= rounds,
                pool.len() == rd * n,
                forall|q: int| 0 <= q < pool.len() ==> pool@[q] < n,
                rd <= 1 ==> forall|q: int| 0 <= q < pool.len() ==> pool@[q] == q,
                forall|x: usize| #[trigger] pool@.to_multiset().count(x) == if x < n { rd as nat } else { 0nat },
            decreases rounds - rd,
        {
            let mut t: usize = 0;
            while t < n
                invariant
                    rounds == k,
                    rd < rounds,
                    t <= n,
                    pool.len() == rd * n + t,
                    forall|q: int| 0 <= q < pool.len() ==> pool@[q] < n,
                    rd == 0 ==> forall|q: int| 0 <= q < pool.len() ==> pool@[q] == q,
                    forall|x: usize| #[trigger] pool@.to_multiset().count(x) == if x < t {
                        rd as nat + 1
                    } else if x < n {
                        rd as nat
                    } else {
                        0nat
                    },
                decreases n - t,
            {
                let ghost before = pool@;
                pool.push(t);
                proof {
                    broadcast use vstd::seq_lib::group_to_multiset_ensures;
                    assert(pool@.to_multiset() =~= before.to_multiset().insert(t));
                }
                t += 1;
            }
            assert(pool.len() == (rd + 1) * n) by (nonlinear_arith)
                requires pool.len() == rd * n + n;
            rd += 1;
        }
    }
    let total = pool.len();
    assert(k > 0 ==> total == n * k) by (nonlinear_arith)
        requires k > 0 ==> total == (k as int) * n;
    assert(total == pool_size(n as nat, k as int));
    assert(k <= 1 ==> total <= n) by (nonlinear_arith)
        requires total == pool_size(n as nat, k as int);
    let target: usize = total / 2 + total % 2;
    let mut pairs: Vec<(usize, usize)> = Vec::new();
    proof {
        if k <= 0 {
            lemma_empty_pool(pool@);
        }
    }
    assert(forall|x: usize| #[trigger] pool@.to_multiset().count(x) == if x < n {
        entries_per_team(k as int)
    } else {
        0nat
    });
    assert(k <= 1 ==> pool@.no_duplicates());
    let ghost mut stopped = false;
    while pairs.len() < target
        invariant_except_break
            !stopped,
            pool.len() + 2 * pairs.len() == total,
            forall|q: int| 0 <= q < pool.len() ==> pool@[q] < n,
            k <= 1 ==> pool@.no_duplicates(),
            forall|x: usize| #[trigger] pool@.to_multiset().count(x) + pair_slots(pairs@).count(x)
                == if x < n { entries_per_team(k as int) } else { 0nat },
        invariant
            forall|x: usize| #[trigger] pair_slots(pairs@).count(x) <= entries_per_team(k as int),
            total == pool_size(n as nat, k as int),
            target == total / 2 + total % 2,
            2 * pairs.len() <= total,
            forall|p: int|
                0 <= p < pairs.len() ==> (#[trigger] pairs@[p]).0 < n && pairs@[p].1 < n
                    && pairs@[p].0 != pairs@[p].1,
        ensures
            pairs.len() <= total / 2,
            k <= 1 ==> pairs.len() == total / 2,
            stopped ==> exists|s: usize| full_except(n as nat, k as int, pairs@, s),
            !stopped ==> pool.len() == 0 && forall|x: usize| #[trigger] pool@.to_multiset().count(x)
                + pair_slots(pairs@).count(x) == if x < n { entries_per_team(k as int) } else { 0nat },
        decreases total - 2 * pairs.len(),
    {
        let ghost before = pool@;
        let i = random_below(pool.len());
        let a = pool.swap_remove(i);
        proof {
            lemma_swap_remove_multiset(before, i as int);
            if k <= 1 {
                lemma_swap_remove_distinct(before, i as int);
            }
            assert forall|q: int| 0 <= q < pool.len() implies pool@[q] < n by {
                if q == i {
                    assert(pool@[q] == before.last());
                } else {
                    assert(pool@[q] == before[q]);
                }
            }
        }
        let ghost drawn = pool@;
        assert(drawn == before.update(i as int, before.last()).drop_last());
        if pool.len() < 1 {
            proof {
                lemma_empty_pool(pool@);
                assert forall|x: usize| x < n && x != a implies #[trigger] pair_slots(pairs@).count(
                    x,
                ) == entries_per_team(k as int) by {
                    assert(drawn.to_multiset().count(x) == 0);
                    assert(drawn.to_multiset().count(x) == before.to_multiset().count(x) - (if x
                        == a {
                        1int
                    } else {
                        0int
                    }));
                }
                assert(full_except(n as nat, k as int, pairs@, a));
                stopped = true;
            }
            break;
        }
        // The partner is drawn among the entries of other teams.
        let mut others: Vec<usize> = Vec::new();
        let mut q: usize = 0;
        while q < pool.len()
            invariant
                q <= pool.len(),
                forall|x: int| 0 <= x < others.len() ==> #[trigger] others@[x] < pool.len() && pool@[
                    others@[x] as int] != a,
                forall|y: int| 0 <= y < q && pool@[y] != a ==> others@.contains(y as usize),
            decreases pool.len() - q,
        {
            let ghost seen = others@;
            if pool[q] != a {
                others.push(q);
            }
            proof {
                assert forall|y: int| 0 <= y < q + 1 && pool@[y] != a implies others@.contains(
                    y as usize,
                ) by {
                    if y < q {
                        let w = choose|w: int| 0 <= w < seen.len() && seen[w] == y as usize;
                        assert(others@[w] == y as usize);
                    } else {
                        assert(others@[others@.len() - 1] == q);
                    }
                }
            }
            q += 1;
        }
        if others.len() == 0 {
            proof {
                if k <= 1 {
                    assert(pool@[0] == a) by {
                        if pool@[0] != a {
                            assert(others@.contains(0usize));
                        }
                    }
                    assert(pool@.contains(a));
                }
                broadcast use vstd::seq_lib::group_to_multiset_ensures;
                assert forall|x: usize| x < n && x != a implies #[trigger] pair_slots(pairs@).count(
                    x,
                ) == entries_per_team(k as int) by {
                    if pool@.to_multiset().count(x) > 0 {
                        assert(pool@.contains(x));
                        let y = choose|y: int| 0 <= y < pool@.len() && pool@[y] == x;
                        assert(others@.contains(y as usize));
                    }
                    assert(drawn.to_multiset().count(x) == before.to_multiset().count(x) - (if x
                        == a {
                        1int
                    } else {
                        0int
                    }));
                }
                assert(full_except(n as nat, k as int, pairs@, a));
                stopped = true;
            }
            break;
        }
        let ghost mid = pool@;
        let pick = random_below(others.len());
        let j = others[pick];
        let b = pool.swap_remove(j);
        let ghost slots = pair_slots(pairs@);
        proof {
            lemma_swap_remove_multiset(mid, j as int);
            if k <= 1 {
                lemma_swap_remove_distinct(mid, j as int);
            }
            assert forall|q: int| 0 <= q < pool.len() implies pool@[q] < n by {
                if q == j {
                    assert(pool@[q] == mid.last());
                } else {
                    assert(pool@[q] == mid[q]);
                }
            }
        }
        let ghost old_pairs = pairs@;
        pairs.push((a, b));
        proof {
            broadcast use vstd::multiset::group_multiset_axioms;
            assert(pairs@.drop_last() =~= old_pairs);
            assert(pair_slots(pairs@) == slots.insert(a).insert(b));
            assert forall|x: usize| #[trigger] pool@.to_multiset().count(x) + pair_slots(
                pairs@,
            ).count(x) == if x < n { entries_per_team(k as int) } else { 0nat } by {
                assert(before.to_multiset().count(x) + slots.count(x) == if x < n {
                    entries_per_team(k as int)
                } else {
                    0nat
                });
                assert(mid.to_multiset().count(x) == before.to_multiset().count(x) - (if x == a {
                    1int
                } else {
                    0int
                }));
                assert(pool@.to_multiset().count(x) == mid.to_multiset().count(x) - (if x == b {
                    1int
                } else {
                    0int
                }));
            }
        }
    }
    proof {
        if !stopped {
            lemma_empty_pool(pool@);
            assert forall|x: usize| x < n && x != 0 implies #[trigger] pair_slots(pairs@).count(x)
                == entries_per_team(k as int) by {
                assert(pool@.to_multiset().count(x) == 0);
            }
            assert(full_except(n as nat, k as int, pairs@, 0));
        }
        let s = choose|s: usize| full_except(n as nat, k as int, pairs@, s);
        assert forall|t: usize, u: usize|
            #![trigger pair_slots(pairs@).count(t), pair_slots(pairs@).count(u)]
            t < n && u < n && t != u implies pair_slots(pairs@).count(t) == entries_per_team(k as int)
            || pair_slots(pairs@).count(u) == entries_per_team(k as int) by {
            if t != s {
                assert(pair_slots(pairs@).count(t) == entries_per_team(k as int));
            } else {
                assert(pair_slots(pairs@).count(u) == entries_per_team(k as int));
            }
        }
    }
    pairs
}

/// The pairs are roster entries at the indices of a valid pairing.
pub open spec fn drawn_from(pairs: Seq<(Team, Team)>, teams: Seq<Team>, k: int) -> bool {
    exists|ix: Seq<(usize, usize)>|
        {
            &&& valid_pairing(teams.len() as nat, k, ix)
            &&& ix.len() == pairs.len()
            &&& forall|p: int|
                0 <= p < pairs.len() ==> (#[trigger] pairs[p]).0 == teams[ix[p].0 as int]
                    && pairs[p].1 == teams[ix[p].1 as int]
        }
}

/// Pairs the teams of a round, each pair as two copies of roster entries
/// drawn as `pair_indices` does.
pub fn create_match_pairs(match_num: i32, teams: &Vec<Team>) -> (r: Vec<(Team, Team)>)
    ensures
        drawn_from(r@, teams@, match_num as int),
{
    let ix = pair_indices(teams.len(), match_num);
    let mut r: Vec<(Team, Team)> = Vec::new();
    let mut p: usize = 0;
    while p < ix.len()
        invariant
            valid_pairing(teams.len() as nat, match_num as int, ix@),
            p <= ix.len(),
            r.len() == p,
            forall|q: int|
                0 <= q < p ==> (#[trigger] r@[q]).0 == teams@[ix@[q].0 as int] && r@[q].1
                    == teams@[ix@[q].1 as int],
        decreases ix.len() - p,
    {
        let (a, b) = ix[p];
        assert(ix@[p as int].0 < teams.len() && ix@[p as int].1 < teams.len());
        r.push((teams[a].copy_of(), teams[b].copy_of()));
        p += 1;
    }
    r
}

/// A round's pairing of `n` teams with target `k` holds at most `⌈n·k/2⌉`
/// pairs, never pairs a team with itself, gives no team more than `k`
/// matches, and holds at least one pair when there are two teams or more and
/// a positive target.
pub proof fn lemma_pairing_bounds(n: nat, k: int, pairs: Seq<(usize, usize)>)
    requires
        valid_pairing(n, k, pairs),
    ensures
        k > 0 ==> pairs.len() <= (n * k + 1) / 2,
        k <= 0 ==> pairs.len() == 0,
        forall|p: int| 0 <= p < pairs.len() ==> (#[trigger] pairs[p]).0 != pairs[p].1,
        forall|t: usize| #[trigger] pair_slots(pairs).count(t) <= entries_per_team(k),
        n >= 2 && k >= 1 ==> pairs.len() >= 1,
{
    if n >= 2 && k >= 1 && pairs.len() == 0 {
        assert(pair_slots(pairs) == Multiset::<usize>::empty());
        assert(pair_slots(pairs).count(0) == entries_per_team(k) || pair_slots(pairs).count(1)
            == entries_per_team(k));
    }
}

} // verus!
