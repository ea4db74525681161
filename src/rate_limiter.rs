//! Per-domain queue selection: a domain is not sent to the queue it was last
//! sent to while that record is live, and selection never comes back empty.

use crate::random::random_below;
use crate::text::{decimal, push_decimal};
use vstd::prelude::*;

verus! {

/// How long, in seconds, a cooldown record stays live in the shared store.
pub const COOLDOWN_SECS: u64 = 2;

/// The shared-store entry written after each selection: `domain` was last
/// sent to `queue`, and the entry expires after `ttl_secs` seconds.
#[derive(Clone, Debug)]
pub struct CooldownRecord {
    pub domain: String,
    pub queue: String,
    pub ttl_secs: u64,
}

/// The texts of a list of strings.
pub open spec fn texts(v: Seq<String>) -> Seq<Seq<char>> {
    v.map_values(|s: String| s@)
}

/// The text of an optional string.
pub open spec fn opt_text(o: Option<String>) -> Option<Seq<char>> {
    match o {
        Some(s) => Some(s@),
        None => None,
    }
}

/// The queues that a selection may use: the candidates other than the
/// excluded one, or all candidates when that leaves none.
pub open spec fn eligible(candidates: Seq<Seq<char>>, excluded: Option<Seq<char>>) -> Seq<Seq<char>> {
    let rest = candidates.filter(|q: Seq<char>| excluded != Some(q));
    if rest.len() == 0 {
        candidates
    } else {
        rest
    }
}

/// The queue selected by the draw `draw`.
pub open spec fn pick(candidates: Seq<Seq<char>>, excluded: Option<Seq<char>>, draw: nat) -> Seq<char> {
    let e = eligible(candidates, excluded);
    e[(draw % e.len()) as int]
}

/// The cooldown record written after `domain` was sent to `queue`.
pub open spec fn cooldown_of(domain: Seq<char>, queue: Seq<char>, record: CooldownRecord) -> bool {
    &&& record.domain@ == domain
    &&& record.queue@ == queue
    &&& record.ttl_secs == COOLDOWN_SECS
}

/// The candidates that a selection may use, in their order.
pub fn eligible_queues(candidates: &Vec<String>, excluded: &Option<String>) -> (r: Vec<String>)
    ensures
        texts(r@) == eligible(texts(candidates@), opt_text(*excluded)),
{
    let ghost all = texts(candidates@);
    let ghost ex = opt_text(*excluded);
    let ghost allowed = |q: Seq<char>| ex != Some(q);
    let mut rest: Vec<String> = Vec::new();
    let mut i: usize = 0;
    while i < candidates.len()
        invariant
            i <= candidates.len(),
            all == texts(candidates@),
            ex == opt_text(*excluded),
            allowed == (|q: Seq<char>| ex != Some(q)),
            texts(rest@) == all.subrange(0, i as int).filter(allowed),
        decreases candidates.len() - i,
    {
        let q = &candidates[i];
        let keep = match excluded {
            Some(x) => !x.eq(q),
            None => true,
        };
        let ghost before = rest@;
        proof {
            reveal(Seq::filter);
        }
        assert(all.subrange(0, i + 1).drop_last() =~= all.subrange(0, i as int));
        assert(all.subrange(0, i + 1).last() == q@);
        assert(keep == allowed(q@));
        if keep {
            rest.push(q.clone());
            assert(texts(rest@) =~= texts(before).push(q@));
        }
        i = i + 1;
    }
    assert(all.subrange(0, candidates.len() as int) =~= all);
    if rest.len() == 0 {
        let mut copy: Vec<String> = Vec::new();
        let mut j: usize = 0;
        while j < candidates.len()
            invariant
                j <= candidates.len(),
                texts(copy@) == texts(candidates@).subrange(0, j as int),
            decreases candidates.len() - j,
        {
            let ghost before = copy@;
            copy.push(candidates[j].clone());
            assert(texts(copy@) =~= texts(before).push(candidates@[j as int]@));
            assert(texts(candidates@).subrange(0, j + 1) =~= texts(candidates@).subrange(0, j as int).push(
                candidates@[j as int]@,
            ));
            j = j + 1;
        }
        assert(texts(candidates@).subrange(0, candidates.len() as int) =~= texts(candidates@));
        copy
    } else {
        rest
    }
}

/// The queue that the draw `draw` selects, for a domain whose cooldown record
/// names `excluded`.
pub fn select_queue(candidates: &Vec<String>, excluded: &Option<String>, draw: u64) -> (r: String)
    requires
        candidates.len() > 0,
    ensures
        r@ == pick(texts(candidates@), opt_text(*excluded), draw as nat),
{
    let e = eligible_queues(candidates, excluded);
    proof {
        lemma_eligible_nonempty(texts(candidates@), opt_text(*excluded));
    }
    let n = e.len() as u64;
    let k = (draw % n) as usize;
    assert(texts(e@)[k as int] == e@[k as int]@);
    e[k].clone()
}

/// Selects a queue for `domain` among `candidates` at random, avoiding the
/// queue its live cooldown record names (`excluded`, read from the shared
/// store; `None` when there is no record or the store cannot be reached), and
/// returns the record to write back.
pub fn reserve(domain: &String, candidates: &Vec<String>, excluded: &Option<String>) -> (r: CooldownRecord)
    requires
        candidates.len() > 0,
    ensures
        exists|draw: nat| #[trigger] pick(texts(candidates@), opt_text(*excluded), draw) == r.queue@,
        cooldown_of(domain@, r.queue@, r),
{
    let e = eligible_queues(candidates, excluded);
    proof {
        lemma_eligible_nonempty(texts(candidates@), opt_text(*excluded));
    }
    let draw = random_below(e.len() as u64);
    let queue = select_queue(candidates, excluded, draw);
    CooldownRecord { domain: domain.clone(), queue, ttl_secs: COOLDOWN_SECS }
}

/// Names `n` interchangeable queues: `prefix1`, `prefix2`, ... `prefixn`.
pub fn get_queues(prefix: &String, n: u8) -> (r: Vec<String>)
    ensures
        r@.len() == n,
        forall|i: int| 0 <= i < n ==> #[trigger] r@[i]@ == prefix@ + decimal((i + 1) as nat),
{
    let mut queues: Vec<String> = Vec::new();
    let mut i: u8 = 0;
    while i < n
        invariant
            i <= n,
            queues@.len() == i,
            forall|j: int| 0 <= j < i ==> #[trigger] queues@[j]@ == prefix@ + decimal((j + 1) as nat),
        decreases n - i,
    {
        let mut name = prefix.clone();
        push_decimal(&mut name, (i as u64) + 1);
        queues.push(name);
        i = i + 1;
    }
    queues
}

proof fn lemma_eligible_nonempty(candidates: Seq<Seq<char>>, excluded: Option<Seq<char>>)
    requires
        candidates.len() > 0,
    ensures
        eligible(candidates, excluded).len() > 0,
{
}

/// Every selection is one of the candidates.
pub proof fn lemma_pick_is_candidate(candidates: Seq<Seq<char>>, excluded: Option<Seq<char>>, draw: nat)
    requires
        candidates.len() > 0,
    ensures
        candidates.contains(pick(candidates, excluded, draw)),
{
    let pred = |q: Seq<char>| excluded != Some(q);
    let rest = candidates.filter(pred);
    let e = eligible(candidates, excluded);
    let k = (draw % e.len()) as int;
    if rest.len() != 0 {
        assert(rest.contains(rest[k]));
        candidates.lemma_filter_contains_rev(pred, rest[k]);
    } else {
        assert(candidates[k] == e[k]);
    }
}

/// While a domain's cooldown record names `excluded`, no selection for it
/// returns `excluded`, provided some other candidate exists.
pub proof fn lemma_pick_avoids_excluded(candidates: Seq<Seq<char>>, excluded: Seq<char>, draw: nat)
    requires
        exists|i: int| 0 <= i < candidates.len() && candidates[i] != excluded,
    ensures
        pick(candidates, Some(excluded), draw) != excluded,
        candidates.contains(pick(candidates, Some(excluded), draw)),
{
    let pred = |q: Seq<char>| Some(excluded) != Some(q);
    let i = choose|i: int| 0 <= i < candidates.len() && candidates[i] != excluded;
    candidates.lemma_filter_contains(pred, i);
    let rest = candidates.filter(pred);
    assert(rest.contains(candidates[i]));
    assert(rest.len() > 0);
    let k = (draw % rest.len()) as int;
    candidates.lemma_filter_pred(pred, k);
    lemma_pick_is_candidate(candidates, Some(excluded), draw);
}

/// A lone candidate is selected even while it is the excluded one: selection
/// never comes back empty.
pub proof fn lemma_pick_single_fallback(queue: Seq<char>, draw: nat)
    ensures
        pick(seq![queue], Some(queue), draw) == queue,
{
    let pred = |q: Seq<char>| Some(queue) != Some(q);
    let rest = seq![queue].filter(pred);
    reveal(Seq::filter);
    assert(seq![queue].drop_last() =~= Seq::<Seq<char>>::empty());
    assert(Seq::<Seq<char>>::empty().filter(pred) =~= Seq::<Seq<char>>::empty());
    assert(rest.len() == 0);
}

} // verus!
