//! Impact analysis over a call list: which calls are affected when a function changes.
//!
//! Changing a function affects every call of it, and, transitively, every call of each
//! function that calls an affected function.

use vstd::prelude::*;
use vstd::seq_lib::*;
use vstd::set_lib::*;
use crate::types::{CallInfo, CallInfoView};

verus! {

/// The calls whose callee is `name`.
pub open spec fn calls_to(calls: Seq<CallInfoView>, name: Seq<char>) -> Seq<CallInfoView> {
    calls.filter(callee_is(name))
}

/// The predicate "the callee is `name`".
pub open spec fn callee_is(name: Seq<char>) -> spec_fn(CallInfoView) -> bool {
    |c: CallInfoView| c.callee_name == name
}

/// The predicate "the callee is one of `names`".
pub open spec fn callee_among(names: Seq<Seq<char>>) -> spec_fn(CallInfoView) -> bool {
    |c: CallInfoView| names.contains(c.callee_name)
}

/// The calls of each name of `order` in turn: first all calls of `order[0]`, then of
/// `order[1]`, and so on; within each name, the calls keep their order in `calls`.
pub open spec fn impacted_by(calls: Seq<CallInfoView>, order: Seq<Seq<char>>) -> Seq<CallInfoView>
    decreases order.len(),
{
    if order.len() == 0 {
        Seq::empty()
    } else {
        impacted_by(calls, order.drop_last()) + calls_to(calls, order.last())
    }
}

/// The named callers of calls whose callee is in `names`.
pub open spec fn direct_callers(calls: Seq<CallInfoView>, names: Set<Seq<char>>) -> Set<Seq<char>> {
    Set::new(
        |y: Seq<char>|
            exists|j: int|
                0 <= j < calls.len() && names.contains(#[trigger] calls[j].callee_name)
                    && calls[j].caller_name == Some(y),
    )
}

/// The functions reached from `start` in at most `n` steps from a callee to its callers.
pub open spec fn reach_within(calls: Seq<CallInfoView>, start: Seq<char>, n: nat) -> Set<Seq<char>>
    decreases n,
{
    if n == 0 {
        set![start]
    } else {
        let prev = reach_within(calls, start, (n - 1) as nat);
        prev.union(direct_callers(calls, prev))
    }
}

/// `name` is `start` or calls, directly or through other functions, `start`.
pub open spec fn impacts(calls: Seq<CallInfoView>, start: Seq<char>, name: Seq<char>) -> bool {
    exists|n: nat| #[trigger] reach_within(calls, start, n).contains(name)
}

/// `order` lists each function impacted by a change of `start` exactly once.
pub open spec fn is_impact_order(calls: Seq<CallInfoView>, start: Seq<char>, order: Seq<Seq<char>>) -> bool {
    &&& order.no_duplicates()
    &&& forall|x: Seq<char>| order.contains(x) <==> #[trigger] impacts(calls, start, x)
}

/// Names that may appear while walking from `start` to callers.
pub open spec fn candidate_names(calls: Seq<CallInfoView>, start: Seq<char>) -> Seq<Seq<char>> {
    seq![start] + calls.map_values(
        |c: CallInfoView|
            match c.caller_name {
                Some(y) => y,
                None => start,
            },
    )
}

/// The named callers of the calls of `name`, in the order of the calls.
pub open spec fn callers_in(calls: Seq<CallInfoView>, name: Seq<char>) -> Seq<Seq<char>>
    decreases calls.len(),
{
    if calls.len() == 0 {
        Seq::empty()
    } else {
        let c = calls.last();
        callers_in(calls.drop_last(), name) + if c.callee_name == name && c.caller_name is Some {
            seq![c.caller_name->0]
        } else {
            Seq::<Seq<char>>::empty()
        }
    }
}

/// The calls collected by the depth-first walk towards callers, with `stack` the names
/// still to handle (the top last) and `visited` those already handled: the top name, if
/// not handled yet, contributes its calls and pushes their named callers in call order.
pub open spec fn impact_walk(
    calls: Seq<CallInfoView>,
    start: Seq<char>,
    stack: Seq<Seq<char>>,
    visited: Set<Seq<char>>,
) -> Seq<CallInfoView>
    decreases candidate_names(calls, start).to_set().difference(visited).len(), stack.len(),
{
    if stack.len() == 0 {
        Seq::empty()
    } else {
        let x = stack.last();
        let rest = stack.drop_last();
        if visited.contains(x) || !candidate_names(calls, start).contains(x) {
            impact_walk(calls, start, rest, visited)
        } else {
            proof {
                let cs = candidate_names(calls, start).to_set();
                seq_to_set_is_finite(candidate_names(calls, start));
                cs.lemma_set_insert_diff_decreases(visited, x);
            }
            calls_to(calls, x) + impact_walk(calls, start, rest + callers_in(calls, x), visited.insert(x))
        }
    }
}

proof fn lemma_reach_grows(calls: Seq<CallInfoView>, start: Seq<char>, n: nat, x: Seq<char>)
    requires
        reach_within(calls, start, n).contains(x),
    ensures
        reach_within(calls, start, n + 1).contains(x),
{
}

proof fn lemma_caller_impacts(calls: Seq<CallInfoView>, start: Seq<char>, j: int, y: Seq<char>)
    requires
        0 <= j < calls.len(),
        impacts(calls, start, calls[j].callee_name),
        calls[j].caller_name == Some(y),
    ensures
        impacts(calls, start, y),
{
    let n = choose|n: nat| #[trigger] reach_within(calls, start, n).contains(calls[j].callee_name);
    let prev = reach_within(calls, start, n);
    assert(direct_callers(calls, prev).contains(y));
    assert(reach_within(calls, start, n + 1).contains(y));
}

proof fn lemma_closed_contains_reach(calls: Seq<CallInfoView>, start: Seq<char>, s: Set<Seq<char>>, n: nat)
    requires
        s.contains(start),
        forall|j: int|
            0 <= j < calls.len() && s.contains(#[trigger] calls[j].callee_name) && calls[j].caller_name
                is Some ==> s.contains(calls[j].caller_name->0),
    ensures
        reach_within(calls, start, n).subset_of(s),
    decreases n,
{
    if n > 0 {
        lemma_closed_contains_reach(calls, start, s, (n - 1) as nat);
        let prev = reach_within(calls, start, (n - 1) as nat);
        assert forall|y: Seq<char>| direct_callers(calls, prev).contains(y) implies s.contains(y) by {
            let j = choose|j: int|
                0 <= j < calls.len() && prev.contains(#[trigger] calls[j].callee_name)
                    && calls[j].caller_name == Some(y);
            assert(s.contains(calls[j].callee_name));
            assert(calls[j].caller_name->0 == y);
        }
    }
}

proof fn lemma_nodup_within_len<A>(a: Seq<A>, b: Seq<A>)
    requires
        a.no_duplicates(),
        forall|x: A| a.contains(x) ==> b.contains(x),
    ensures
        a.len() <= b.len(),
{
    a.unique_seq_to_set();
    b.lemma_cardinality_of_set();
    seq_to_set_is_finite(b);
    assert(a.to_set().subset_of(b.to_set()));
    lemma_len_subset(a.to_set(), b.to_set());
}

proof fn lemma_filter_split(calls: Seq<CallInfoView>, order: Seq<Seq<char>>, x: Seq<char>)
    requires
        !order.contains(x),
    ensures
        calls.filter(callee_among(order.push(x))).to_multiset() =~= calls.filter(
            callee_among(order),
        ).to_multiset().add(calls.filter(callee_is(x)).to_multiset()),
    decreases calls.len(),
{
    broadcast use group_to_multiset_ensures;
    broadcast use vstd::multiset::group_multiset_axioms;

    if calls.len() == 0 {
        assert(calls.filter(callee_among(order.push(x))) =~= Seq::empty());
        assert(calls.filter(callee_among(order)) =~= Seq::empty());
        assert(calls.filter(callee_is(x)) =~= Seq::empty());
    } else {
        let init = calls.drop_last();
        let c = calls.last();
        lemma_filter_split(init, order, x);
        assert(calls =~= init.push(c));
        init.lemma_filter_push(c, callee_among(order.push(x)));
        init.lemma_filter_push(c, callee_among(order));
        init.lemma_filter_push(c, callee_is(x));
        assert(order.push(x).contains(c.callee_name) <==> (order.contains(c.callee_name)
            || c.callee_name == x)) by {
            if c.callee_name == x {
                assert(order.push(x)[order.len() as int] == x);
            }
            if order.contains(c.callee_name) {
                let k = choose|k: int| 0 <= k < order.len() && order[k] == c.callee_name;
                assert(order.push(x)[k] == c.callee_name);
            }
        }
    }
}

/// Law: the calls collected along an impact order are, counted with multiplicity,
/// exactly the calls whose callee is impacted by a change of `start`.
pub proof fn lemma_impact_is_permutation_of_impacted_calls(
    calls: Seq<CallInfoView>,
    start: Seq<char>,
    order: Seq<Seq<char>>,
)
    requires
        is_impact_order(calls, start, order),
    ensures
        impacted_by(calls, order).to_multiset() =~= calls.filter(
            |c: CallInfoView| impacts(calls, start, c.callee_name),
        ).to_multiset(),
{
    lemma_impacted_by_multiset(calls, order);
    assert(callee_among(order) =~= (|c: CallInfoView| impacts(calls, start, c.callee_name)));
}

proof fn lemma_impacted_by_multiset(calls: Seq<CallInfoView>, order: Seq<Seq<char>>)
    requires
        order.no_duplicates(),
    ensures
        impacted_by(calls, order).to_multiset() =~= calls.filter(callee_among(order)).to_multiset(),
    decreases order.len(),
{
    broadcast use group_to_multiset_ensures;
    broadcast use lemma_multiset_commutative;

    if order.len() == 0 {
        assert(calls.filter(callee_among(order)).len() == 0) by {
            if calls.filter(callee_among(order)).len() > 0 {
                calls.lemma_filter_pred(callee_among(order), 0);
            }
        }
        assert(calls.filter(callee_among(order)) =~= Seq::empty());
    } else {
        let init = order.drop_last();
        let x = order.last();
        assert(order =~= init.push(x));
        assert(init.no_duplicates());
        assert(!init.contains(x)) by {
            if init.contains(x) {
                let k = choose|k: int| 0 <= k < init.len() && init[k] == x;
                assert(order[k] == order[order.len() - 1]);
            }
        }
        lemma_impacted_by_multiset(calls, init);
        lemma_filter_split(calls, init, x);
    }
}

/// Law: a call occurs in the impact result exactly when it is a call and its
/// callee is impacted by a change of `start`.
pub proof fn lemma_impact_membership(
    calls: Seq<CallInfoView>,
    start: Seq<char>,
    order: Seq<Seq<char>>,
    c: CallInfoView,
)
    requires
        is_impact_order(calls, start, order),
    ensures
        impacted_by(calls, order).contains(c) <==> (calls.contains(c) && impacts(calls, start, c.callee_name)),
{
    broadcast use group_to_multiset_ensures;
    broadcast use group_filter_ensures;

    lemma_impact_is_permutation_of_impacted_calls(calls, start, order);
    let pred = |c: CallInfoView| impacts(calls, start, c.callee_name);
    let f = calls.filter(pred);
    to_multiset_contains(impacted_by(calls, order), c);
    to_multiset_contains(f, c);
    assert(impacted_by(calls, order).to_multiset() == f.to_multiset());
    assert(impacted_by(calls, order).contains(c) <==> f.contains(c));
    if f.contains(c) {
        let k = choose|k: int| 0 <= k < f.len() && f[k] == c;
        calls.lemma_filter_pred(pred, k);
        calls.lemma_filter_contains_rev(pred, c);
    }
    if calls.contains(c) && impacts(calls, start, c.callee_name) {
        let i = choose|i: int| 0 <= i < calls.len() && calls[i] == c;
        calls.lemma_filter_contains(pred, i);
    }
}

proof fn lemma_filter_count(s: Seq<CallInfoView>, p: spec_fn(CallInfoView) -> bool, c: CallInfoView)
    ensures
        s.filter(p).to_multiset().count(c) == if p(c) {
            s.to_multiset().count(c)
        } else {
            0
        },
    decreases s.len(),
{
    broadcast use group_to_multiset_ensures;
    broadcast use vstd::multiset::group_multiset_axioms;

    if s.len() == 0 {
        assert(s.filter(p) =~= Seq::<CallInfoView>::empty());
        assert(s.to_multiset() =~= vstd::multiset::Multiset::empty());
        assert(s.filter(p).to_multiset() =~= vstd::multiset::Multiset::empty());
    } else {
        let init = s.drop_last();
        let last = s.last();
        assert(s =~= init.push(last));
        init.lemma_filter_push(last, p);
        lemma_filter_count(init, p, c);
    }
}

proof fn lemma_reach_monotone(xs: Seq<CallInfoView>, ys: Seq<CallInfoView>, start: Seq<char>, n: nat)
    requires
        forall|c: CallInfoView| xs.contains(c) ==> ys.contains(c),
    ensures
        reach_within(xs, start, n).subset_of(reach_within(ys, start, n)),
    decreases n,
{
    if n > 0 {
        lemma_reach_monotone(xs, ys, start, (n - 1) as nat);
        let a = reach_within(xs, start, (n - 1) as nat);
        let b = reach_within(ys, start, (n - 1) as nat);
        assert forall|y: Seq<char>| direct_callers(xs, a).contains(y) implies direct_callers(ys, b).contains(y) by {
            let j = choose|j: int|
                0 <= j < xs.len() && a.contains(#[trigger] xs[j].callee_name) && xs[j].caller_name == Some(y);
            assert(xs.contains(xs[j]));
            let k = choose|k: int| 0 <= k < ys.len() && ys[k] == xs[j];
            assert(b.contains(ys[k].callee_name));
        }
    }
}

/// Law: adding calls never removes an impacted call. When every call of `xs`, counted with
/// multiplicity, is also a call of `ys`, the calls that the impact analysis of `start`
/// collects over `xs` are, with multiplicity, among those it collects over `ys`.
pub proof fn lemma_impact_grows_with_calls(
    xs: Seq<CallInfoView>,
    ys: Seq<CallInfoView>,
    start: Seq<char>,
    xs_order: Seq<Seq<char>>,
    ys_order: Seq<Seq<char>>,
)
    requires
        xs.to_multiset().subset_of(ys.to_multiset()),
        is_impact_order(xs, start, xs_order),
        is_impact_order(ys, start, ys_order),
    ensures
        impacted_by(xs, xs_order).to_multiset().subset_of(impacted_by(ys, ys_order).to_multiset()),
{
    broadcast use group_to_multiset_ensures;

    lemma_impact_is_permutation_of_impacted_calls(xs, start, xs_order);
    lemma_impact_is_permutation_of_impacted_calls(ys, start, ys_order);
    let px = |c: CallInfoView| impacts(xs, start, c.callee_name);
    let py = |c: CallInfoView| impacts(ys, start, c.callee_name);
    assert forall|c: CallInfoView| xs.contains(c) implies ys.contains(c) by {
        assert(xs.to_multiset().count(c) > 0);
        assert(ys.to_multiset().count(c) > 0);
    }
    assert forall|c: CallInfoView|
        #[trigger] impacted_by(xs, xs_order).to_multiset().count(c) <= impacted_by(ys, ys_order).to_multiset().count(c) by {
        lemma_filter_count(xs, px, c);
        lemma_filter_count(ys, py, c);
        if px(c) {
            let n = choose|n: nat| #[trigger] reach_within(xs, start, n).contains(c.callee_name);
            lemma_reach_monotone(xs, ys, start, n);
            assert(reach_within(ys, start, n).contains(c.callee_name));
            assert(py(c));
        }
        assert(xs.to_multiset().count(c) <= ys.to_multiset().count(c));
    }
}

/// Whether `v` holds a string equal to `s`.
pub fn contains_string(v: &Vec<String>, s: &String) -> (r: bool)
    ensures
        r == v.deep_view().contains(s@),
{
    let mut i: usize = 0;
    while i < v.len()
        invariant
            i <= v.len(),
            forall|k: int| 0 <= k < i ==> v.deep_view()[k] != s@,
        decreases v.len() - i,
    {
        if v[i] == *s {
            assert(v.deep_view()[i as int] == s@);
            return true;
        }
        i = i + 1;
    }
    false
}

/// Every call affected by a change of `function_name`: the calls of it, then of its callers,
/// and so on, each function handled once, in the order a depth-first walk reaches them.
pub fn impacted_calls(calls: &Vec<CallInfo>, function_name: &str) -> (r: Vec<CallInfo>)
    ensures
        r.deep_view() == impact_walk(calls.deep_view(), function_name@, seq![function_name@], Set::empty()),
        exists|order: Seq<Seq<char>>|
            #[trigger] is_impact_order(calls.deep_view(), function_name@, order) && r.deep_view()
                == impacted_by(calls.deep_view(), order),
{
    broadcast use group_seq_properties;

    let ghost cv = calls.deep_view();
    let ghost start = function_name@;
    let ghost cand = candidate_names(cv, start);
    let ghost target = impact_walk(cv, start, seq![start], Set::empty());
    let mut impacted: Vec<CallInfo> = Vec::new();
    let mut to_visit: Vec<String> = Vec::new();
    to_visit.push(String::from_str(function_name));
    let mut visited: Vec<String> = Vec::new();
    proof {
        assert(reach_within(cv, start, 0).contains(start));
        assert(to_visit.deep_view() =~= seq![start]);
        assert(to_visit.deep_view()[0] == start);
        assert(cand[0] == start);
        assert(impacted.deep_view() =~= impacted_by(cv, visited.deep_view()));
        assert(visited.deep_view().to_set() =~= Set::<Seq<char>>::empty());
        assert(impacted.deep_view() + impact_walk(cv, start, to_visit.deep_view(), visited.deep_view().to_set())
            =~= target);
    }
    while to_visit.len() > 0
        invariant
            cv == calls.deep_view(),
            start == function_name@,
            cand == candidate_names(cv, start),
            target == impact_walk(cv, start, seq![start], Set::empty()),
            impacted.deep_view() + impact_walk(cv, start, to_visit.deep_view(), visited.deep_view().to_set())
                == target,
            visited.deep_view().no_duplicates(),
            forall|x: Seq<char>| #[trigger]
                visited.deep_view().contains(x) ==> impacts(cv, start, x) && cand.contains(x),
            forall|x: Seq<char>| #[trigger]
                to_visit.deep_view().contains(x) ==> impacts(cv, start, x) && cand.contains(x),
            visited.deep_view().contains(start) || to_visit.deep_view().contains(start),
            forall|j: int|
                0 <= j < cv.len() && visited.deep_view().contains(#[trigger] cv[j].callee_name)
                    && cv[j].caller_name is Some ==> visited.deep_view().contains(cv[j].caller_name->0)
                    || to_visit.deep_view().contains(cv[j].caller_name->0),
            impacted.deep_view() == impacted_by(cv, visited.deep_view()),
        decreases cand.len() - visited.len(), to_visit.len(),
    {
        let ghost vis0 = visited.deep_view();
        let ghost tv0 = to_visit.deep_view();
        proof {
            lemma_nodup_within_len(vis0, cand);
        }
        let callee = to_visit.pop().unwrap();
        let ghost tv1 = to_visit.deep_view();
        proof {
            assert(tv0 =~= tv1.push(callee@));
            assert(tv0[tv1.len() as int] == callee@);
            assert(tv0.contains(callee@));
        }
        proof {
            assert(tv0.drop_last() =~= tv1);
            assert(tv0.last() == callee@);
        }
        if contains_string(&visited, &callee) {
            proof {
                assert(vis0.to_set().contains(callee@));
                assert(impact_walk(cv, start, tv0, vis0.to_set()) == impact_walk(cv, start, tv1, vis0.to_set()));
            }
            assert forall|j: int|
                0 <= j < cv.len() && visited.deep_view().contains(#[trigger] cv[j].callee_name)
                    && cv[j].caller_name is Some implies visited.deep_view().contains(cv[j].caller_name->0)
                || to_visit.deep_view().contains(cv[j].caller_name->0) by {
                let y = cv[j].caller_name->0;
                assert(vis0.contains(y) || tv0.contains(y));
                if tv0.contains(y) && y != callee@ {
                    let k = choose|k: int| 0 <= k < tv0.len() && tv0[k] == y;
                    assert(tv1[k] == y);
                }
            }
            assert forall|x: Seq<char>| #[trigger] to_visit.deep_view().contains(x) implies impacts(
                cv,
                start,
                x,
            ) && cand.contains(x) by {
                let k = choose|k: int| 0 <= k < tv1.len() && tv1[k] == x;
                assert(tv0[k] == x);
                assert(tv0.contains(x));
            }
            proof {
                if !vis0.contains(start) {
                    assert(tv0.contains(start));
                    assert(start == callee@ || tv1.contains(start)) by {
                        let k = choose|k: int| 0 <= k < tv0.len() && tv0[k] == start;
                        if k < tv1.len() {
                            assert(tv1[k] == start);
                        }
                    }
                }
            }
            continue;
        }
        let ghost imp0 = impacted.deep_view();
        proof {
            assert(!vis0.to_set().contains(callee@));
            assert(cand.contains(callee@));
            assert(impact_walk(cv, start, tv0, vis0.to_set()) == calls_to(cv, callee@) + impact_walk(
                cv,
                start,
                tv1 + callers_in(cv, callee@),
                vis0.to_set().insert(callee@),
            ));
        }
        visited.push(callee.clone());
        let ghost vis1 = visited.deep_view();
        proof {
            assert(cv.take(0) =~= Seq::<CallInfoView>::empty());
            assert(to_visit.deep_view() =~= tv1 + callers_in(cv.take(0), callee@));
            assert(vis1 =~= vis0.push(callee@));
            assert(vis1.drop_last() =~= vis0);
            assert(vis1.last() == callee@);
            assert(!vis0.contains(callee@));
            assert forall|x: Seq<char>| #[trigger] vis1.contains(x) implies impacts(cv, start, x)
                && cand.contains(x) by {
                if x != callee@ {
                    let k = choose|k: int| 0 <= k < vis1.len() && vis1[k] == x;
                    assert(vis0[k] == x);
                    assert(vis0.contains(x));
                } else {
                    assert(tv0.contains(x));
                }
            }
            assert(vis1.no_duplicates()) by {
                assert forall|a: int, b: int| 0 <= a < b < vis1.len() implies vis1[a] != vis1[b] by {
                    if b == vis1.len() - 1 {
                        assert(vis0[a] == vis1[a]);
                    }
                }
            }
            lemma_nodup_within_len(vis1, cand);
            assert(cv.take(0).filter(callee_is(callee@)) =~= Seq::empty());
            assert(impacted.deep_view() =~= impacted_by(cv, vis0) + cv.take(0).filter(
                callee_is(callee@),
            ));
        }
        let mut j: usize = 0;
        while j < calls.len()
            invariant
                cv == calls.deep_view(),
                start == function_name@,
                cand == candidate_names(cv, start),
                j <= cv.len(),
                visited.deep_view() == vis1,
                vis1 == vis0.push(callee@),
                vis1.len() <= cand.len(),
                impacts(cv, start, callee@),
                to_visit.deep_view().len() >= tv1.len(),
                to_visit.deep_view() == tv1 + callers_in(cv.take(j as int), callee@),
                to_visit.deep_view().subrange(0, tv1.len() as int) == tv1,
                forall|k: int|
                    #![trigger to_visit.deep_view()[k]]
                    tv1.len() <= k < to_visit.deep_view().len() ==> exists|i: int|
                        0 <= i < cv.len() && #[trigger] cv[i].callee_name == callee@ && cv[i].caller_name
                            == Some(to_visit.deep_view()[k]),
                forall|i: int|
                    0 <= i < j && #[trigger] cv[i].callee_name == callee@ && cv[i].caller_name
                        is Some ==> to_visit.deep_view().contains(cv[i].caller_name->0),
                impacted.deep_view() == impacted_by(cv, vis0) + cv.take(j as int).filter(
                    callee_is(callee@),
                ),
            decreases calls.len() - j,
        {
            let ghost tvj = to_visit.deep_view();
            let ghost imp_j = impacted.deep_view();
            proof {
                assert(cv.take(j + 1) =~= cv.take(j as int).push(cv[j as int]));
                cv.take(j as int).lemma_filter_push(cv[j as int], callee_is(callee@));
                assert(cv.take(j + 1).drop_last() =~= cv.take(j as int));
                assert(cv.take(j + 1).last() == cv[j as int]);
            }
            proof {
                assert(cv[j as int] == calls@[j as int]@);
            }
            if calls[j].callee_name == callee {
                impacted.push(calls[j].duplicate());
                proof {
                    assert(impacted.deep_view() =~= imp_j.push(cv[j as int]));
                }
                match &calls[j].caller_name {
                    Some(caller) => {
                        to_visit.push(caller.clone());
                        proof {
                            assert(to_visit.deep_view() =~= tvj.push(caller@));
                            assert(to_visit.deep_view() =~= tv1 + callers_in(cv.take(j + 1), callee@));
                            assert(to_visit.deep_view().subrange(0, tv1.len() as int) =~= tvj.subrange(
                                0,
                                tv1.len() as int,
                            ));
                            assert forall|k: int|
                                #![trigger to_visit.deep_view()[k]]
                                tv1.len() <= k < to_visit.deep_view().len() implies exists|i: int|
                                0 <= i < cv.len() && #[trigger] cv[i].callee_name == callee@
                                    && cv[i].caller_name == Some(to_visit.deep_view()[k]) by {
                                if k == tvj.len() {
                                    assert(cv[j as int].callee_name == callee@);
                                } else {
                                    assert(to_visit.deep_view()[k] == tvj[k]);
                                }
                            }
                            assert forall|i: int|
                                0 <= i < j + 1 && #[trigger] cv[i].callee_name == callee@
                                    && cv[i].caller_name is Some implies to_visit.deep_view().contains(
                                cv[i].caller_name->0,
                            ) by {
                                let y = cv[i].caller_name->0;
                                if i == j {
                                    assert(to_visit.deep_view()[tvj.len() as int] == y);
                                } else {
                                    let k = choose|k: int| 0 <= k < tvj.len() && tvj[k] == y;
                                    assert(to_visit.deep_view()[k] == y);
                                }
                            }
                        }
                    },
                    None => {
                        assert(to_visit.deep_view() == tvj);
                        assert(to_visit.deep_view() =~= tv1 + callers_in(cv.take(j + 1), callee@));
                        assert forall|k: int|
                            #![trigger to_visit.deep_view()[k]]
                            tv1.len() <= k < to_visit.deep_view().len() implies exists|i: int|
                            0 <= i < cv.len() && #[trigger] cv[i].callee_name == callee@
                                && cv[i].caller_name == Some(to_visit.deep_view()[k]) by {
                            assert(tvj[k] == to_visit.deep_view()[k]);
                        }
                    },
                }
            } else {
                assert(to_visit.deep_view() == tvj);
                assert(to_visit.deep_view() =~= tv1 + callers_in(cv.take(j + 1), callee@));
                    assert forall|k: int|
                        #![trigger to_visit.deep_view()[k]]
                        tv1.len() <= k < to_visit.deep_view().len() implies exists|i: int|
                        0 <= i < cv.len() && #[trigger] cv[i].callee_name == callee@
                            && cv[i].caller_name == Some(to_visit.deep_view()[k]) by {
                        assert(tvj[k] == to_visit.deep_view()[k]);
                    }
            }
            assert(forall|k: int|
                #![trigger to_visit.deep_view()[k]]
                tv1.len() <= k < to_visit.deep_view().len() ==> exists|i: int|
                    0 <= i < cv.len() && #[trigger] cv[i].callee_name == callee@ && cv[i].caller_name
                        == Some(to_visit.deep_view()[k]));
            j = j + 1;
        }
        proof {
            assert(cv.take(cv.len() as int) =~= cv);
            assert(impacted.deep_view() =~= impacted_by(cv, vis1));
            vis0.lemma_push_to_set_commute(callee@);
            assert(vis1.to_set() == vis0.to_set().insert(callee@));
            assert(to_visit.deep_view() == tv1 + callers_in(cv, callee@));
            assert(imp0 == impacted_by(cv, vis0));
            assert(impacted.deep_view() =~= imp0 + calls_to(cv, callee@));
            assert(impacted.deep_view() + impact_walk(cv, start, to_visit.deep_view(), vis1.to_set()) =~= imp0
                + impact_walk(cv, start, tv0, vis0.to_set()));
            let tv2 = to_visit.deep_view();
            assert forall|x: Seq<char>| #[trigger] tv2.contains(x) implies impacts(cv, start, x)
                && cand.contains(x) by {
                let k = choose|k: int| 0 <= k < tv2.len() && tv2[k] == x;
                if k < tv1.len() {
                    assert(tv2.subrange(0, tv1.len() as int)[k] == x);
                    assert(tv1[k] == x);
                    assert(tv0[k] == x);
                    assert(tv0.contains(x));
                } else {
                    let i = choose|i: int|
                        0 <= i < cv.len() && #[trigger] cv[i].callee_name == callee@
                            && cv[i].caller_name == Some(tv2[k]);
                    lemma_caller_impacts(cv, start, i, x);
                    assert(cand[i + 1] == x);
                    assert(cand.contains(x));
                }
            }
            assert forall|y: Seq<char>| tv1.contains(y) implies #[trigger] tv2.contains(y) by {
                let k = choose|k: int| 0 <= k < tv1.len() && tv1[k] == y;
                assert(tv2.subrange(0, tv1.len() as int)[k] == y);
            }
            assert forall|j: int|
                0 <= j < cv.len() && vis1.contains(#[trigger] cv[j].callee_name) && cv[j].caller_name
                    is Some implies vis1.contains(cv[j].caller_name->0) || tv2.contains(cv[j].caller_name->0) by {
                let y = cv[j].caller_name->0;
                if cv[j].callee_name != callee@ {
                    let k = choose|k: int| 0 <= k < vis1.len() && vis1[k] == cv[j].callee_name;
                    assert(vis0[k] == cv[j].callee_name);
                    assert(vis0.contains(y) || tv0.contains(y));
                    if vis0.contains(y) {
                        let k2 = choose|k2: int| 0 <= k2 < vis0.len() && vis0[k2] == y;
                        assert(vis1[k2] == y);
                    } else if y == callee@ {
                        assert(vis1[vis0.len() as int] == y);
                    } else {
                        let k2 = choose|k2: int| 0 <= k2 < tv0.len() && tv0[k2] == y;
                        assert(k2 < tv1.len());
                        assert(tv1[k2] == y);
                    }
                }
            }
            if !vis0.contains(start) {
                let k = choose|k: int| 0 <= k < tv0.len() && tv0[k] == start;
                if k < tv1.len() {
                    assert(tv1[k] == start);
                } else {
                    assert(vis1[vis0.len() as int] == start);
                }
            } else {
                let k = choose|k: int| 0 <= k < vis0.len() && vis0[k] == start;
                assert(vis1[k] == start);
            }
        }
    }
    proof {
        let vis = visited.deep_view();
        let s = vis.to_set();
        assert forall|j: int|
            0 <= j < cv.len() && s.contains(#[trigger] cv[j].callee_name) && cv[j].caller_name is Some
                implies s.contains(cv[j].caller_name->0) by {
            assert(vis.contains(cv[j].callee_name));
        }
        assert forall|x: Seq<char>| vis.contains(x) <==> #[trigger] impacts(cv, start, x) by {
            if impacts(cv, start, x) {
                let n = choose|n: nat| #[trigger] reach_within(cv, start, n).contains(x);
                lemma_closed_contains_reach(cv, start, s, n);
            }
        }
        assert(is_impact_order(cv, start, vis));
    }
    impacted
}

} // verus!
