//! Argument completion offered by the server.

use vstd::prelude::*;
use crate::text::{contains_str, has_substring, str_eq};

verus! {

/// What `str::to_lowercase` returns for a string with these characters.
pub uninterp spec fn lowercase(s: Seq<char>) -> Seq<char>;

/// `str::to_lowercase`: the string with each character replaced by its Unicode lowercase
/// mapping. The mapping itself is left to the name [`lowercase`].
#[verifier::external_body]
fn to_lowercase(s: &str) -> (r: String)
    ensures
        r@ == lowercase(s@),
{
    s.to_lowercase()
}

/// The known names offered for argument `argument_name` with typed prefix `value`: for
/// `function_name`, every name that contains `value`, ignoring case, in order; for any
/// other argument, none.
pub open spec fn completions_of(names: Seq<Seq<char>>, argument_name: Seq<char>, value: Seq<char>) -> Seq<Seq<char>> {
    if argument_name == "function_name"@ {
        names.filter(|n: Seq<char>| has_substring(lowercase(n), lowercase(value)))
    } else {
        Seq::empty()
    }
}

/// The known names offered for argument `argument_name` (see [`completions_of`]).
pub fn complete_function_names(names: &Vec<String>, argument_name: &str, value: &str) -> (r: Vec<String>)
    ensures
        r.deep_view() == completions_of(names.deep_view(), argument_name@, value@),
{
    let mut completions: Vec<String> = Vec::new();
    if !str_eq(argument_name, "function_name") {
        assert(completions.deep_view() =~= Seq::<Seq<char>>::empty());
        return completions;
    }
    let ghost nv = names.deep_view();
    let ghost pred = |n: Seq<char>| has_substring(lowercase(n), lowercase(value@));
    let needle = to_lowercase(value);
    let mut i: usize = 0;
    proof {
        assert(nv.take(0) =~= Seq::<Seq<char>>::empty());
        assert(completions.deep_view() =~= nv.take(0).filter(pred));
    }
    while i < names.len()
        invariant
            nv == names.deep_view(),
            i <= nv.len(),
            needle@ == lowercase(value@),
            pred == (|n: Seq<char>| has_substring(lowercase(n), lowercase(value@))),
            completions.deep_view() == nv.take(i as int).filter(pred),
        decreases nv.len() - i,
    {
        proof {
            assert(nv[i as int] == names@[i as int]@);
            assert(nv.take(i + 1) =~= nv.take(i as int).push(nv[i as int]));
            nv.take(i as int).lemma_filter_push(nv[i as int], pred);
        }
        let lowered = to_lowercase(names[i].as_str());
        if contains_str(lowered.as_str(), needle.as_str()) {
            let ghost prev = completions.deep_view();
            completions.push(names[i].clone());
            proof {
                assert(completions.deep_view() =~= prev.push(nv[i as int]));
            }
        }
        i = i + 1;
    }
    proof {
        assert(nv.take(nv.len() as int) =~= nv);
    }
    completions
}

/// Every completion is a known name that contains the typed value, ignoring case; no
/// other argument than `function_name` is completed.
pub proof fn lemma_completions_match(names: Seq<Seq<char>>, argument_name: Seq<char>, value: Seq<char>)
    ensures
        forall|i: int|
            0 <= i < completions_of(names, argument_name, value).len() ==> names.contains(
                #[trigger] completions_of(names, argument_name, value)[i],
            ) && has_substring(lowercase(completions_of(names, argument_name, value)[i]), lowercase(value)),
        argument_name != "function_name"@ ==> completions_of(names, argument_name, value).len() == 0,
{
    if argument_name == "function_name"@ {
        let pred = |n: Seq<char>| has_substring(lowercase(n), lowercase(value));
        let kept = names.filter(pred);
        assert forall|i: int| 0 <= i < kept.len() implies names.contains(#[trigger] kept[i])
            && has_substring(lowercase(kept[i]), lowercase(value)) by {
            names.lemma_filter_pred(pred, i);
            assert(kept.contains(kept[i]));
            names.lemma_filter_contains_rev(pred, kept[i]);
        }
    }
}

proof fn lemma_filter_keeps_distinct(s: Seq<Seq<char>>, pred: spec_fn(Seq<char>) -> bool)
    requires
        s.no_duplicates(),
    ensures
        s.filter(pred).no_duplicates(),
    decreases s.len(),
{
    if s.len() > 0 {
        let init = s.drop_last();
        let x = s.last();
        assert(s =~= init.push(x));
        assert(init.no_duplicates());
        lemma_filter_keeps_distinct(init, pred);
        init.lemma_filter_push(x, pred);
        if pred(x) {
            let f = init.filter(pred);
            assert(!f.contains(x)) by {
                if f.contains(x) {
                    init.lemma_filter_contains_rev(pred, x);
                    let k = choose|k: int| 0 <= k < init.len() && init[k] == x;
                    assert(s[k] == s[s.len() - 1]);
                }
            }
            assert forall|a: int, b: int| 0 <= a < b < f.push(x).len() implies f.push(x)[a] != f.push(x)[b] by {
                if b == f.len() {
                    assert(f.contains(f[a]));
                }
            }
        }
    }
}

/// Law: when the known names are distinct, so are the completions.
pub proof fn lemma_completions_distinct(names: Seq<Seq<char>>, argument_name: Seq<char>, value: Seq<char>)
    requires
        names.no_duplicates(),
    ensures
        completions_of(names, argument_name, value).no_duplicates(),
{
    if argument_name == "function_name"@ {
        lemma_filter_keeps_distinct(names, |n: Seq<char>| has_substring(lowercase(n), lowercase(value)));
    } else {
        assert(completions_of(names, argument_name, value) =~= Seq::<Seq<char>>::empty());
    }
}

} // verus!
