//! Mermaid rendering of a call list: one `caller --> callee` edge per distinct pair.

use vstd::prelude::*;
use crate::types::CallInfoView;
use crate::text::{has_substring, lemma_occurs_in_split, lemma_substring_split, splits};

verus! {

/// The caller of a call as it is drawn: its name, or `main` when unknown.
pub open spec fn drawn_caller(c: CallInfoView) -> Seq<char> {
    match c.caller_name {
        Some(n) => n,
        None => "main"@,
    }
}

/// The diagram line of one call.
pub open spec fn edge_line(c: CallInfoView) -> Seq<char> {
    "    "@ + drawn_caller(c) + " --> "@ + c.callee_name + ";\n"@
}

/// The diagram lines of a call list, one per call, in order.
pub open spec fn edge_lines(calls: Seq<CallInfoView>) -> Seq<Seq<char>> {
    calls.map_values(|c: CallInfoView| edge_line(c))
}

/// `lines` without repeats: each line kept at its first occurrence.
pub open spec fn first_occurrences(lines: Seq<Seq<char>>) -> Seq<Seq<char>>
    decreases lines.len(),
{
    if lines.len() == 0 {
        Seq::empty()
    } else {
        let kept = first_occurrences(lines.drop_last());
        if kept.contains(lines.last()) {
            kept
        } else {
            kept.push(lines.last())
        }
    }
}

/// The lines written one after another.
pub open spec fn concat(lines: Seq<Seq<char>>) -> Seq<char>
    decreases lines.len(),
{
    if lines.len() == 0 {
        Seq::empty()
    } else {
        concat(lines.drop_last()) + lines.last()
    }
}

/// The whole diagram of a call list.
pub open spec fn mermaid_of(calls: Seq<CallInfoView>) -> Seq<char> {
    "graph TD;\n"@ + concat(first_occurrences(edge_lines(calls)))
}

/// Law: the edges of a diagram are distinct, every call's edge is among them, and each
/// of them is the edge of some call.
pub proof fn lemma_diagram_edges(calls: Seq<CallInfoView>)
    ensures
        first_occurrences(edge_lines(calls)).no_duplicates(),
        forall|i: int| 0 <= i < calls.len() ==> first_occurrences(edge_lines(calls)).contains(
            #[trigger] edge_line(calls[i]),
        ),
        forall|e: Seq<char>| #[trigger]
            first_occurrences(edge_lines(calls)).contains(e) ==> exists|i: int|
                0 <= i < calls.len() && e == #[trigger] edge_line(calls[i]),
{
    let lines = edge_lines(calls);
    lemma_first_occurrences(lines);
    assert forall|i: int| 0 <= i < calls.len() implies first_occurrences(lines).contains(
        #[trigger] edge_line(calls[i]),
    ) by {
        assert(lines[i] == edge_line(calls[i]));
    }
    assert forall|e: Seq<char>| #[trigger] first_occurrences(lines).contains(e) implies exists|i: int|
        0 <= i < calls.len() && e == #[trigger] edge_line(calls[i]) by {
        let i = choose|i: int| 0 <= i < lines.len() && lines[i] == e;
        assert(e == edge_line(calls[i]));
    }
}

/// Keeping first occurrences drops repeats and nothing else.
pub proof fn lemma_first_occurrences(lines: Seq<Seq<char>>)
    ensures
        first_occurrences(lines).no_duplicates(),
        forall|i: int| 0 <= i < lines.len() ==> first_occurrences(lines).contains(#[trigger] lines[i]),
        forall|e: Seq<char>| #[trigger] first_occurrences(lines).contains(e) ==> lines.contains(e),
    decreases lines.len(),
{
    if lines.len() > 0 {
        let init = lines.drop_last();
        let x = lines.last();
        lemma_first_occurrences(init);
        let kept = first_occurrences(init);
        assert forall|i: int| 0 <= i < lines.len() implies first_occurrences(lines).contains(
            #[trigger] lines[i],
        ) by {
            if i < init.len() {
                assert(init[i] == lines[i]);
                assert(kept.contains(lines[i]));
                if !kept.contains(x) {
                    let k = choose|k: int| 0 <= k < kept.len() && kept[k] == lines[i];
                    assert(kept.push(x)[k] == lines[i]);
                }
            } else if !kept.contains(x) {
                assert(kept.push(x)[kept.len() as int] == x);
            }
        }
        assert forall|e: Seq<char>| #[trigger] first_occurrences(lines).contains(e) implies lines.contains(e) by {
            if kept.contains(e) {
                let k = choose|k: int| 0 <= k < init.len() && init[k] == e;
                assert(lines[k] == e);
            } else {
                assert(e == x);
                assert(lines[lines.len() - 1] == x);
            }
        }
        if !kept.contains(x) {
            let s = kept.push(x);
            assert forall|a: int, b: int| 0 <= a < b < s.len() implies s[a] != s[b] by {
                if b == kept.len() {
                    assert(kept.contains(s[a]));
                }
            }
            assert forall|e: Seq<char>| #[trigger] s.contains(e) implies kept.contains(e) || e == x by {
                let k = choose|k: int| 0 <= k < s.len() && s[k] == e;
                if k < kept.len() {
                    assert(kept[k] == e);
                }
            }
        }
    }
}

proof fn lemma_concat_has_line(lines: Seq<Seq<char>>, k: int)
    requires
        0 <= k < lines.len(),
    ensures
        has_substring(concat(lines), lines[k]),
    decreases lines.len(),
{
    let init = lines.drop_last();
    let last = lines.last();
    assert(concat(lines) == concat(init) + last);
    if k == lines.len() - 1 {
        lemma_occurs_in_split(concat(init), last, Seq::empty());
        assert(concat(init) + last + Seq::<char>::empty() =~= concat(lines));
    } else {
        lemma_concat_has_line(init, k);
        assert(init[k] == lines[k]);
        lemma_substring_split(concat(init), lines[k]);
        let (p, s) = choose|p: Seq<char>, s: Seq<char>| #[trigger] splits(concat(init), p, lines[k], s);
        lemma_occurs_in_split(p, lines[k], s + last);
        assert(p + lines[k] + (s + last) =~= concat(lines));
    }
}

/// Law: the diagram draws every call with a named caller as an edge from that caller to
/// its callee, and every call without a caller name as an edge from `main`.
pub proof fn lemma_diagram_draws_callers(calls: Seq<CallInfoView>, i: int)
    requires
        0 <= i < calls.len(),
    ensures
        calls[i].caller_name matches Some(n) ==> has_substring(
            mermaid_of(calls),
            "    "@ + n + " --> "@ + calls[i].callee_name + ";\n"@,
        ),
        calls[i].caller_name is None ==> has_substring(
            mermaid_of(calls),
            "    "@ + "main"@ + " --> "@ + calls[i].callee_name + ";\n"@,
        ),
{
    lemma_diagram_edges(calls);
    let kept = first_occurrences(edge_lines(calls));
    let line = edge_line(calls[i]);
    assert(kept.contains(line));
    let k = choose|k: int| 0 <= k < kept.len() && kept[k] == line;
    lemma_concat_has_line(kept, k);
    lemma_substring_split(concat(kept), line);
    let (p, s) = choose|p: Seq<char>, s: Seq<char>| #[trigger] splits(concat(kept), p, line, s);
    lemma_occurs_in_split("graph TD;\n"@ + p, line, s);
    assert("graph TD;\n"@ + p + line + s =~= mermaid_of(calls));
}

} // verus!
