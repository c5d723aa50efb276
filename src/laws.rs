use vstd::prelude::*;
use crate::decode::{field_text, members_of, read_from, with_text};
use crate::definition::Definition;
use crate::render::first_seen;
use crate::json::Json;

verus! {

/// Element `j` carries a non-empty `text`.
pub open spec fn has_text(j: Json) -> bool {
    field_text(members_of(j), "text"@).len() > 0
}

/// The definitions kept from a list are its elements with a non-empty text,
/// in order; so a successful read returns exactly as many definitions as the
/// list has such elements, each matching its element field for field.
pub proof fn law_kept_are_those_with_text(items: Seq<Json>)
    ensures
        with_text(items) == items.filter(|j: Json| has_text(j)),
    decreases items.len(),
{
    reveal(Seq::filter);
    if items.len() > 0 {
        law_kept_are_those_with_text(items.drop_last());
    }
}

/// Every element kept from a list has a non-empty text.
proof fn lemma_kept_have_text(items: Seq<Json>)
    ensures
        forall|i: int| 0 <= i < with_text(items).len() ==> has_text(#[trigger] with_text(items)[i]),
    decreases items.len(),
{
    if items.len() > 0 {
        let rest = items.drop_last();
        lemma_kept_have_text(rest);
        assert forall|i: int| 0 <= i < with_text(items).len() implies has_text(
            #[trigger] with_text(items)[i],
        ) by {
            if i < with_text(rest).len() {
                assert(with_text(items)[i] == with_text(rest)[i]);
            }
        }
    }
}

/// An entry whose text is empty never comes back: every definition read from
/// a list has a non-empty text.
pub proof fn law_no_empty_text(defs: Seq<Definition>, items: Seq<Json>)
    requires
        read_from(defs, with_text(items)),
    ensures
        forall|i: int| 0 <= i < defs.len() ==> (#[trigger] defs[i]).definition@.len() > 0,
{
    lemma_kept_have_text(items);
    assert forall|i: int| 0 <= i < defs.len() implies (#[trigger] defs[i]).definition@.len() > 0 by {
        assert(has_text(with_text(items)[i]));
    }
}

/// Grouping gives each attribution text exactly one header: the group keys
/// hold no value twice, and hold exactly the values that occur.
pub proof fn law_one_header_per_attribution(s: Seq<Seq<char>>)
    ensures
        first_seen(s).no_duplicates(),
        forall|a: Seq<char>| first_seen(s).contains(a) <==> s.contains(a),
    decreases s.len(),
{
    if s.len() > 0 {
        let rest = s.drop_last();
        let x = s.last();
        let p = first_seen(rest);
        law_one_header_per_attribution(rest);
        assert forall|a: Seq<char>| s.contains(a) <==> (rest.contains(a) || a == x) by {
            if s.contains(a) {
                let k = choose|k: int| 0 <= k < s.len() && s[k] == a;
                if k < rest.len() {
                    assert(rest[k] == a);
                }
            }
            if rest.contains(a) {
                let k = choose|k: int| 0 <= k < rest.len() && rest[k] == a;
                assert(s[k] == a);
            }
            if a == x {
                assert(s[s.len() - 1] == a);
            }
        }
        if !p.contains(x) {
            let q = p.push(x);
            assert forall|a: Seq<char>| q.contains(a) <==> (p.contains(a) || a == x) by {
                if q.contains(a) {
                    let k = choose|k: int| 0 <= k < q.len() && q[k] == a;
                    if k < p.len() {
                        assert(p[k] == a);
                    }
                }
                if p.contains(a) {
                    let k = choose|k: int| 0 <= k < p.len() && p[k] == a;
                    assert(q[k] == a);
                }
                if a == x {
                    assert(q[q.len() - 1] == a);
                }
            }
            assert forall|i: int, j: int| 0 <= i < q.len() && 0 <= j < q.len() && i != j implies q[i] != q[j] by {
                if i == q.len() - 1 {
                    assert(p[j] == q[j]);
                } else if j == q.len() - 1 {
                    assert(p[i] == q[i]);
                }
            }
        }
    }
}

} // verus!
