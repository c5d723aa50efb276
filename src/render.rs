use vstd::prelude::*;
use crate::definition::{pretty_line, Definition};

verus! {

/// The attribution text of each entry, in order.
pub open spec fn attributions(defs: Seq<Definition>) -> Seq<Seq<char>> {
    defs.map_values(|d: Definition| d.attribution_text@)
}

/// The distinct values of `s`, each at the place where it first occurs.
pub open spec fn first_seen(s: Seq<Seq<char>>) -> Seq<Seq<char>>
    decreases s.len(),
{
    if s.len() == 0 {
        Seq::empty()
    } else {
        let p = first_seen(s.drop_last());
        if p.contains(s.last()) {
            p
        } else {
            p.push(s.last())
        }
    }
}

/// One `"  * "` bullet for each entry attributed to `key`, in the entries' order.
pub open spec fn bullets(defs: Seq<Definition>, key: Seq<char>) -> Seq<char>
    decreases defs.len(),
{
    if defs.len() == 0 {
        Seq::empty()
    } else if defs.last().attribution_text@ == key {
        bullets(defs.drop_last(), key) + "  * "@ + pretty_line(defs.last())
    } else {
        bullets(defs.drop_last(), key)
    }
}

/// The block of one group: its attribution as a header line, its bullets,
/// and a blank line.
pub open spec fn group_block(defs: Seq<Definition>, key: Seq<char>) -> Seq<char> {
    key + "\n"@ + bullets(defs, key) + "\n"@
}

/// The blocks of the groups `keys`, in that order.
pub open spec fn blocks(defs: Seq<Definition>, keys: Seq<Seq<char>>) -> Seq<char>
    decreases keys.len(),
{
    if keys.len() == 0 {
        Seq::empty()
    } else {
        blocks(defs, keys.drop_last()) + group_block(defs, keys.last())
    }
}

/// The grouped rendering of a list of entries: one block per attribution text,
/// the groups in the order in which their attribution first occurs.
pub open spec fn pretty_text(defs: Seq<Definition>) -> Seq<char> {
    blocks(defs, first_seen(attributions(defs)))
}

/// The views of a list of strings.
pub open spec fn string_views(v: Seq<String>) -> Seq<Seq<char>> {
    v.map_values(|k: String| k@)
}

/// The distinct attribution texts of `defs`, in order of first occurrence.
pub fn group_keys(defs: &Vec<Definition>) -> (keys: Vec<String>)
    ensures
        string_views(keys@) == first_seen(attributions(defs@)),
{
    let mut keys: Vec<String> = Vec::new();
    let mut i: usize = 0;
    while i < defs.len()
        invariant
            i <= defs.len(),
            string_views(keys@) == first_seen(attributions(defs@.subrange(0, i as int))),
        decreases defs.len() - i,
    {
        let a = &defs[i].attribution_text;
        let mut found = false;
        let mut j: usize = 0;
        while j < keys.len()
            invariant
                j <= keys.len(),
                found == (exists|t: int| 0 <= t < j && keys@[t]@ == a@),
            decreases keys.len() - j,
        {
            if keys[j] == *a {
                found = true;
            }
            j = j + 1;
        }
        proof {
            let pre = defs@.subrange(0, i as int);
            let cur = defs@.subrange(0, i as int + 1);
            assert(cur.drop_last() =~= pre);
            assert(attributions(cur).drop_last() =~= attributions(pre));
            assert(attributions(cur).last() == a@);
            let sv = string_views(keys@);
            if found {
                let t = choose|t: int| 0 <= t < keys.len() && keys@[t]@ == a@;
                assert(sv[t] == a@);
            } else {
                assert forall|t: int| 0 <= t < sv.len() implies sv[t] != a@ by {
                    assert(sv[t] == keys@[t]@);
                }
            }
        }
        if !found {
            let ghost before = keys@;
            let k = a.clone();
            keys.push(k);
            proof {
                assert(string_views(keys@) =~= string_views(before).push(a@));
            }
        }
        i = i + 1;
    }
    proof {
        assert(defs@.subrange(0, defs.len() as int) =~= defs@);
    }
    keys
}

/// The bullets of the entries attributed to `key`.
fn render_bullets(defs: &Vec<Definition>, key: &String) -> (r: String)
    ensures
        r@ == bullets(defs@, key@),
{
    let mut out = String::new();
    let mut i: usize = 0;
    while i < defs.len()
        invariant
            i <= defs.len(),
            out@ == bullets(defs@.subrange(0, i as int), key@),
        decreases defs.len() - i,
    {
        proof {
            let cur = defs@.subrange(0, i as int + 1);
            assert(cur.drop_last() =~= defs@.subrange(0, i as int));
            assert(cur.last() == defs@[i as int]);
        }
        if defs[i].attribution_text == *key {
            let line = defs[i].to_pretty();
            out.append("  * ");
            out.append(line.as_str());
        }
        i = i + 1;
    }
    proof {
        assert(defs@.subrange(0, defs.len() as int) =~= defs@);
    }
    out
}

/// Renders `defs` grouped by attribution text: for each group, in order of
/// first occurrence, the attribution as a header line, one `"  * "` bullet per
/// entry of the group in the entries' order, and a blank line.
pub fn render_pretty(defs: &Vec<Definition>) -> (r: String)
    ensures
        r@ == pretty_text(defs@),
{
    let keys = group_keys(defs);
    let ghost ks = string_views(keys@);
    let mut out = String::new();
    let mut g: usize = 0;
    while g < keys.len()
        invariant
            g <= keys.len(),
            ks == string_views(keys@),
            out@ == blocks(defs@, ks.subrange(0, g as int)),
        decreases keys.len() - g,
    {
        proof {
            let cur = ks.subrange(0, g as int + 1);
            assert(cur.drop_last() =~= ks.subrange(0, g as int));
            assert(cur.last() == keys@[g as int]@);
        }
        let body = render_bullets(defs, &keys[g]);
        out.append(keys[g].as_str());
        out.append("\n");
        out.append(body.as_str());
        out.append("\n");
        g = g + 1;
    }
    proof {
        assert(ks.subrange(0, keys.len() as int) =~= ks);
    }
    out
}

} // verus!
