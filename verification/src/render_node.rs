//! Choosing the GPU render node the hardware encoder opens: of the `renderD*` entries of
//! `/dev/dri`, the first in name order, so the choice is the same on every start.

use vstd::prelude::*;
use crate::text::chars_of;

verus! {

/// Whether `s` begins with `p`.
pub open spec fn starts_with(s: Seq<char>, p: Seq<char>) -> bool {
    p.len() <= s.len() && s.subrange(0, p.len() as int) == p
}

/// Whether a `/dev/dri` entry is a render node.
pub open spec fn is_render_node(name: Seq<char>) -> bool {
    starts_with(name, "renderD"@)
}

/// Lexicographic order by code point, a proper prefix first: the order strings sort in.
pub open spec fn lex_lt(a: Seq<char>, b: Seq<char>) -> bool
    decreases a.len(),
{
    if a.len() == 0 {
        b.len() > 0
    } else if b.len() == 0 {
        false
    } else if a[0] != b[0] {
        a[0] < b[0]
    } else {
        lex_lt(a.drop_first(), b.drop_first())
    }
}

/// The device path of a `/dev/dri` entry.
pub open spec fn node_path(name: Seq<char>) -> Seq<char> {
    "/dev/dri/"@ + name
}

/// The characters of each name.
pub open spec fn name_views(names: Seq<String>) -> Seq<Seq<char>> {
    names.map_values(|s: String| s@)
}

/// Whether `path` is the first render node among `names` in sort order: the path of one of
/// them, and no render node's path sorts before it.
pub open spec fn is_first_render_node(names: Seq<Seq<char>>, path: Seq<char>) -> bool {
    &&& exists|i: int| 0 <= i < names.len() && is_render_node(names[i]) && path == node_path(names[i])
    &&& forall|j: int| 0 <= j < names.len() && is_render_node(#[trigger] names[j]) ==> !lex_lt(node_path(names[j]), path)
}

/// A shared prefix does not change the order.
proof fn lemma_lex_prefix(p: Seq<char>, a: Seq<char>, b: Seq<char>)
    ensures
        lex_lt(p + a, p + b) == lex_lt(a, b),
    decreases p.len(),
{
    if p.len() > 0 {
        assert((p + a).drop_first() =~= p.drop_first() + a);
        assert((p + b).drop_first() =~= p.drop_first() + b);
        assert((p + a)[0] == p[0] && (p + b)[0] == p[0]);
        lemma_lex_prefix(p.drop_first(), a, b);
    } else {
        assert(p + a =~= a);
        assert(p + b =~= b);
    }
}

/// The order is transitive.
proof fn lemma_lex_transitive(a: Seq<char>, b: Seq<char>, c: Seq<char>)
    requires
        lex_lt(a, b),
        lex_lt(b, c),
    ensures
        lex_lt(a, c),
    decreases a.len(),
{
    if a.len() > 0 && b.len() > 0 && c.len() > 0 && a[0] == b[0] && b[0] == c[0] {
        lemma_lex_transitive(a.drop_first(), b.drop_first(), c.drop_first());
    }
}

/// Whether `a` sorts strictly before `b`.
fn lex_less(a: &Vec<char>, b: &Vec<char>) -> (lt: bool)
    ensures
        lt == lex_lt(a@, b@),
{
    let mut i: usize = 0;
    proof {
        assert(a@.subrange(0, a@.len() as int) =~= a@);
        assert(b@.subrange(0, b@.len() as int) =~= b@);
    }
    while i < a.len() && i < b.len()
        invariant
            i <= a@.len(),
            i <= b@.len(),
            lex_lt(a@, b@) == lex_lt(a@.subrange(i as int, a@.len() as int), b@.subrange(i as int, b@.len() as int)),
        decreases a@.len() - i,
    {
        let ghost sa = a@.subrange(i as int, a@.len() as int);
        let ghost sb = b@.subrange(i as int, b@.len() as int);
        if a[i] != b[i] {
            proof {
                assert(sa[0] == a@[i as int] && sb[0] == b@[i as int]);
            }
            return a[i] < b[i];
        }
        proof {
            assert(sa.drop_first() =~= a@.subrange(i + 1, a@.len() as int));
            assert(sb.drop_first() =~= b@.subrange(i + 1, b@.len() as int));
        }
        i = i + 1;
    }
    i < b.len()
}

/// Whether the entry is a render node.
fn render_node_name(name: &Vec<char>) -> (r: bool)
    ensures
        r == is_render_node(name@),
{
    let prefix = chars_of("renderD");
    if name.len() < prefix.len() {
        return false;
    }
    let mut i: usize = 0;
    while i < prefix.len()
        invariant
            prefix@ == "renderD"@,
            prefix@.len() <= name@.len(),
            i <= prefix@.len(),
            name@.subrange(0, i as int) == prefix@.subrange(0, i as int),
        decreases prefix@.len() - i,
    {
        if name[i] != prefix[i] {
            proof {
                assert(name@.subrange(0, prefix@.len() as int)[i as int] != prefix@[i as int]);
            }
            return false;
        }
        i = i + 1;
        proof {
            assert(name@.subrange(0, i as int) =~= prefix@.subrange(0, i as int));
        }
    }
    proof {
        assert(prefix@.subrange(0, i as int) =~= prefix@);
    }
    true
}

/// The render node to open, from the names of the entries of `/dev/dri`: the first render
/// node in sort order, as a device path, or `None` when there is none.
pub fn first_render_node(names: &Vec<String>) -> (node: Option<String>)
    ensures
        match node {
            Some(path) => is_first_render_node(name_views(names@), path@),
            None => forall|i: int| 0 <= i < names@.len() ==> !is_render_node(#[trigger] names@[i]@),
        },
{
    let ghost views = name_views(names@);
    let mut best: Option<usize> = None;
    let mut best_chars: Vec<char> = Vec::new();
    let mut k: usize = 0;
    while k < names.len()
        invariant
            k <= names@.len(),
            views == name_views(names@),
            views.len() == names@.len(),
            best is None ==> forall|j: int| 0 <= j < k ==> !is_render_node(#[trigger] views[j]),
            best matches Some(b) ==> {
                &&& b < k
                &&& best_chars@ == views[b as int]
                &&& is_render_node(views[b as int])
                &&& forall|j: int| 0 <= j < k && is_render_node(#[trigger] views[j]) ==> !lex_lt(views[j], views[b as int])
            },
        decreases names@.len() - k,
    {
        let chars = chars_of(names[k].as_str());
        proof {
            assert(views[k as int] == names@[k as int]@);
        }
        if render_node_name(&chars) {
            let take = match best {
                None => true,
                Some(_) => lex_less(&chars, &best_chars),
            };
            if take {
                proof {
                    if let Some(b) = best {
                        assert forall|j: int| 0 <= j < k + 1 && is_render_node(#[trigger] views[j]) implies !lex_lt(
                            views[j],
                            views[k as int],
                        ) by {
                            if j < k && lex_lt(views[j], views[k as int]) {
                                lemma_lex_transitive(views[j], views[k as int], views[b as int]);
                            }
                            if j == k {
                                lemma_lex_irreflexive(views[j]);
                            }
                        }
                    } else {
                        assert forall|j: int| 0 <= j < k + 1 && is_render_node(#[trigger] views[j]) implies !lex_lt(
                            views[j],
                            views[k as int],
                        ) by {
                            lemma_lex_irreflexive(views[j]);
                        }
                    }
                }
                best = Some(k);
                best_chars = chars;
            }
        }
        k = k + 1;
    }
    match best {
        Some(b) => {
            let path = String::from_str("/dev/dri/").concat(names[b].as_str());
            proof {
                assert(views[b as int] == names@[b as int]@);
                assert(path@ == node_path(views[b as int]));
                assert forall|j: int| 0 <= j < views.len() && is_render_node(#[trigger] views[j]) implies !lex_lt(
                    node_path(views[j]),
                    path@,
                ) by {
                    lemma_lex_prefix("/dev/dri/"@, views[j], views[b as int]);
                }
            }
            Some(path)
        },
        None => {
            proof {
                assert forall|i: int| 0 <= i < names@.len() implies !is_render_node(#[trigger] names@[i]@) by {
                    assert(views[i] == names@[i]@);
                }
            }
            None
        },
    }
}

/// Nothing sorts before itself.
proof fn lemma_lex_irreflexive(a: Seq<char>)
    ensures
        !lex_lt(a, a),
    decreases a.len(),
{
    if a.len() > 0 {
        lemma_lex_irreflexive(a.drop_first());
    }
}

} // verus!
