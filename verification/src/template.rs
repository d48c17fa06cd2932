//! Rendering of the host-script template.
//!
//! Rendering is a literal substring replacement: every occurrence of the
//! placeholder token, scanned left to right without overlap, is replaced by
//! the plugin fragment. With an empty fragment the result is the template
//! with the placeholder removed.

use vstd::prelude::*;
use vstd::string::StringExecFns;
use crate::text::str_to_chars;

verus! {

/// Left-to-right, non-overlapping replacement of every occurrence of `pat`
/// in `t` by `frag`. An empty pattern replaces nothing.
pub open spec fn replace_spec(t: Seq<char>, pat: Seq<char>, frag: Seq<char>) -> Seq<char>
    decreases t.len(),
{
    if pat.len() == 0 {
        t
    } else if t.len() < pat.len() {
        t
    } else if t.subrange(0, pat.len() as int) == pat {
        frag + replace_spec(t.skip(pat.len() as int), pat, frag)
    } else {
        seq![t[0]] + replace_spec(t.skip(1), pat, frag)
    }
}

/// Whether `pat` occurs in `t` starting at position `i`.
pub open spec fn occurs_at(t: Seq<char>, pat: Seq<char>, i: int) -> bool {
    0 <= i && i + pat.len() <= t.len() && t.subrange(i, i + pat.len()) == pat
}

/// Whether `pat` occurs anywhere in `t`.
pub open spec fn occurs(t: Seq<char>, pat: Seq<char>) -> bool {
    exists|i: int| occurs_at(t, pat, i)
}

/// A text without any occurrence of the pattern renders to itself.
pub proof fn lemma_replace_absent(t: Seq<char>, pat: Seq<char>, frag: Seq<char>)
    requires
        pat.len() > 0,
        !occurs(t, pat),
    ensures
        replace_spec(t, pat, frag) == t,
    decreases t.len(),
{
    if t.len() < pat.len() {
    } else if t.subrange(0, pat.len() as int) == pat {
        assert(occurs_at(t, pat, 0));
        assert(false);
    } else {
        assert forall|j: int| !occurs_at(t.skip(1), pat, j) by {
            if occurs_at(t.skip(1), pat, j) {
                assert(t.subrange(j + 1, j + 1 + pat.len()) =~= t.skip(1).subrange(
                    j,
                    j + pat.len(),
                ));
                assert(occurs_at(t, pat, j + 1));
            }
        }
        lemma_replace_absent(t.skip(1), pat, frag);
        assert(seq![t[0]] + t.skip(1) =~= t);
    }
}

/// A template made of `before`, one placeholder occurrence, and `after` —
/// with no other occurrence anywhere — renders to `before`, the fragment,
/// then `after`. With an empty fragment that is the template with the
/// placeholder removed.
pub proof fn lemma_render_single(
    before: Seq<char>,
    pat: Seq<char>,
    after: Seq<char>,
    frag: Seq<char>,
)
    requires
        pat.len() > 0,
        forall|i: int| occurs_at(before + pat + after, pat, i) ==> i == before.len(),
    ensures
        replace_spec(before + pat + after, pat, frag) == before + frag + after,
    decreases before.len(),
{
    let t = before + pat + after;
    assert(t.len() == before.len() + pat.len() + after.len());
    if before.len() == 0 {
        assert(t.subrange(0, pat.len() as int) =~= pat);
        assert(occurs_at(t, pat, 0));
        assert(t.skip(pat.len() as int) =~= after);
        assert forall|j: int| !occurs_at(after, pat, j) by {
            if occurs_at(after, pat, j) {
                assert(t.subrange(
                    j + pat.len(),
                    j + pat.len() + pat.len(),
                ) =~= after.subrange(j, j + pat.len()));
                assert(occurs_at(t, pat, j + pat.len()));
            }
        }
        lemma_replace_absent(after, pat, frag);
        assert(before + frag + after =~= frag + after);
    } else {
        assert(!occurs_at(t, pat, 0));
        if t.subrange(0, pat.len() as int) == pat {
            assert(occurs_at(t, pat, 0));
        }
        assert(t.subrange(0, pat.len() as int) != pat);
        let rest = t.skip(1);
        assert(rest =~= before.skip(1) + pat + after);
        assert forall|j: int| occurs_at(before.skip(1) + pat + after, pat, j) implies j
            == before.skip(1).len() by {
            if occurs_at(rest, pat, j) {
                assert(t.subrange(j + 1, j + 1 + pat.len()) =~= rest.subrange(j, j + pat.len()));
                assert(occurs_at(t, pat, j + 1));
            }
        }
        lemma_render_single(before.skip(1), pat, after, frag);
        assert(replace_spec(t, pat, frag) == seq![t[0]] + (before.skip(1) + frag + after));
        assert(seq![t[0]] + (before.skip(1) + frag + after) =~= before + frag + after);
    }
}

fn window_eq(t: &Vec<char>, i: usize, p: &Vec<char>) -> (r: bool)
    requires
        i + p@.len() <= t@.len(),
    ensures
        r == (t@.subrange(i as int, i as int + p@.len() as int) == p@),
{
    let tl = t.len();
    let mut k: usize = 0;
    while k < p.len()
        invariant
            t@.len() == tl,
            i + p@.len() <= t@.len(),
            0 <= k <= p@.len(),
            forall|m: int| 0 <= m < k ==> t@[i + m] == p@[m],
        decreases p@.len() - k,
    {
        if t[i + k] != p[k] {
            proof {
                assert(t@.subrange(i as int, i as int + p@.len() as int)[k as int] == t@[i + k]);
            }
            return false;
        }
        k += 1;
    }
    proof {
        assert(t@.subrange(i as int, i as int + p@.len() as int) =~= p@);
    }
    true
}

/// Replaces every occurrence of `pattern` in `template` by `fragment`,
/// scanning left to right without overlap.
pub fn render(template: &str, pattern: &str, fragment: &str) -> (r: String)
    ensures
        r@ == replace_spec(template@, pattern@, fragment@),
{
    let t = str_to_chars(template);
    let p = str_to_chars(pattern);
    if p.len() == 0 {
        return template.to_owned();
    }
    let mut out = String::new();
    let mut i: usize = 0;
    proof {
        assert(t@.skip(0) =~= t@);
        assert(Seq::<char>::empty() + replace_spec(t@, p@, fragment@) =~= replace_spec(
            t@,
            p@,
            fragment@,
        ));
    }
    while i < t.len()
        invariant
            t@ == template@,
            p@ == pattern@,
            p@.len() > 0,
            0 <= i <= t@.len(),
            replace_spec(t@, p@, fragment@) == out@ + replace_spec(
                t@.skip(i as int),
                p@,
                fragment@,
            ),
        decreases t@.len() - i,
    {
        let ghost rest = t@.skip(i as int);
        proof {
            assert(rest.len() == t@.len() - i);
            assert(rest[0] == t@[i as int]);
            assert(rest.skip(1) =~= t@.skip(i as int + 1));
        }
        if t.len() - i >= p.len() && window_eq(&t, i, &p) {
            proof {
                assert(rest.subrange(0, p@.len() as int) =~= t@.subrange(
                    i as int,
                    i as int + p@.len() as int,
                ));
                assert(rest.skip(p@.len() as int) =~= t@.skip(i as int + p@.len() as int));
                assert((out@ + fragment@) + replace_spec(
                    t@.skip(i as int + p@.len() as int),
                    p@,
                    fragment@,
                ) =~= out@ + (fragment@ + replace_spec(
                    t@.skip(i as int + p@.len() as int),
                    p@,
                    fragment@,
                )));
            }
            out.append(fragment);
            i += p.len();
        } else {
            proof {
                if rest.len() >= p@.len() {
                    assert(rest.subrange(0, p@.len() as int) =~= t@.subrange(
                        i as int,
                        i as int + p@.len() as int,
                    ));
                    assert(rest.subrange(0, p@.len() as int) != p@);
                    assert(replace_spec(rest, p@, fragment@) == seq![rest[0]] + replace_spec(
                        rest.skip(1),
                        p@,
                        fragment@,
                    ));
                } else {
                    assert(replace_spec(rest, p@, fragment@) == rest);
                    assert(rest =~= seq![rest[0]] + rest.skip(1));
                    assert(replace_spec(rest.skip(1), p@, fragment@) == rest.skip(1));
                }
                assert((out@ + seq![t@[i as int]]) + replace_spec(
                    t@.skip(i as int + 1),
                    p@,
                    fragment@,
                ) =~= out@ + (seq![t@[i as int]] + replace_spec(
                    t@.skip(i as int + 1),
                    p@,
                    fragment@,
                )));
                assert(out@.push(t@[i as int]) =~= out@ + seq![t@[i as int]]);
            }
            out.push(t[i]);
            i += 1;
        }
    }
    proof {
        assert(t@.skip(t@.len() as int) =~= Seq::<char>::empty());
        assert(out@ + Seq::<char>::empty() =~= out@);
    }
    out
}

/// The placeholder token of the host-script template.
pub open spec fn placeholder() -> Seq<char> {
    "{{ PLUGINS }}"@
}

/// The placeholder token, as text.
pub fn placeholder_str() -> (r: &'static str)
    ensures
        r@ == placeholder(),
{
    "{{ PLUGINS }}"
}

/// Renders the host-script template: every occurrence of the placeholder
/// token is replaced by the plugin fragment.
pub fn render_page(template: &str, fragment: &str) -> (r: String)
    ensures
        r@ == replace_spec(template@, placeholder(), fragment@),
{
    render(template, placeholder_str(), fragment)
}

} // verus!
