//! Assembly of the injected plugin fragment.
//!
//! Each plugin file's literal content `C` becomes the statement
//! `plugins.push(new C);`, and the statements are concatenated in listing
//! order with no separator. The degrade-don't-abort policy is explicit here:
//! a directory that could not be listed yields the empty fragment, and a file
//! whose content could not be read is skipped. The filesystem work itself
//! (listing the directory, reading each regular file) lives outside the
//! library and hands in its per-file results.

use vstd::prelude::*;
use vstd::string::StringExecFns;

verus! {

/// The injection statement for one plugin file's content.
pub open spec fn push_stmt(content: Seq<char>) -> Seq<char> {
    "plugins.push(new "@ + content + ");"@
}

/// The view of one per-file read result.
pub open spec fn read_view(o: Option<String>) -> Option<Seq<char>> {
    match o {
        Some(s) => Some(s@),
        None => None,
    }
}

/// The views of a listing's per-file read results.
pub open spec fn reads_view(reads: Seq<Option<String>>) -> Seq<Option<Seq<char>>> {
    reads.map_values(|o: Option<String>| read_view(o))
}

/// What one read result contributes: its injection statement, or nothing
/// for an unreadable file.
pub open spec fn read_stmt(o: Option<Seq<char>>) -> Seq<char> {
    match o {
        Some(c) => push_stmt(c),
        None => Seq::empty(),
    }
}

/// The fragment assembled from per-file read results, in listing order; an
/// unreadable file (`None`) contributes nothing.
pub open spec fn fragment_spec(reads: Seq<Option<Seq<char>>>) -> Seq<char>
    decreases reads.len(),
{
    if reads.len() == 0 {
        Seq::empty()
    } else {
        read_stmt(reads[0]) + fragment_spec(reads.drop_first())
    }
}

/// Assembly respects listing order and concatenation: the fragment of one
/// listing followed by another is the two fragments in order.
pub proof fn lemma_fragment_append(a: Seq<Option<Seq<char>>>, b: Seq<Option<Seq<char>>>)
    ensures
        fragment_spec(a + b) == fragment_spec(a) + fragment_spec(b),
    decreases a.len(),
{
    if a.len() == 0 {
        assert(a + b =~= b);
        assert(Seq::<char>::empty() + fragment_spec(b) =~= fragment_spec(b));
    } else {
        assert((a + b)[0] == a[0]);
        assert((a + b).drop_first() =~= a.drop_first() + b);
        lemma_fragment_append(a.drop_first(), b);
        assert(read_stmt(a[0]) + (fragment_spec(a.drop_first()) + fragment_spec(b)) =~= (read_stmt(
            a[0],
        ) + fragment_spec(a.drop_first())) + fragment_spec(b));
    }
}

/// Concatenates one injection statement per readable file, in listing order.
pub fn assemble_plugins(reads: &Vec<Option<String>>) -> (r: String)
    ensures
        r@ == fragment_spec(reads_view(reads@)),
{
    let ghost whole = reads_view(reads@);
    let mut out = String::new();
    let mut i: usize = 0;
    proof {
        assert(whole.skip(0) =~= whole);
        assert(Seq::<char>::empty() + fragment_spec(whole) =~= fragment_spec(whole));
    }
    while i < reads.len()
        invariant
            0 <= i <= reads@.len(),
            whole == reads_view(reads@),
            whole.len() == reads@.len(),
            fragment_spec(whole) == out@ + fragment_spec(whole.skip(i as int)),
        decreases reads@.len() - i,
    {
        let ghost rest = whole.skip(i as int);
        proof {
            assert(rest[0] == whole[i as int]);
            assert(rest.drop_first() =~= whole.skip(i as int + 1));
            assert(whole[i as int] == read_view(reads@[i as int]));
        }
        match &reads[i] {
            Some(content) => {
                out.append("plugins.push(new ");
                out.append(content.as_str());
                out.append(");");
            },
            None => {
            },
        }
        i += 1;
    }
    proof {
        assert(whole.skip(whole.len() as int) =~= Seq::<Option<Seq<char>>>::empty());
        assert(fragment_spec(whole.skip(whole.len() as int)) == Seq::<char>::empty());
        assert(out@ + Seq::<char>::empty() =~= out@);
    }
    out
}

/// Assembles the fragment for a directory listing, degrading to the empty
/// fragment where the directory could not be listed at all.
pub fn assemble_listing(listing: &Option<Vec<Option<String>>>) -> (r: String)
    ensures
        listing is None ==> r@ == Seq::<char>::empty(),
        listing is Some ==> r@ == fragment_spec(reads_view(listing.unwrap()@)),
{
    match listing {
        Some(reads) => assemble_plugins(reads),
        None => String::new(),
    }
}

} // verus!
