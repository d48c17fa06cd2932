//! Selection of one target by exact title match.
//!
//! The scan is a full linear pass: every element whose title equals the
//! requested one overwrites the previously recorded match, so the result is
//! the websocket debugger URL of the *last* matching element in list order.
//! That last-match-wins policy is load-bearing and pinned by the contracts.

use vstd::prelude::*;
use crate::discovery::Target;
use crate::discovery::TargetView;
use crate::discovery::targets_view;
use crate::text::str_eq;

verus! {

/// The websocket debugger URL of the last target in `ts` whose title equals
/// `title` exactly; `None` where no title matches.
pub open spec fn select_spec(ts: Seq<TargetView>, title: Seq<char>) -> Option<Seq<char>>
    decreases ts.len(),
{
    if ts.len() == 0 {
        None
    } else if ts.last().title == title {
        Some(ts.last().web_socket_debugger_url)
    } else {
        select_spec(ts.drop_last(), title)
    }
}

/// Where some element matches, the selection is exactly the websocket URL of
/// the matching element that no later element outranks: the last match in
/// list order, never the first.
pub proof fn lemma_select_last_match(ts: Seq<TargetView>, title: Seq<char>, i: int)
    requires
        0 <= i < ts.len(),
        ts[i].title == title,
        forall|j: int| i < j < ts.len() ==> ts[j].title != title,
    ensures
        select_spec(ts, title) == Some(ts[i].web_socket_debugger_url),
    decreases ts.len(),
{
    if i == ts.len() - 1 {
    } else {
        assert(ts.last().title != title);
        assert(ts.drop_last()[i] == ts[i]);
        lemma_select_last_match(ts.drop_last(), title, i);
    }
}

/// Where no element's title matches, selection yields nothing.
pub proof fn lemma_select_no_match(ts: Seq<TargetView>, title: Seq<char>)
    requires
        forall|j: int| 0 <= j < ts.len() ==> ts[j].title != title,
    ensures
        select_spec(ts, title) is None,
    decreases ts.len(),
{
    if ts.len() > 0 {
        lemma_select_no_match(ts.drop_last(), title);
    }
}

/// Scans the whole list; a later match overwrites an earlier one.
pub fn select_by_title(targets: &Vec<Target>, title: &str) -> (r: Option<String>)
    ensures
        r is Some <==> select_spec(targets_view(targets@), title@) is Some,
        r is Some ==> select_spec(targets_view(targets@), title@) == Some(r.unwrap()@),
{
    let mut found: Option<String> = None;
    let mut i: usize = 0;
    while i < targets.len()
        invariant
            0 <= i <= targets@.len(),
            found is Some <==> select_spec(targets_view(targets@.subrange(0, i as int)), title@)
                is Some,
            found is Some ==> select_spec(targets_view(targets@.subrange(0, i as int)), title@)
                == Some(found.unwrap()@),
        decreases targets@.len() - i,
    {
        let ghost prefix = targets@.subrange(0, i as int);
        let ghost next = targets@.subrange(0, i as int + 1);
        proof {
            assert(next.drop_last() =~= prefix);
            assert(next.last() == targets@[i as int]);
            assert(targets_view(next).drop_last() =~= targets_view(prefix));
            assert(targets_view(next).last() == targets@[i as int]@);
        }
        if str_eq(targets[i].title.as_str(), title) {
            found = Some(targets[i].web_socket_debugger_url.clone());
        }
        i += 1;
    }
    proof {
        assert(targets@.subrange(0, targets@.len() as int) =~= targets@);
    }
    found
}

} // verus!
