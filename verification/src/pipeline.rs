//! Composition of the run: selection, assembly, rendering, command framing.
//!
//! Given the discovered targets, the per-file plugin reads, and the host
//! template, the plan either names the websocket URL to connect to together
//! with the fully composed command, or fails with `TargetNotFound` — in
//! which case no connection is ever to be attempted.

use vstd::prelude::*;
use crate::command::Command;
use crate::command::evaluate_command;
use crate::discovery::Target;
use crate::discovery::targets_view;
use crate::errors::Error;
use crate::plugins::assemble_listing;
use crate::plugins::fragment_spec;
use crate::plugins::reads_view;
use crate::select::select_by_title;
use crate::select::select_spec;
use crate::template::placeholder;
use crate::template::render_page;
use crate::template::replace_spec;

verus! {

/// The fragment a directory listing yields: empty where the directory could
/// not be listed.
pub open spec fn listing_fragment(listing: Option<Vec<Option<String>>>) -> Seq<char> {
    match listing {
        Some(reads) => fragment_spec(reads_view(reads@)),
        None => Seq::empty(),
    }
}

/// Plans the injection: selects the target by title (last match wins),
/// assembles the plugin fragment, renders the template, and frames the one
/// evaluate command. Fails exactly where no title matches, and then before
/// any connection is attempted.
pub fn plan_injection(
    targets: &Vec<Target>,
    title: &str,
    template: &str,
    listing: &Option<Vec<Option<String>>>,
) -> (r: Result<(String, Command), Error>)
    ensures
        r is Ok <==> select_spec(targets_view(targets@), title@) is Some,
        r is Err ==> r.unwrap_err() == Error::TargetNotFound,
        r is Ok ==> r.unwrap().0@ == select_spec(targets_view(targets@), title@).unwrap(),
        r is Ok ==> r.unwrap().1.id == 1 && r.unwrap().1.method@ == "Runtime.evaluate"@
            && r.unwrap().1.params.user_gesture,
        r is Ok ==> r.unwrap().1.params.expression@ == replace_spec(
            template@,
            placeholder(),
            listing_fragment(*listing),
        ),
{
    let url = match select_by_title(targets, title) {
        Some(u) => u,
        None => {
            return Err(Error::TargetNotFound);
        },
    };
    let fragment = assemble_listing(listing);
    let expression = render_page(template, fragment.as_str());
    let command = evaluate_command(expression);
    Ok((url, command))
}

} // verus!
