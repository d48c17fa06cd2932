//! Parsing of the debugging endpoint's target listing.
//!
//! The listing is a JSON array of objects; each object must carry the seven
//! named string fields of [`Target`], unknown extra fields are ignored, and a
//! missing or non-string required field is a schema mismatch. The HTTP fetch
//! that produces the listing text lives outside the library.

use vstd::prelude::*;
use crate::errors::Error;
use crate::json;
use crate::json::Json;

verus! {

/// One debuggable page/tab exposed by the endpoint.
#[derive(Debug)]
pub struct Target {
    pub description: String,
    pub devtools_frontend_url: String,
    pub id: String,
    pub title: String,
    pub kind: String,
    pub url: String,
    pub web_socket_debugger_url: String,
}

/// The mathematical view of a [`Target`].
pub struct TargetView {
    pub description: Seq<char>,
    pub devtools_frontend_url: Seq<char>,
    pub id: Seq<char>,
    pub title: Seq<char>,
    pub kind: Seq<char>,
    pub url: Seq<char>,
    pub web_socket_debugger_url: Seq<char>,
}

impl View for Target {
    type V = TargetView;

    open spec fn view(&self) -> TargetView {
        TargetView {
            description: self.description@,
            devtools_frontend_url: self.devtools_frontend_url@,
            id: self.id@,
            title: self.title@,
            kind: self.kind@,
            url: self.url@,
            web_socket_debugger_url: self.web_socket_debugger_url@,
        }
    }
}

/// The views of a vector of targets.
pub open spec fn targets_view(ts: Seq<Target>) -> Seq<TargetView> {
    ts.map_values(|t: Target| t@)
}

/// Whether a JSON object holds the named field as a string.
pub open spec fn has_str_field(m: Map<Seq<char>, Json>, key: Seq<char>) -> bool {
    m.contains_key(key) && m[key] is Str
}

/// The target a JSON value describes: `Some` exactly where the value is an
/// object carrying all seven required fields as strings.
pub open spec fn target_of_json(j: Json) -> Option<TargetView> {
    if j is Obj {
        let m = j->Obj_0;
        if has_str_field(m, "description"@) && has_str_field(m, "devtoolsFrontendUrl"@)
            && has_str_field(m, "id"@) && has_str_field(m, "title"@) && has_str_field(m, "type"@)
            && has_str_field(m, "url"@) && has_str_field(m, "webSocketDebuggerUrl"@) {
            Some(
                TargetView {
                    description: m["description"@]->Str_0,
                    devtools_frontend_url: m["devtoolsFrontendUrl"@]->Str_0,
                    id: m["id"@]->Str_0,
                    title: m["title"@]->Str_0,
                    kind: m["type"@]->Str_0,
                    url: m["url"@]->Str_0,
                    web_socket_debugger_url: m["webSocketDebuggerUrl"@]->Str_0,
                },
            )
        } else {
            None
        }
    } else {
        None
    }
}

/// The targets a sequence of JSON values describes, defined only where every
/// element describes one.
pub open spec fn targets_of_list(elems: Seq<Json>) -> Option<Seq<TargetView>> {
    if forall|i: int| 0 <= i < elems.len() ==> target_of_json(elems[i]) is Some {
        Some(Seq::new(elems.len(), |i: int| target_of_json(elems[i]).unwrap()))
    } else {
        None
    }
}

/// The targets a JSON document describes: `Some` exactly where the document
/// is an array whose every element describes a target.
pub open spec fn targets_of_json(j: Json) -> Option<Seq<TargetView>> {
    if j is Arr {
        targets_of_list(j->Arr_0)
    } else {
        None
    }
}

/// Whether a listing text decodes to a sequence of targets.
pub open spec fn listing_ok(s: Seq<char>) -> bool {
    json_of_listing(s) is Some
}

/// The targets a listing text decodes to.
pub open spec fn json_of_listing(s: Seq<char>) -> Option<Seq<TargetView>> {
    match json::json_of(s) {
        Some(j) => targets_of_json(j),
        None => None,
    }
}

fn read_str_field(v: &serde_json::Value, key: &str) -> (r: Option<String>)
    ensures
        r is Some <==> (json::value_rep(*v) is Obj && has_str_field(
            json::value_rep(*v)->Obj_0,
            key@,
        )),
        r is Some ==> r.unwrap()@ == json::value_rep(*v)->Obj_0[key@]->Str_0,
{
    match json::get_field(v, key) {
        Some(f) => match json::as_text(f) {
            Some(s) => Some(s.to_owned()),
            None => None,
        },
        None => None,
    }
}

fn parse_target(v: &serde_json::Value) -> (r: Option<Target>)
    ensures
        r is Some <==> target_of_json(json::value_rep(*v)) is Some,
        r is Some ==> r.unwrap()@ == target_of_json(json::value_rep(*v)).unwrap(),
{
    let description = match read_str_field(v, "description") {
        Some(s) => s,
        None => {
            return None;
        },
    };
    let devtools_frontend_url = match read_str_field(v, "devtoolsFrontendUrl") {
        Some(s) => s,
        None => {
            return None;
        },
    };
    let id = match read_str_field(v, "id") {
        Some(s) => s,
        None => {
            return None;
        },
    };
    let title = match read_str_field(v, "title") {
        Some(s) => s,
        None => {
            return None;
        },
    };
    let kind = match read_str_field(v, "type") {
        Some(s) => s,
        None => {
            return None;
        },
    };
    let url = match read_str_field(v, "url") {
        Some(s) => s,
        None => {
            return None;
        },
    };
    let web_socket_debugger_url = match read_str_field(v, "webSocketDebuggerUrl") {
        Some(s) => s,
        None => {
            return None;
        },
    };
    Some(
        Target {
            description,
            devtools_frontend_url,
            id,
            title,
            kind,
            url,
            web_socket_debugger_url,
        },
    )
}

/// Decodes a listing text into targets. Returns `Ok` exactly where the text
/// is a JSON array whose every element carries the seven required string
/// fields; any malformed or schema-mismatched input yields `Error::Parse`.
pub fn parse_targets(body: &str) -> (r: Result<Vec<Target>, Error>)
    ensures
        r is Ok <==> listing_ok(body@),
        r is Ok ==> targets_view(r.unwrap()@) == json_of_listing(body@).unwrap(),
        r is Err ==> r.unwrap_err() == Error::Parse,
{
    let v = match json::parse_json(body) {
        Some(v) => v,
        None => {
            return Err(Error::Parse);
        },
    };
    let arr = match json::as_array(&v) {
        Some(a) => a,
        None => {
            return Err(Error::Parse);
        },
    };
    let ghost elems: Seq<Json> = json::value_rep(v)->Arr_0;
    proof {
        assert(elems.len() == arr@.len());
        assert(forall|k: int| 0 <= k < arr@.len() ==> elems[k] == json::value_rep(arr@[k]));
    }
    let mut out: Vec<Target> = Vec::new();
    let mut i: usize = 0;
    while i < arr.len()
        invariant
            0 <= i <= arr@.len(),
            json::json_of(body@) == Some(json::value_rep(v)),
            json::value_rep(v) is Arr,
            elems == json::value_rep(v)->Arr_0,
            elems.len() == arr@.len(),
            forall|k: int| 0 <= k < arr@.len() ==> elems[k] == json::value_rep(arr@[k]),
            out@.len() == i,
            forall|k: int| 0 <= k < i ==> target_of_json(elems[k]) is Some,
            forall|k: int| 0 <= k < i ==> out@[k]@ == target_of_json(elems[k]).unwrap(),
        decreases arr@.len() - i,
    {
        match parse_target(&arr[i]) {
            Some(t) => {
                out.push(t);
            },
            None => {
                proof {
                    assert(target_of_json(elems[i as int]) is None);
                    assert(!(forall|k: int|
                        0 <= k < elems.len() ==> target_of_json(elems[k]) is Some));
                    assert(targets_of_list(elems) is None);
                    assert(targets_of_json(json::value_rep(v)) is None);
                    assert(json_of_listing(body@) is None);
                }
                return Err(Error::Parse);
            },
        }
        i += 1;
    }
    proof {
        assert(targets_of_list(elems) is Some);
        assert(targets_view(out@) =~= targets_of_list(elems).unwrap());
    }
    Ok(out)
}

} // verus!
