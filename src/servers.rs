//! The server list of a Steam Web API response, read from its document.

use vstd::prelude::*;
use crate::kv::{KeyValue, lookup, path_view};
use crate::order::{stable_order, children_of, leaf_strings};

verus! {

broadcast use vstd::seq::group_seq_axioms, vstd::std_specs::vec::group_vec_axioms;

/// Why a response does not hold a server list.
#[derive(Debug)]
pub enum WebApiError {
    /// A section the list needs is missing.
    BadResponse,
}

/// The connection manager addresses, for plain TCP and for websockets.
#[derive(Debug)]
pub struct Servers {
    pub tcp: Vec<String>,
    pub websocket: Vec<String>,
}

/// The strings of `v`.
pub open spec fn strings_view(v: Seq<String>) -> Seq<Seq<char>> {
    v.map_values(|s: String| s@)
}

/// `r` holds the leaf strings of `d`'s children in stable numeric order.
pub open spec fn ordered_leaves_of(d: crate::kv::Doc, r: Seq<Seq<char>>) -> bool {
    exists|p: Seq<int>| stable_order(children_of(d), p) && r == leaf_strings(children_of(d), p)
}

/// The leaf strings of a node's children, in numeric order, as owned strings.
fn owned_leaves(kv: &KeyValue) -> (r: Vec<String>)
    ensures
        ordered_leaves_of(kv@, strings_view(r@)),
{
    let v = kv.as_str_vec();
    let mut out: Vec<String> = Vec::new();
    let mut i: usize = 0;
    while i < v.len()
        invariant
            i <= v@.len(),
            out@.len() == i,
            forall|t: int| 0 <= t < i ==> #[trigger] out@[t]@ == v@[t]@,
        decreases v@.len() - i,
    {
        let s: &str = v[i];
        let owned = s.to_owned();
        out.push(owned);
        i = i + 1;
    }
    assert(strings_view(out@) =~= v@.map_values(|s: &str| s@));
    out
}

impl Servers {
    /// Reads `response/serverlist` and `response/serverlist_websockets`, the
    /// leaves of each in numeric order of their keys.
    pub fn from_document(kv: &KeyValue) -> (r: Result<Servers, WebApiError>)
        ensures
            match (
                lookup(kv@, seq!["response"@, "serverlist"@]),
                lookup(kv@, seq!["response"@, "serverlist_websockets"@]),
            ) {
                (Some(t), Some(w)) => r matches Ok(s) && ordered_leaves_of(t, strings_view(s.tcp@))
                    && ordered_leaves_of(w, strings_view(s.websocket@)),
                _ => r matches Err(WebApiError::BadResponse),
            },
    {
        let tcp_path: [&str; 2] = ["response", "serverlist"];
        let ws_path: [&str; 2] = ["response", "serverlist_websockets"];
        proof {
            assert(path_view(tcp_path@) =~= seq!["response"@, "serverlist"@]);
            assert(path_view(ws_path@) =~= seq!["response"@, "serverlist_websockets"@]);
        }
        let tcp = match kv.get(&tcp_path) {
            Some(t) => owned_leaves(t),
            None => return Err(WebApiError::BadResponse),
        };
        let websocket = match kv.get(&ws_path) {
            Some(w) => owned_leaves(w),
            None => return Err(WebApiError::BadResponse),
        };
        Ok(Servers { tcp, websocket })
    }
}

} // verus!
