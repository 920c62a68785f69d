//! Filters for service listings.

use vstd::prelude::*;

verus! {

/// One filter on a service listing, rendered as a query key/value
/// pair.
pub enum ServiceFilter {
    Id(String),
    Label(String),
    ReplicatedMode,
    GlobalMode,
    Name(String),
}

impl ServiceFilter {
    /// The query key and value this filter contributes to the listing
    /// request.
    pub fn query_key_val(&self) -> (r: (&'static str, String))
        ensures
            self matches ServiceFilter::Id(i) ==> r.0@ == "id"@ && r.1@ == i@,
            self matches ServiceFilter::Label(l) ==> r.0@ == "label"@ && r.1@ == l@,
            self matches ServiceFilter::ReplicatedMode ==> r.0@ == "mode"@ && r.1@
                == "replicated"@,
            self matches ServiceFilter::GlobalMode ==> r.0@ == "mode"@ && r.1@ == "global"@,
            self matches ServiceFilter::Name(n) ==> r.0@ == "name"@ && r.1@ == n@,
    {
        match self {
            ServiceFilter::Id(i) => ("id", i.clone()),
            ServiceFilter::Label(l) => ("label", l.clone()),
            ServiceFilter::ReplicatedMode => ("mode", String::from_str("replicated")),
            ServiceFilter::GlobalMode => ("mode", String::from_str("global")),
            ServiceFilter::Name(n) => ("name", n.clone()),
        }
    }
}

} // verus!
