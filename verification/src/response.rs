//! The contract-produced result of an entry-point call: an ordered sequence
//! of emitted attributes plus an optional opaque binary `data` payload.

use vstd::prelude::*;

verus! {

/// One emitted key/value annotation.
#[derive(Clone, Debug)]
pub struct Attribute {
    pub key: String,
    pub value: String,
}

/// What an instantiate, execute or migrate handler hands back to the chain
/// runtime.
#[derive(Clone, Debug)]
pub struct Response {
    pub attributes: Vec<Attribute>,
    pub data: Option<Vec<u8>>,
}

/// What a query handler hands back: an opaque binary payload.
#[derive(Clone, Debug)]
pub struct QueryResponse {
    pub bytes: Vec<u8>,
}

impl Response {
    /// No attributes and no data payload.
    pub open spec fn is_empty(&self) -> bool {
        &&& self.attributes@.len() == 0
        &&& self.data is None
    }

    /// The bytes of the data payload, if one is set.
    pub open spec fn data_bytes(&self) -> Option<Seq<u8>> {
        match self.data {
            Some(d) => Some(d@),
            None => None,
        }
    }

    pub fn new() -> (r: Response)
        ensures
            r.is_empty(),
    {
        Response { attributes: Vec::new(), data: None }
    }

    /// Replaces the data payload, leaving the attributes untouched.
    pub fn set_data(self, data: Vec<u8>) -> (r: Response)
        ensures
            r.attributes@ == self.attributes@,
            r.data_bytes() == Some(data@),
    {
        Response { attributes: self.attributes, data: Some(data) }
    }
}

impl QueryResponse {
    /// An empty binary payload.
    pub fn empty() -> (r: QueryResponse)
        ensures
            r.bytes@ == Seq::<u8>::empty(),
    {
        QueryResponse { bytes: Vec::new() }
    }
}

} // verus!
