//! The `Fetch` domain.
use vstd::prelude::*;

verus! {

/// Identifies a request that the Fetch domain has paused.
#[derive(Debug, PartialEq, Eq)]
pub struct RequestId(pub String);

impl DeepView for RequestId {
    type V = Seq<char>;

    open spec fn deep_view(&self) -> Seq<char> {
        self.0@
    }
}

impl Clone for RequestId {
    fn clone(&self) -> (copy: RequestId)
        ensures
            copy == *self,
    {
        RequestId(self.0.clone())
    }
}

} // verus!
