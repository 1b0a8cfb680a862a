//! The `Browser` domain.
use vstd::prelude::*;

use crate::json::Json;

verus! {

/// What `Browser.getVersion` returns, as far as it is read here.
#[derive(Debug, PartialEq, Eq)]
pub struct GetVersionReturns {
    pub user_agent: String,
    /// The whole of what was returned.
    pub details: Json,
}

/// The contents of a [`GetVersionReturns`].
pub struct GetVersionReturnsView {
    pub user_agent: Seq<char>,
    pub details: Seq<char>,
}

impl DeepView for GetVersionReturns {
    type V = GetVersionReturnsView;

    open spec fn deep_view(&self) -> GetVersionReturnsView {
        GetVersionReturnsView {
            user_agent: self.user_agent.deep_view(),
            details: self.details.deep_view(),
        }
    }
}

} // verus!
