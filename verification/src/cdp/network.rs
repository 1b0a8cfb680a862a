//! The `Network` domain.
use vstd::prelude::*;

use crate::json::Json;
use crate::number::Num;

verus! {

/// Identifies a request of the Network domain.
#[derive(Debug, PartialEq, Eq)]
pub struct RequestId(pub String);

impl DeepView for RequestId {
    type V = Seq<char>;

    open spec fn deep_view(&self) -> Seq<char> {
        self.0@
    }
}

impl Clone for RequestId {
    fn clone(&self) -> (copy: RequestId)
        ensures
            copy == *self,
    {
        RequestId(self.0.clone())
    }
}

/// Identifies an intercepted request.
#[derive(Debug, PartialEq, Eq)]
pub struct InterceptionId(pub String);

impl DeepView for InterceptionId {
    type V = Seq<char>;

    open spec fn deep_view(&self) -> Seq<char> {
        self.0@
    }
}

impl Clone for InterceptionId {
    fn clone(&self) -> (copy: InterceptionId)
        ensures
            copy == *self,
    {
        InterceptionId(self.0.clone())
    }
}

/// A cookie to set.
#[derive(Debug, PartialEq, Eq)]
pub struct CookieParam {
    pub name: String,
    pub value: String,
    pub url: Option<String>,
    pub domain: Option<String>,
    pub path: Option<String>,
    pub secure: Option<bool>,
    pub http_only: Option<bool>,
    pub same_site: Option<String>,
    pub expires: Option<Num>,
    pub priority: Option<String>,
    pub same_party: Option<bool>,
    pub source_scheme: Option<String>,
    pub source_port: Option<i64>,
    pub partition_key: Option<String>,
}

/// The contents of a [`CookieParam`].
pub struct CookieParamView {
    pub name: Seq<char>,
    pub value: Seq<char>,
    pub url: Option<Seq<char>>,
    pub domain: Option<Seq<char>>,
    pub path: Option<Seq<char>>,
    pub secure: Option<bool>,
    pub http_only: Option<bool>,
    pub same_site: Option<Seq<char>>,
    pub expires: Option<Num>,
    pub priority: Option<Seq<char>>,
    pub same_party: Option<bool>,
    pub source_scheme: Option<Seq<char>>,
    pub source_port: Option<i64>,
    pub partition_key: Option<Seq<char>>,
}

impl DeepView for CookieParam {
    type V = CookieParamView;

    open spec fn deep_view(&self) -> CookieParamView {
        CookieParamView {
            name: self.name.deep_view(),
            value: self.value.deep_view(),
            url: self.url.deep_view(),
            domain: self.domain.deep_view(),
            path: self.path.deep_view(),
            secure: self.secure,
            http_only: self.http_only,
            same_site: self.same_site.deep_view(),
            expires: self.expires,
            priority: self.priority.deep_view(),
            same_party: self.same_party,
            source_scheme: self.source_scheme.deep_view(),
            source_port: self.source_port,
            partition_key: self.partition_key.deep_view(),
        }
    }
}

/// Parameters of `Network.deleteCookies`: which cookies to delete.
#[derive(Debug, PartialEq, Eq)]
pub struct DeleteCookiesParams {
    pub name: String,
    pub url: Option<String>,
    pub domain: Option<String>,
    pub path: Option<String>,
    pub partition_key: Option<String>,
}

/// The contents of a [`DeleteCookiesParams`].
pub struct DeleteCookiesParamsView {
    pub name: Seq<char>,
    pub url: Option<Seq<char>>,
    pub domain: Option<Seq<char>>,
    pub path: Option<Seq<char>>,
    pub partition_key: Option<Seq<char>>,
}

impl DeepView for DeleteCookiesParams {
    type V = DeleteCookiesParamsView;

    open spec fn deep_view(&self) -> DeleteCookiesParamsView {
        DeleteCookiesParamsView {
            name: self.name.deep_view(),
            url: self.url.deep_view(),
            domain: self.domain.deep_view(),
            path: self.path.deep_view(),
            partition_key: self.partition_key.deep_view(),
        }
    }
}

/// Parameters of `Network.setUserAgentOverride`.
#[derive(Debug, PartialEq, Eq)]
pub struct SetUserAgentOverrideParams {
    pub user_agent: String,
    pub accept_language: Option<String>,
    pub platform: Option<String>,
    pub user_agent_metadata: Option<Json>,
}

/// The contents of a [`SetUserAgentOverrideParams`].
pub struct SetUserAgentOverrideParamsView {
    pub user_agent: Seq<char>,
    pub accept_language: Option<Seq<char>>,
    pub platform: Option<Seq<char>>,
    pub user_agent_metadata: Option<Seq<char>>,
}

impl DeepView for SetUserAgentOverrideParams {
    type V = SetUserAgentOverrideParamsView;

    open spec fn deep_view(&self) -> SetUserAgentOverrideParamsView {
        SetUserAgentOverrideParamsView {
            user_agent: self.user_agent.deep_view(),
            accept_language: self.accept_language.deep_view(),
            platform: self.platform.deep_view(),
            user_agent_metadata: self.user_agent_metadata.deep_view(),
        }
    }
}

} // verus!
