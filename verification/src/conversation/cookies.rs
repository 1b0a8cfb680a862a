//! Cookies that are set and deleted.
use vstd::prelude::*;

use crate::cdp::command::{CommandView, Domain};
use crate::cdp::network::{
    CookieParam, CookieParamView, DeleteCookiesParams, DeleteCookiesParamsView,
};
use crate::cookies::{
    cookies_on, deletions, deletions_on, first_url_error, replacements, set_cookie_on_op,
    set_cookie_op, set_cookies_on_op, set_cookies_op, DeleteCookieOn, DeleteCookiesOn, SetCookieOn,
    SetCookiesOn,
};
use crate::error::ErrorView;
use crate::flow::{bind, done, fail, remaining, Await, Chain, Step};
use crate::json::Json;
use crate::laws::{bind_only_asks, only_asks};
use crate::names::NameMap;
use crate::page::{url_op, Page};
use crate::protocol::{ReplyView, RequestView};
use crate::sequence::{sequence, Sequence};

verus! {

/// Whether two cookies agree on all but the URL.
pub open spec fn agree_but_for_url(a: CookieParamView, b: CookieParamView) -> bool {
    &&& a.name == b.name
    &&& a.value == b.value
    &&& a.domain == b.domain
    &&& a.path == b.path
    &&& a.secure == b.secure
    &&& a.http_only == b.http_only
    &&& a.same_site == b.same_site
    &&& a.expires == b.expires
    &&& a.priority == b.priority
    &&& a.same_party == b.same_party
    &&& a.source_scheme == b.source_scheme
    &&& a.source_port == b.source_port
    &&& a.partition_key == b.partition_key
}

/// Whether there can be cookies for a URL: it neither starts with `data:` nor is
/// `about:blank`.
pub open spec fn can_have_cookies(url: Seq<char>) -> bool {
    !"data:"@.is_prefix_of(url) && url != "about:blank"@
}

/// The URL that a cookie without one is set for on a page: that of the page, where it starts
/// with `http`, else none.
pub open spec fn url_on_page(given: Option<Seq<char>>, page_url: Seq<char>) -> Option<Seq<char>> {
    if given is Some {
        given
    } else if "http"@.is_prefix_of(page_url) {
        Some(page_url)
    } else {
        None
    }
}

/// Why there can be no cookie for a URL.
pub open spec fn refusal(url: Seq<char>) -> ErrorView
    recommends
        !can_have_cookies(url),
{
    if "data:"@.is_prefix_of(url) {
        ErrorView::ChromeMessage("Data URL page can not have cookie"@)
    } else {
        ErrorView::ChromeMessage("Blank page can not have cookie"@)
    }
}

/// Whatever the browser answers, to set a cookie sets that one cookie and none else: it agrees
/// with the one given on all but the URL, and on the URL too where that is given. What is
/// deleted has its name.
pub proof fn set_cookie_keeps_the_cookie(cookie: CookieParamView)
    ensures
        only_asks(
            set_cookie_op(cookie),
            |request: RequestView|
                match request {
                    RequestView::Command(CommandView::SetCookies { cookies }) => {
                        &&& cookies.len() == 1
                        &&& agree_but_for_url(cookies[0], cookie)
                        &&& cookie.url is Some ==> cookies[0].url == cookie.url
                    },
                    RequestView::Command(CommandView::DeleteCookies(deleted)) => {
                        &&& deleted.name == cookie.name
                        &&& deleted.domain == cookie.domain
                        &&& deleted.path == cookie.path
                        &&& deleted.partition_key == cookie.partition_key
                        &&& cookie.url is Some ==> deleted.url == cookie.url
                    },
                    RequestView::Url { frame_id } => frame_id is None && cookie.url is None,
                    _ => false,
                },
        ),
{
    let allowed = |request: RequestView|
        match request {
            RequestView::Command(CommandView::SetCookies { cookies }) => {
                &&& cookies.len() == 1
                &&& agree_but_for_url(cookies[0], cookie)
                &&& cookie.url is Some ==> cookies[0].url == cookie.url
            },
            RequestView::Command(CommandView::DeleteCookies(deleted)) => {
                &&& deleted.name == cookie.name
                &&& deleted.domain == cookie.domain
                &&& deleted.path == cookie.path
                &&& deleted.partition_key == cookie.partition_key
                &&& cookie.url is Some ==> deleted.url == cookie.url
            },
            RequestView::Url { frame_id } => frame_id is None && cookie.url is None,
            _ => false,
        };
    reveal_with_fuel(sequence, 3);
    reveal_with_fuel(only_asks, 3);
    if cookie.url is None {
        let after = |page_url: Option<Seq<char>>| set_cookie_on_op(cookie, page_url);
        assert forall|page_url: Option<Seq<char>>|
            only_asks(#[trigger] after(page_url), allowed) by {
        }
        bind_only_asks(url_op(None), after, allowed);
    }
}

/// Whatever the browser answers, to set cookies sets as many as are given, in their order:
/// each agrees with the one given on all but the URL, and on the URL too where that is given.
/// As many are deleted, each with the name, the domain, the path and the partition of the one
/// that is set.
pub proof fn set_cookies_keeps_the_cookies(cookies: Seq<CookieParamView>)
    ensures
        only_asks(
            set_cookies_op(cookies),
            |request: RequestView|
                match request {
                    RequestView::Command(CommandView::SetCookies { cookies: set }) => {
                        &&& set.len() == cookies.len()
                        &&& forall|i: int|
                            #![trigger set[i]]
                            #![trigger cookies[i]]
                            0 <= i < cookies.len() ==> {
                                &&& agree_but_for_url(set[i], cookies[i])
                                &&& cookies[i].url is Some ==> set[i].url == cookies[i].url
                            }
                    },
                    RequestView::Batch { commands, at_once } => {
                        &&& commands.len() == cookies.len()
                        &&& at_once == Some(5usize)
                        &&& forall|i: int|
                            #![trigger commands[i]]
                            #![trigger cookies[i]]
                            0 <= i < cookies.len() ==> {
                                &&& commands[i] is DeleteCookies
                                &&& commands[i]->DeleteCookies_0.name == cookies[i].name
                                &&& commands[i]->DeleteCookies_0.domain == cookies[i].domain
                                &&& commands[i]->DeleteCookies_0.path == cookies[i].path
                                &&& commands[i]->DeleteCookies_0.partition_key
                                    == cookies[i].partition_key
                                &&& cookies[i].url is Some ==> commands[i]->DeleteCookies_0.url
                                    == cookies[i].url
                            }
                    },
                    RequestView::Url { frame_id } => frame_id is None,
                    _ => false,
                },
        ),
{
    let allowed = |request: RequestView|
        match request {
            RequestView::Command(CommandView::SetCookies { cookies: set }) => {
                &&& set.len() == cookies.len()
                &&& forall|i: int|
                    #![trigger set[i]]
                    #![trigger cookies[i]]
                    0 <= i < cookies.len() ==> {
                        &&& agree_but_for_url(set[i], cookies[i])
                        &&& cookies[i].url is Some ==> set[i].url == cookies[i].url
                    }
            },
            RequestView::Batch { commands, at_once } => {
                &&& commands.len() == cookies.len()
                &&& at_once == Some(5usize)
                &&& forall|i: int|
                    #![trigger commands[i]]
                    #![trigger cookies[i]]
                    0 <= i < cookies.len() ==> {
                        &&& commands[i] is DeleteCookies
                        &&& commands[i]->DeleteCookies_0.name == cookies[i].name
                        &&& commands[i]->DeleteCookies_0.domain == cookies[i].domain
                        &&& commands[i]->DeleteCookies_0.path == cookies[i].path
                        &&& commands[i]->DeleteCookies_0.partition_key == cookies[i].partition_key
                        &&& cookies[i].url is Some ==> commands[i]->DeleteCookies_0.url
                            == cookies[i].url
                    }
            },
            RequestView::Url { frame_id } => frame_id is None,
            _ => false,
        };
    reveal_with_fuel(sequence, 3);
    reveal_with_fuel(only_asks, 3);
    let after = |page_url: Option<Seq<char>>| set_cookies_on_op(cookies, page_url);
    assert forall|page_url: Option<Seq<char>>| only_asks(#[trigger] after(page_url), allowed) by {
    }
    bind_only_asks(url_op(None), after, allowed);
}

/// A cookie with a URL that can have cookies is set for that URL, once the cookies that it
/// replaces are deleted. The page is asked for nothing.
pub proof fn cookie_is_set_for_its_url(
    page: &Page,
    cookie: CookieParam,
    step: Step<Chain<Await<Option<String>>, SetCookieOn>, ()>,
    deleted: ReplyView,
    set: ReplyView,
)
    requires
        call_ensures(Page::set_cookie, (page, cookie), step),
        cookie.url is Some,
        can_have_cookies(cookie.url->0@),
    ensures
        remaining(step).sends(
            CommandView::DeleteCookies(
                DeleteCookiesParamsView {
                    name: cookie.name@,
                    url: Some(cookie.url->0@),
                    domain: cookie.deep_view().domain,
                    path: cookie.deep_view().path,
                    partition_key: cookie.deep_view().partition_key,
                },
            ),
            deleted,
        ).sends(CommandView::SetCookies { cookies: seq![cookie.deep_view()] }, set) == done(()),
{
    reveal_with_fuel(sequence, 3);
}

/// A cookie is refused, and nothing is asked for, where its URL can have no cookies.
pub proof fn cookie_is_refused_for_its_url(
    page: &Page,
    cookie: CookieParam,
    step: Step<Chain<Await<Option<String>>, SetCookieOn>, ()>,
)
    requires
        call_ensures(Page::set_cookie, (page, cookie), step),
        cookie.url is Some,
        !can_have_cookies(cookie.url->0@),
    ensures
        remaining(step) == fail::<()>(refusal(cookie.url->0@)),
{
}

/// A cookie without a URL is set for that of the page, where that starts with `http`, once the
/// cookies that it replaces there are deleted. In all else it is set as it is given.
pub proof fn cookie_is_set_for_the_page(
    page: &Page,
    cookie: CookieParam,
    step: Step<Chain<Await<Option<String>>, SetCookieOn>, ()>,
    page_url: Seq<char>,
    deleted: ReplyView,
    set: ReplyView,
)
    requires
        call_ensures(Page::set_cookie, (page, cookie), step),
        cookie.url is None,
        can_have_cookies(page_url),
    ensures
        ({
            let given = cookie.deep_view();
            let url = url_on_page(None, page_url);
            remaining(step).asks(
                RequestView::Url { frame_id: None },
                ReplyView::OptionalText(Some(page_url)),
            ).sends(
                CommandView::DeleteCookies(
                    DeleteCookiesParamsView {
                        name: given.name,
                        url,
                        domain: given.domain,
                        path: given.path,
                        partition_key: given.partition_key,
                    },
                ),
                deleted,
            ).sends(
                CommandView::SetCookies {
                    cookies: seq![
                        CookieParamView {
                            name: given.name,
                            value: given.value,
                            url,
                            domain: given.domain,
                            path: given.path,
                            secure: given.secure,
                            http_only: given.http_only,
                            same_site: given.same_site,
                            expires: given.expires,
                            priority: given.priority,
                            same_party: given.same_party,
                            source_scheme: given.source_scheme,
                            source_port: given.source_port,
                            partition_key: given.partition_key,
                        },
                    ],
                },
                set,
            ) == done(())
        }),
{
    reveal_with_fuel(bind, 2);
    reveal_with_fuel(sequence, 3);
}

/// A cookie without a URL is refused on a page that can have no cookies, or that has no URL.
pub proof fn cookie_is_refused_on_the_page(
    page: &Page,
    cookie: CookieParam,
    step: Step<Chain<Await<Option<String>>, SetCookieOn>, ()>,
    page_url: Option<Seq<char>>,
)
    requires
        call_ensures(Page::set_cookie, (page, cookie), step),
        cookie.url is None,
        page_url is Some ==> !can_have_cookies(page_url->0),
    ensures
        remaining(step).asks(
            RequestView::Url { frame_id: None },
            ReplyView::OptionalText(page_url),
        ) == fail::<()>(
            if page_url is Some {
                refusal(page_url->0)
            } else {
                ErrorView::ChromeMessage("Page url not found"@)
            },
        ),
{
    reveal_with_fuel(bind, 2);
}

/// Cookies of which one can have no URL are refused for the first such URL.
proof fn first_bad_url_decides(cookies: Seq<CookieParamView>, i: int)
    requires
        0 <= i < cookies.len(),
        cookies[i].url is Some,
        !can_have_cookies(cookies[i].url->0),
        forall|j: int|
            0 <= j < i ==> ((#[trigger] cookies[j]).url is Some ==> can_have_cookies(
                cookies[j].url->0,
            )),
    ensures
        first_url_error(cookies) == Some(refusal(cookies[i].url->0)),
    decreases i,
{
    if i > 0 {
        assert(cookies[0].url is Some ==> can_have_cookies(cookies[0].url->0));
        assert forall|j: int|
            0 <= j < i - 1 && (#[trigger] cookies.skip(1)[j]).url is Some implies can_have_cookies(
            cookies.skip(1)[j].url->0,
        ) by {
            assert(cookies.skip(1)[j] == cookies[j + 1]);
        }
        first_bad_url_decides(cookies.skip(1), i - 1);
    }
}

/// Cookies whose URLs can all have cookies are not refused.
proof fn good_urls_are_not_refused(cookies: Seq<CookieParamView>)
    requires
        forall|j: int|
            0 <= j < cookies.len() ==> ((#[trigger] cookies[j]).url is Some ==> can_have_cookies(
                cookies[j].url->0,
            )),
    ensures
        first_url_error(cookies) is None,
    decreases cookies.len(),
{
    if cookies.len() > 0 {
        assert(cookies[0].url is Some ==> can_have_cookies(cookies[0].url->0));
        assert forall|j: int|
            0 <= j < cookies.skip(1).len() && (
            #[trigger] cookies.skip(1)[j]).url is Some implies can_have_cookies(
            cookies.skip(1)[j].url->0,
        ) by {
            assert(cookies.skip(1)[j] == cookies[j + 1]);
        }
        good_urls_are_not_refused(cookies.skip(1));
    }
}

/// Cookies whose URLs can have cookies are set together on a page that can have cookies, each
/// as it is given, with the URL of the page where it has none and the page has one. Before,
/// what they replace is deleted, five at a time.
pub proof fn cookies_are_set_on_the_page(
    page: &Page,
    cookies: Vec<CookieParam>,
    step: Step<Chain<Await<Option<String>>, SetCookiesOn>, ()>,
    page_url: Seq<char>,
    deleted: ReplyView,
    set: ReplyView,
)
    requires
        call_ensures(Page::set_cookies, (page, cookies), step),
        can_have_cookies(page_url),
        forall|j: int|
            0 <= j < cookies.deep_view().len() ==> ((#[trigger] cookies.deep_view()[j]).url is Some
                ==> can_have_cookies(cookies.deep_view()[j].url->0)),
    ensures
        remaining(step).asks(
            RequestView::Url { frame_id: None },
            ReplyView::OptionalText(Some(page_url)),
        ).asks(
            RequestView::Batch {
                commands: cookies.deep_view().map_values(
                    |given: CookieParamView|
                        CommandView::DeleteCookies(
                            DeleteCookiesParamsView {
                                name: given.name,
                                url: url_on_page(given.url, page_url),
                                domain: given.domain,
                                path: given.path,
                                partition_key: given.partition_key,
                            },
                        ),
                ),
                at_once: Some(5usize),
            },
            deleted,
        ).sends(
            CommandView::SetCookies {
                cookies: cookies.deep_view().map_values(
                    |given: CookieParamView|
                        CookieParamView {
                            name: given.name,
                            value: given.value,
                            url: url_on_page(given.url, page_url),
                            domain: given.domain,
                            path: given.path,
                            secure: given.secure,
                            http_only: given.http_only,
                            same_site: given.same_site,
                            expires: given.expires,
                            priority: given.priority,
                            same_party: given.same_party,
                            source_scheme: given.source_scheme,
                            source_port: given.source_port,
                            partition_key: given.partition_key,
                        },
                ),
            },
            set,
        ) == done(()),
{
    let given = cookies.deep_view();
    good_urls_are_not_refused(given);
    assert(cookies_on(given, page_url) =~= given.map_values(
        |given: CookieParamView|
            CookieParamView {
                name: given.name,
                value: given.value,
                url: url_on_page(given.url, page_url),
                domain: given.domain,
                path: given.path,
                secure: given.secure,
                http_only: given.http_only,
                same_site: given.same_site,
                expires: given.expires,
                priority: given.priority,
                same_party: given.same_party,
                source_scheme: given.source_scheme,
                source_port: given.source_port,
                partition_key: given.partition_key,
            },
    ));
    assert(replacements(cookies_on(given, page_url)) =~= given.map_values(
        |given: CookieParamView|
            CommandView::DeleteCookies(
                DeleteCookiesParamsView {
                    name: given.name,
                    url: url_on_page(given.url, page_url),
                    domain: given.domain,
                    path: given.path,
                    partition_key: given.partition_key,
                },
            ),
    ));
    reveal_with_fuel(bind, 2);
    reveal_with_fuel(sequence, 3);
}

/// No cookie is set where one of them has a URL that can have none: the first such URL is
/// refused. Nor is one set on a page that can have no cookies, or that has no URL.
pub proof fn cookies_are_refused(
    page: &Page,
    cookies: Vec<CookieParam>,
    step: Step<Chain<Await<Option<String>>, SetCookiesOn>, ()>,
    page_url: Seq<char>,
    i: int,
)
    requires
        call_ensures(Page::set_cookies, (page, cookies), step),
    ensures
        remaining(step).asks(
            RequestView::Url { frame_id: None },
            ReplyView::OptionalText(None),
        ) == fail::<()>(ErrorView::ChromeMessage("Page url not found"@)),
        !can_have_cookies(page_url) ==> remaining(step).asks(
            RequestView::Url { frame_id: None },
            ReplyView::OptionalText(Some(page_url)),
        ) == fail::<()>(refusal(page_url)),
        ({
            &&& can_have_cookies(page_url)
            &&& 0 <= i < cookies.deep_view().len()
            &&& cookies.deep_view()[i].url is Some
            &&& !can_have_cookies(cookies.deep_view()[i].url->0)
            &&& forall|j: int|
                0 <= j < i ==> ((#[trigger] cookies.deep_view()[j]).url is Some
                    ==> can_have_cookies(cookies.deep_view()[j].url->0))
        }) ==> remaining(step).asks(
            RequestView::Url { frame_id: None },
            ReplyView::OptionalText(Some(page_url)),
        ) == fail::<()>(refusal(cookies.deep_view()[i].url->0)),
{
    let given = cookies.deep_view();
    reveal_with_fuel(bind, 2);
    if can_have_cookies(page_url) && 0 <= i < given.len() && given[i].url is Some
        && !can_have_cookies(given[i].url->0) && (forall|j: int|
        0 <= j < i ==> ((#[trigger] given[j]).url is Some ==> can_have_cookies(given[j].url->0))) {
        first_bad_url_decides(given, i);
    }
}

/// A cookie is deleted by its name, its domain, its path and its partition as they are given,
/// and for the URL that is given, or where none is, for that of the page.
pub proof fn cookie_is_deleted(
    page: &Page,
    cookie: DeleteCookiesParams,
    step: Step<Chain<Await<Option<String>>, DeleteCookieOn>, ()>,
    page_url: Seq<char>,
    deleted: ReplyView,
)
    requires
        call_ensures(Page::delete_cookie, (page, cookie), step),
    ensures
        cookie.url is Some ==> remaining(step).sends(
            CommandView::DeleteCookies(cookie.deep_view()),
            deleted,
        ) == done(()),
        cookie.url is None ==> remaining(step).asks(
            RequestView::Url { frame_id: None },
            ReplyView::OptionalText(Some(page_url)),
        ).sends(
            CommandView::DeleteCookies(
                DeleteCookiesParamsView {
                    name: cookie.deep_view().name,
                    url: url_on_page(None, page_url),
                    domain: cookie.deep_view().domain,
                    path: cookie.deep_view().path,
                    partition_key: cookie.deep_view().partition_key,
                },
            ),
            deleted,
        ) == done(()),
        cookie.url is None ==> remaining(step).asks(
            RequestView::Url { frame_id: None },
            ReplyView::OptionalText(None),
        ) == fail::<()>(ErrorView::ChromeMessage("Page url not found"@)),
{
    reveal_with_fuel(bind, 2);
}

/// Cookies are deleted each as it is given, five at a time. The page is asked for its URL only
/// where one of them has none, and gives its URL to those.
pub proof fn cookies_are_deleted(
    page: &Page,
    cookies: Vec<DeleteCookiesParams>,
    step: Step<Chain<Await<Option<String>>, DeleteCookiesOn>, ()>,
    page_url: Seq<char>,
    deleted: ReplyView,
    i: int,
)
    requires
        call_ensures(Page::delete_cookies, (page, cookies), step),
    ensures
        (forall|j: int|
            0 <= j < cookies.deep_view().len() ==> (#[trigger] cookies.deep_view()[j]).url is Some)
            ==> remaining(step).asks(
            RequestView::Batch {
                commands: cookies.deep_view().map_values(
                    |given: DeleteCookiesParamsView| CommandView::DeleteCookies(given),
                ),
                at_once: Some(5usize),
            },
            deleted,
        ) == done(()),
        (0 <= i < cookies.deep_view().len() && cookies.deep_view()[i].url is None)
            ==> remaining(step).asks(
            RequestView::Url { frame_id: None },
            ReplyView::OptionalText(Some(page_url)),
        ).asks(
            RequestView::Batch {
                commands: cookies.deep_view().map_values(
                    |given: DeleteCookiesParamsView|
                        CommandView::DeleteCookies(
                            DeleteCookiesParamsView {
                                name: given.name,
                                url: url_on_page(given.url, page_url),
                                domain: given.domain,
                                path: given.path,
                                partition_key: given.partition_key,
                            },
                        ),
                ),
                at_once: Some(5usize),
            },
            deleted,
        ) == done(()),
        (0 <= i < cookies.deep_view().len() && cookies.deep_view()[i].url is None)
            ==> remaining(step).asks(
            RequestView::Url { frame_id: None },
            ReplyView::OptionalText(None),
        ) == fail::<()>(ErrorView::ChromeMessage("Page url not found"@)),
{
    let given = cookies.deep_view();
    assert(deletions(given) =~= given.map_values(
        |given: DeleteCookiesParamsView| CommandView::DeleteCookies(given),
    ));
    assert(deletions_on(given, page_url) =~= given.map_values(
        |given: DeleteCookiesParamsView|
            CommandView::DeleteCookies(
                DeleteCookiesParamsView {
                    name: given.name,
                    url: url_on_page(given.url, page_url),
                    domain: given.domain,
                    path: given.path,
                    partition_key: given.partition_key,
                },
            ),
    ));
    reveal_with_fuel(bind, 2);
}

/// The cookies of the page are asked for, and passed on unread.
pub proof fn cookies_are_read(page: &Page, step: Step<Await<Json>, Json>, cookies: Seq<char>)
    requires
        call_ensures(Page::get_cookies, (page,), step),
    ensures
        remaining(step).sends(CommandView::GetCookies, ReplyView::Payload(cookies)) == done(
            cookies,
        ),
{
}

/// Headers are set as they are given, once the network domain is on.
pub proof fn headers_are_set(
    page: &Page,
    headers: NameMap<String>,
    step: Step<Sequence, ()>,
    enabled: ReplyView,
    set: ReplyView,
)
    requires
        call_ensures(Page::set_extra_http_headers, (page, headers), step),
    ensures
        remaining(step).sends(CommandView::Enable(Domain::Network), enabled).sends(
            CommandView::SetExtraHttpHeaders { headers: headers.deep_view() },
            set,
        ) == done(()),
{
    reveal_with_fuel(sequence, 3);
}

} // verus!
