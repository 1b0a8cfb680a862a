//! The cookies of a page.
use vstd::prelude::*;

use crate::cdp::command::{Command, CommandView, Domain};
use crate::cdp::convert::cookies_replaced_by;
use crate::cdp::network::{
    CookieParam, CookieParamView, DeleteCookiesParams, DeleteCookiesParamsView,
};
use crate::error::{CdpError, ErrorView};
use crate::flow::{
    ask, asking, bind, chain, execute, executing, fail, follows, result_view, same_is_equal, second,
    Await, Chain, Next, Prog, Start, Step,
};
use crate::json::Json;
use crate::laws::{asks_first, bind_asks_first, bind_only_asks, only_asks};
use crate::names::NameMap;
use crate::page::{url_op, Page};
use crate::protocol::{Request, RequestView};
use crate::sequence::{in_sequence, sequence, Sequence};
use crate::text::{same_text, starts_with};

verus! {

/// How many cookies are deleted at a time.
pub const DELETED_AT_ONCE: usize = 5;

/// Why there can be no cookie for a URL, where there can be none.
pub open spec fn cookie_url_error(url: Seq<char>) -> Option<ErrorView> {
    if "data:"@.is_prefix_of(url) {
        Some(ErrorView::ChromeMessage("Data URL page can not have cookie"@))
    } else if url == "about:blank"@ {
        Some(ErrorView::ChromeMessage("Blank page can not have cookie"@))
    } else {
        None
    }
}

/// Whether a URL is one that cookies are set for by default.
pub open spec fn is_http(url: Seq<char>) -> bool {
    "http"@.is_prefix_of(url)
}

/// The error where the page has no URL.
pub open spec fn url_not_found() -> ErrorView {
    ErrorView::ChromeMessage("Page url not found"@)
}

/// A URL, or where there is none and the page has one for cookies, that of the page.
pub open spec fn url_or_page(url: Option<Seq<char>>, page_url: Seq<char>) -> Option<Seq<char>> {
    if url is None && is_http(page_url) {
        Some(page_url)
    } else {
        url
    }
}

/// A cookie, with the URL of the page where it has none.
pub open spec fn cookie_on(cookie: CookieParamView, page_url: Seq<char>) -> CookieParamView {
    CookieParamView { url: url_or_page(cookie.url, page_url), ..cookie }
}

/// A deletion, with the URL of the page where it has none.
pub open spec fn deletion_on(
    cookie: DeleteCookiesParamsView,
    page_url: Seq<char>,
) -> DeleteCookiesParamsView {
    DeleteCookiesParamsView { url: url_or_page(cookie.url, page_url), ..cookie }
}

// What each operation does.

/// Deletes what a cookie replaces, then sets the cookie.
pub open spec fn replace_cookie_op(cookie: CookieParamView) -> Prog<()> {
    sequence(
        seq![
            RequestView::Command(CommandView::DeleteCookies(cookies_replaced_by(cookie))),
            RequestView::Command(CommandView::SetCookies { cookies: seq![cookie] }),
        ],
    )
}

/// Sets a cookie that has no URL on a page with the given one.
pub open spec fn set_cookie_on_op(cookie: CookieParamView, page_url: Option<Seq<char>>) -> Prog<
    (),
> {
    match page_url {
        Some(url) => match cookie_url_error(url) {
            Some(error) => fail(error),
            None => replace_cookie_op(cookie_on(cookie, url)),
        },
        None => fail(url_not_found()),
    }
}

/// Sets a cookie.
pub open spec fn set_cookie_op(cookie: CookieParamView) -> Prog<()> {
    match cookie.url {
        Some(url) => match cookie_url_error(url) {
            Some(error) => fail(error),
            None => replace_cookie_op(cookie),
        },
        None => bind(
            url_op(None),
            |page_url: Option<Seq<char>>| set_cookie_on_op(cookie, page_url),
        ),
    }
}

/// Why the first cookie that cannot be set cannot be set.
pub open spec fn first_url_error(cookies: Seq<CookieParamView>) -> Option<ErrorView>
    decreases cookies.len(),
{
    if cookies.len() == 0 {
        None
    } else {
        match cookies[0].url {
            Some(url) => match cookie_url_error(url) {
                Some(error) => Some(error),
                None => first_url_error(cookies.skip(1)),
            },
            None => first_url_error(cookies.skip(1)),
        }
    }
}

/// Cookies, with the URL of the page where they have none.
pub open spec fn cookies_on(cookies: Seq<CookieParamView>, page_url: Seq<char>) -> Seq<
    CookieParamView,
> {
    cookies.map_values(|cookie: CookieParamView| cookie_on(cookie, page_url))
}

/// The commands that delete what cookies replace.
pub open spec fn replacements(cookies: Seq<CookieParamView>) -> Seq<CommandView> {
    cookies.map_values(
        |cookie: CookieParamView| CommandView::DeleteCookies(cookies_replaced_by(cookie)),
    )
}

/// The request that deletes cookies, a few at a time.
pub open spec fn deletion_request(commands: Seq<CommandView>) -> RequestView {
    RequestView::Batch { commands, at_once: Some(DELETED_AT_ONCE) }
}

/// Deletes what cookies replace, then sets the cookies.
pub open spec fn replace_cookies_op(cookies: Seq<CookieParamView>) -> Prog<()> {
    sequence(
        seq![
            deletion_request(replacements(cookies)),
            RequestView::Command(CommandView::SetCookies { cookies }),
        ],
    )
}

/// Sets cookies on a page with the given URL.
pub open spec fn set_cookies_on_op(
    cookies: Seq<CookieParamView>,
    page_url: Option<Seq<char>>,
) -> Prog<()> {
    match page_url {
        Some(url) => match cookie_url_error(url) {
            Some(error) => fail(error),
            None => match first_url_error(cookies) {
                Some(error) => fail(error),
                None => replace_cookies_op(cookies_on(cookies, url)),
            },
        },
        None => fail(url_not_found()),
    }
}

/// Sets cookies.
pub open spec fn set_cookies_op(cookies: Seq<CookieParamView>) -> Prog<()> {
    bind(url_op(None), |page_url: Option<Seq<char>>| set_cookies_on_op(cookies, page_url))
}

/// Deletes a cookie from a page with the given URL.
pub open spec fn delete_cookie_on_op(
    cookie: DeleteCookiesParamsView,
    page_url: Option<Seq<char>>,
) -> Prog<()> {
    match page_url {
        Some(url) => execute::<()>(CommandView::DeleteCookies(deletion_on(cookie, url))),
        None => fail(url_not_found()),
    }
}

/// Deletes a cookie.
pub open spec fn delete_cookie_op(cookie: DeleteCookiesParamsView) -> Prog<()> {
    match cookie.url {
        Some(url) => execute::<()>(CommandView::DeleteCookies(cookie)),
        None => bind(
            url_op(None),
            |page_url: Option<Seq<char>>| delete_cookie_on_op(cookie, page_url),
        ),
    }
}

/// The commands that delete cookies.
pub open spec fn deletions(cookies: Seq<DeleteCookiesParamsView>) -> Seq<CommandView> {
    cookies.map_values(|cookie: DeleteCookiesParamsView| CommandView::DeleteCookies(cookie))
}

/// The commands that delete cookies, with the URL of the page where they have none.
pub open spec fn deletions_on(cookies: Seq<DeleteCookiesParamsView>, page_url: Seq<char>) -> Seq<
    CommandView,
> {
    cookies.map_values(
        |cookie: DeleteCookiesParamsView| CommandView::DeleteCookies(deletion_on(cookie, page_url)),
    )
}

/// Deletes cookies from a page with the given URL.
pub open spec fn delete_cookies_on_op(
    cookies: Seq<DeleteCookiesParamsView>,
    page_url: Option<Seq<char>>,
) -> Prog<()> {
    match page_url {
        Some(url) => ask::<()>(deletion_request(deletions_on(cookies, url))),
        None => fail(url_not_found()),
    }
}

/// Whether each deletion has a URL.
pub open spec fn all_have_url(cookies: Seq<DeleteCookiesParamsView>) -> bool {
    forall|i: int| 0 <= i < cookies.len() ==> (#[trigger] cookies[i]).url is Some
}

/// Deletes cookies. The URL of the page is asked for only where one has none.
pub open spec fn delete_cookies_op(cookies: Seq<DeleteCookiesParamsView>) -> Prog<()> {
    if all_have_url(cookies) {
        ask::<()>(deletion_request(deletions(cookies)))
    } else {
        bind(url_op(None), |page_url: Option<Seq<char>>| delete_cookies_on_op(cookies, page_url))
    }
}

/// Sets headers that are sent with each request of the page.
pub open spec fn set_extra_http_headers_op(headers: Map<Seq<char>, Seq<char>>) -> Prog<()> {
    sequence(
        seq![
            RequestView::Command(CommandView::Enable(Domain::Network)),
            RequestView::Command(CommandView::SetExtraHttpHeaders { headers }),
        ],
    )
}

// What is left of an operation while it waits.

/// Fails where there can be no cookie for a URL.
pub fn validate_cookie_url(url: &str) -> (result: Result<(), CdpError>)
    ensures
        match cookie_url_error(url@) {
            Some(error) => result_view(result) == Err::<(), ErrorView>(error),
            None => result is Ok,
        },
{
    if starts_with(url, "data:") {
        Err(CdpError::msg("Data URL page can not have cookie"))
    } else if same_text(url, "about:blank") {
        Err(CdpError::msg("Blank page can not have cookie"))
    } else {
        Ok(())
    }
}

/// A URL, or where there is none and the page has one for cookies, that of the page.
fn url_or_that_of_page(url: Option<String>, page_url: &String) -> (chosen: Option<String>)
    ensures
        chosen.deep_view() == url_or_page(url.deep_view(), page_url@),
{
    if url.is_none() && starts_with(page_url.as_str(), "http") {
        Some(page_url.clone())
    } else {
        url
    }
}

/// Deletes what a cookie replaces, then sets the cookie.
fn replace_cookie(cookie: CookieParam) -> (step: Step<Sequence, ()>)
    ensures
        follows(step, replace_cookie_op(cookie.deep_view())),
{
    let deletion = DeleteCookiesParams::from_cookie(&cookie);
    let cookies: Vec<CookieParam> = vec![cookie];
    assert(cookies.deep_view() =~= seq![cookie.deep_view()]);
    let requests: Vec<Request> = vec![
        Request::Command(Command::DeleteCookies(deletion)),
        Request::Command(Command::SetCookies { cookies }),
    ];
    assert(requests.deep_view() =~= seq![
        RequestView::Command(CommandView::DeleteCookies(deletion.deep_view())),
        RequestView::Command(CommandView::SetCookies { cookies: cookies.deep_view() }),
    ]);
    in_sequence(requests)
}

/// Sets a cookie that has no URL, once that of the page is known.
pub struct SetCookieOn {
    pub cookie: CookieParam,
}

impl Next for SetCookieOn {
    type Input = Option<String>;

    type Rest = Sequence;

    open spec fn next(self, page_url: Option<Seq<char>>) -> Prog<()> {
        set_cookie_on_op(self.cookie.deep_view(), page_url)
    }
}

impl Start for SetCookieOn {
    fn start(self, page_url: Option<String>) -> (step: Step<Sequence, ()>) {
        let url = match page_url {
            Some(url) => url,
            None => {
                return Step::Done(Err(CdpError::msg("Page url not found")));
            },
        };
        if let Err(error) = validate_cookie_url(url.as_str()) {
            return Step::Done(Err(error));
        }
        let mut cookie = self.cookie;
        cookie.url = url_or_that_of_page(cookie.url, &url);
        replace_cookie(cookie)
    }
}

/// Completes cookies with the URL of the page. It fails where one cannot be set.
pub fn complete_cookies(cookies: Vec<CookieParam>, page_url: &String) -> (result: Result<
    Vec<CookieParam>,
    CdpError,
>)
    ensures
        match first_url_error(cookies.deep_view()) {
            Some(error) => result_view(result) == Err::<Seq<CookieParamView>, ErrorView>(error),
            None => result is Ok && result->Ok_0.deep_view() == cookies_on(
                cookies.deep_view(),
                page_url@,
            ),
        },
{
    let ghost given = cookies.deep_view();
    let ghost all = cookies_on(given, page_url@);
    let mut rest = cookies;
    let mut completed: Vec<CookieParam> = Vec::new();
    while rest.len() > 0
        invariant
            given == cookies.deep_view(),
            all == cookies_on(given, page_url@),
            given.len() == completed@.len() + rest@.len(),
            forall|i: int|
                0 <= i < completed@.len() ==> #[trigger] completed@[i].deep_view() == all[i],
            rest.deep_view() == given.skip(completed@.len() as int),
            first_url_error(given) == first_url_error(rest.deep_view()),
        decreases rest@.len(),
    {
        let ghost before = rest.deep_view();
        let mut cookie = rest.remove(0);
        assert(rest.deep_view() =~= before.skip(1));
        assert(before[0] == cookie.deep_view());
        assert(before[0] == given[completed@.len() as int]);
        if let Some(url) = &cookie.url {
            if let Err(error) = validate_cookie_url(url.as_str()) {
                return Err(error);
            }
        }
        cookie.url = url_or_that_of_page(cookie.url, page_url);
        completed.push(cookie);
        assert(rest.deep_view() =~= given.skip(completed@.len() as int));
    }
    assert(completed.deep_view() =~= all);
    Ok(completed)
}

/// Deletes what cookies replace, then sets the cookies.
fn replace_cookies(cookies: Vec<CookieParam>) -> (step: Step<Sequence, ()>)
    ensures
        follows(step, replace_cookies_op(cookies.deep_view())),
{
    let ghost all = replacements(cookies.deep_view());
    let mut commands: Vec<Command> = Vec::new();
    let mut i: usize = 0;
    while i < cookies.len()
        invariant
            i <= cookies@.len(),
            commands@.len() == i,
            all == replacements(cookies.deep_view()),
            forall|j: int| 0 <= j < i ==> #[trigger] commands@[j].deep_view() == all[j],
        decreases cookies@.len() - i,
    {
        commands.push(Command::DeleteCookies(DeleteCookiesParams::from_cookie(&cookies[i])));
        i = i + 1;
    }
    assert(commands.deep_view() =~= all);
    let requests: Vec<Request> = vec![
        Request::Batch { commands, at_once: Some(DELETED_AT_ONCE) },
        Request::Command(Command::SetCookies { cookies }),
    ];
    assert(requests.deep_view() =~= seq![
        deletion_request(all),
        RequestView::Command(CommandView::SetCookies { cookies: cookies.deep_view() }),
    ]);
    in_sequence(requests)
}

/// Sets cookies, once the URL of the page is known.
pub struct SetCookiesOn {
    pub cookies: Vec<CookieParam>,
}

impl Next for SetCookiesOn {
    type Input = Option<String>;

    type Rest = Sequence;

    open spec fn next(self, page_url: Option<Seq<char>>) -> Prog<()> {
        set_cookies_on_op(self.cookies.deep_view(), page_url)
    }
}

impl Start for SetCookiesOn {
    fn start(self, page_url: Option<String>) -> (step: Step<Sequence, ()>) {
        let url = match page_url {
            Some(url) => url,
            None => {
                return Step::Done(Err(CdpError::msg("Page url not found")));
            },
        };
        if let Err(error) = validate_cookie_url(url.as_str()) {
            return Step::Done(Err(error));
        }
        match complete_cookies(self.cookies, &url) {
            Ok(cookies) => replace_cookies(cookies),
            Err(error) => Step::Done(Err(error)),
        }
    }
}

/// Deletes a cookie, once the URL of the page is known.
pub struct DeleteCookieOn {
    pub cookie: DeleteCookiesParams,
}

impl Next for DeleteCookieOn {
    type Input = Option<String>;

    type Rest = Await<()>;

    open spec fn next(self, page_url: Option<Seq<char>>) -> Prog<()> {
        delete_cookie_on_op(self.cookie.deep_view(), page_url)
    }
}

impl Start for DeleteCookieOn {
    fn start(self, page_url: Option<String>) -> (step: Step<Await<()>, ()>) {
        match page_url {
            Some(url) => {
                let mut cookie = self.cookie;
                cookie.url = url_or_that_of_page(cookie.url, &url);
                executing(Command::DeleteCookies(cookie))
            },
            None => Step::Done(Err(CdpError::msg("Page url not found"))),
        }
    }
}

/// Deletes cookies that are complete.
fn delete_cookies_unchecked(cookies: Vec<DeleteCookiesParams>) -> (step: Step<Await<()>, ()>)
    ensures
        follows(step, ask::<()>(deletion_request(deletions(cookies.deep_view())))),
{
    let ghost all = deletions(cookies.deep_view());
    let mut rest = cookies;
    let mut commands: Vec<Command> = Vec::new();
    while rest.len() > 0
        invariant
            all.len() == commands@.len() + rest@.len(),
            forall|i: int|
                0 <= i < commands@.len() ==> #[trigger] commands@[i].deep_view() == all[i],
            forall|i: int|
                0 <= i < rest@.len() ==> CommandView::DeleteCookies(#[trigger] rest@[i].deep_view())
                    == all[commands@.len() + i],
        decreases rest@.len(),
    {
        let cookie = rest.remove(0);
        commands.push(Command::DeleteCookies(cookie));
    }
    assert(commands.deep_view() =~= all);
    asking(Request::Batch { commands, at_once: Some(DELETED_AT_ONCE) })
}

/// Deletes cookies, once the URL of the page is known.
pub struct DeleteCookiesOn {
    pub cookies: Vec<DeleteCookiesParams>,
}

impl Next for DeleteCookiesOn {
    type Input = Option<String>;

    type Rest = Await<()>;

    open spec fn next(self, page_url: Option<Seq<char>>) -> Prog<()> {
        delete_cookies_on_op(self.cookies.deep_view(), page_url)
    }
}

impl Start for DeleteCookiesOn {
    fn start(self, page_url: Option<String>) -> (step: Step<Await<()>, ()>) {
        let url = match page_url {
            Some(url) => url,
            None => {
                return Step::Done(Err(CdpError::msg("Page url not found")));
            },
        };
        let ghost given = self.cookies.deep_view();
        let mut rest = self.cookies;
        let mut completed: Vec<DeleteCookiesParams> = Vec::new();
        while rest.len() > 0
            invariant
                given.len() == completed@.len() + rest@.len(),
                forall|i: int|
                    0 <= i < completed@.len() ==> #[trigger] completed@[i].deep_view()
                        == deletion_on(given[i], url@),
                forall|i: int|
                    0 <= i < rest@.len() ==> #[trigger] rest@[i].deep_view()
                        == given[completed@.len() + i],
            decreases rest@.len(),
        {
            let mut cookie = rest.remove(0);
            assert(cookie.deep_view() == given[completed@.len() as int]);
            cookie.url = url_or_that_of_page(cookie.url, &url);
            completed.push(cookie);
        }
        assert(deletions(completed.deep_view()) =~= deletions_on(given, url@));
        delete_cookies_unchecked(completed)
    }
}

/// Whether each deletion has a URL.
fn each_has_url(cookies: &Vec<DeleteCookiesParams>) -> (b: bool)
    ensures
        b == all_have_url(cookies.deep_view()),
{
    let ghost given = cookies.deep_view();
    let mut i: usize = 0;
    while i < cookies.len()
        invariant
            i <= cookies@.len(),
            given == cookies.deep_view(),
            forall|j: int| 0 <= j < i ==> (#[trigger] given[j]).url is Some,
        decreases cookies@.len() - i,
    {
        assert(given[i as int] == cookies@[i as int].deep_view());
        if cookies[i].url.is_none() {
            return false;
        }
        i = i + 1;
    }
    true
}

impl Page {
    /// Yields the cookies that match the URL of the page.
    pub fn get_cookies(&self) -> (step: Step<Await<Json>, Json>)
        ensures
            follows(step, execute::<Json>(CommandView::GetCookies)),
    {
        executing(Command::GetCookies)
    }

    /// Sets a cookie, in place of the one that it replaces. It fails where the URL of the
    /// cookie, or where it has none that of the page, is `about:blank` or a `data:` URL.
    pub fn set_cookie(&self, cookie: CookieParam) -> (step: Step<
        Chain<Await<Option<String>>, SetCookieOn>,
        (),
    >)
        ensures
            follows(step, set_cookie_op(cookie.deep_view())),
    {
        broadcast use same_is_equal;

        match &cookie.url {
            Some(url) => match validate_cookie_url(url.as_str()) {
                Ok(_) => second(replace_cookie(cookie)),
                Err(error) => Step::Done(Err(error)),
            },
            None => chain(self.url(), SetCookieOn { cookie }),
        }
    }

    /// Sets cookies, in place of those that they replace.
    pub fn set_cookies(&self, cookies: Vec<CookieParam>) -> (step: Step<
        Chain<Await<Option<String>>, SetCookiesOn>,
        (),
    >)
        ensures
            follows(step, set_cookies_op(cookies.deep_view())),
    {
        broadcast use same_is_equal;

        chain(self.url(), SetCookiesOn { cookies })
    }

    /// Deletes a cookie.
    pub fn delete_cookie(&self, cookie: DeleteCookiesParams) -> (step: Step<
        Chain<Await<Option<String>>, DeleteCookieOn>,
        (),
    >)
        ensures
            follows(step, delete_cookie_op(cookie.deep_view())),
    {
        broadcast use same_is_equal;

        if cookie.url.is_none() {
            chain(self.url(), DeleteCookieOn { cookie })
        } else {
            second(executing(Command::DeleteCookies(cookie)))
        }
    }

    /// Deletes cookies.
    pub fn delete_cookies(&self, cookies: Vec<DeleteCookiesParams>) -> (step: Step<
        Chain<Await<Option<String>>, DeleteCookiesOn>,
        (),
    >)
        ensures
            follows(step, delete_cookies_op(cookies.deep_view())),
    {
        broadcast use same_is_equal;

        if each_has_url(&cookies) {
            second(delete_cookies_unchecked(cookies))
        } else {
            chain(self.url(), DeleteCookiesOn { cookies })
        }
    }

    /// Sets headers that are sent with each request of the page.
    pub fn set_extra_http_headers(&self, headers: NameMap<String>) -> (step: Step<Sequence, ()>)
        ensures
            follows(step, set_extra_http_headers_op(headers.deep_view())),
    {
        let requests: Vec<Request> = vec![
            Request::Command(Command::Enable(Domain::Network)),
            Request::Command(Command::SetExtraHttpHeaders { headers }),
        ];
        assert(requests.deep_view() =~= seq![
            RequestView::Command(CommandView::Enable(Domain::Network)),
            RequestView::Command(
                CommandView::SetExtraHttpHeaders { headers: headers.deep_view() },
            ),
        ]);
        in_sequence(requests)
    }
}

// What holds whatever the browser answers.

/// Whether a request sets no cookie for a URL that can have none.
pub open spec fn sets_no_bad_cookie(request: RequestView) -> bool {
    match request {
        RequestView::Command(CommandView::SetCookies { cookies }) => forall|i: int|
            0 <= i < cookies.len() ==> has_good_url(#[trigger] cookies[i]),
        _ => true,
    }
}

/// Whether a cookie has no URL, or one that can have cookies.
pub open spec fn has_good_url(cookie: CookieParamView) -> bool {
    match cookie.url {
        Some(url) => cookie_url_error(url) is None,
        None => true,
    }
}

/// Whether a request sets cookies.
pub open spec fn sets_cookies(request: RequestView) -> bool {
    request matches RequestView::Command(command) && command is SetCookies
}

/// Whether a request deletes all that cookies replace.
pub open spec fn deletes_replaced(request: RequestView, cookies: Seq<CookieParamView>) -> bool {
    forall|i: int|
        0 <= i < cookies.len() ==> deletes(
            request,
            cookies_replaced_by(#[trigger] cookies[i]),
        )
}

/// Whether a request deletes a cookie.
pub open spec fn deletes(request: RequestView, cookie: DeleteCookiesParamsView) -> bool {
    match request {
        RequestView::Command(command) => command == CommandView::DeleteCookies(cookie),
        RequestView::Batch { commands, .. } => commands.contains(
            CommandView::DeleteCookies(cookie),
        ),
        _ => false,
    }
}

/// A URL that starts with `http` can have cookies.
proof fn http_is_good(url: Seq<char>)
    requires
        is_http(url),
    ensures
        cookie_url_error(url) is None,
{
    reveal_strlit("http");
    reveal_strlit("data:");
    reveal_strlit("about:blank");
    assert(url[0] == "http"@[0]);
    if "data:"@.is_prefix_of(url) {
        assert(url[0] == "data:"@[0]);
    }
    if url == "about:blank"@ {
        assert(url[0] == "about:blank"@[0]);
    }
}

/// No cookie is ever set for `about:blank` or a `data:` URL.
pub proof fn set_cookie_sets_no_bad_cookie(cookie: CookieParamView)
    ensures
        only_asks(set_cookie_op(cookie), |request: RequestView| sets_no_bad_cookie(request)),
{
    reveal_with_fuel(sequence, 3);
    reveal_with_fuel(only_asks, 3);
    let allowed = |request: RequestView| sets_no_bad_cookie(request);
    if cookie.url is None {
        let after = |page_url: Option<Seq<char>>| set_cookie_on_op(cookie, page_url);
        assert forall|page_url: Option<Seq<char>>|
            only_asks(#[trigger] after(page_url), allowed) by {
            if page_url is Some && is_http(page_url->0) {
                http_is_good(page_url->0);
            }
        }
        bind_only_asks(url_op(None), after, allowed);
    }
}

/// Cookies whose URLs are good stay good with the URL of a page.
proof fn completed_are_good(cookies: Seq<CookieParamView>, page_url: Seq<char>)
    requires
        first_url_error(cookies) is None,
    ensures
        forall|i: int|
            0 <= i < cookies.len() ==> has_good_url(#[trigger] cookies_on(cookies, page_url)[i]),
    decreases cookies.len(),
{
    if cookies.len() > 0 {
        completed_are_good(cookies.skip(1), page_url);
        assert forall|i: int| 0 <= i < cookies.len() implies has_good_url(
            #[trigger] cookies_on(cookies, page_url)[i],
        ) by {
            if is_http(page_url) {
                http_is_good(page_url);
            }
            if i > 0 {
                assert(cookies_on(cookies, page_url)[i] == cookies_on(
                    cookies.skip(1),
                    page_url,
                )[i - 1]);
            }
        }
    }
}

/// None of several cookies is ever set for `about:blank` or a `data:` URL.
pub proof fn set_cookies_sets_no_bad_cookie(cookies: Seq<CookieParamView>)
    ensures
        only_asks(set_cookies_op(cookies), |request: RequestView| sets_no_bad_cookie(request)),
{
    reveal_with_fuel(sequence, 3);
    reveal_with_fuel(only_asks, 3);
    let allowed = |request: RequestView| sets_no_bad_cookie(request);
    let after = |page_url: Option<Seq<char>>| set_cookies_on_op(cookies, page_url);
    assert forall|page_url: Option<Seq<char>>| only_asks(#[trigger] after(page_url), allowed) by {
        if page_url is Some && first_url_error(cookies) is None {
            completed_are_good(cookies, page_url->0);
        }
    }
    bind_only_asks(url_op(None), after, allowed);
}

/// Before cookies are set, all that they replace is deleted.
pub proof fn replaced_cookies_are_deleted_first(cookies: Seq<CookieParamView>)
    ensures
        asks_first(
            replace_cookies_op(cookies),
            |request: RequestView| deletes_replaced(request, cookies),
            |request: RequestView| sets_cookies(request),
        ),
{
    let commands = replacements(cookies);
    assert forall|i: int| 0 <= i < cookies.len() implies deletes(
        deletion_request(commands),
        cookies_replaced_by(#[trigger] cookies[i]),
    ) by {
        assert(commands[i] == CommandView::DeleteCookies(cookies_replaced_by(cookies[i])));
    }
}

/// Before a cookie is set, what it replaces is deleted.
pub proof fn replaced_cookie_is_deleted_first(cookie: CookieParamView)
    ensures
        asks_first(
            replace_cookie_op(cookie),
            |request: RequestView| deletes(request, cookies_replaced_by(cookie)),
            |request: RequestView| sets_cookies(request),
        ),
{
}

/// The headers of requests are set only once the network domain is on.
pub proof fn network_is_enabled_first(headers: Map<Seq<char>, Seq<char>>)
    ensures
        asks_first(
            set_extra_http_headers_op(headers),
            |request: RequestView|
                request == RequestView::Command(CommandView::Enable(Domain::Network)),
            |request: RequestView|
                request matches RequestView::Command(command) && command is SetExtraHttpHeaders,
        ),
{
}

/// Whether a request deletes cookies of a name.
pub open spec fn deletes_name(request: RequestView, name: Seq<char>) -> bool {
    match request {
        RequestView::Command(CommandView::DeleteCookies(cookie)) => cookie.name == name,
        _ => false,
    }
}

/// Setting a cookie deletes cookies of its name before it sets any.
pub proof fn set_cookie_deletes_first(cookie: CookieParamView)
    ensures
        asks_first(
            set_cookie_op(cookie),
            |request: RequestView| deletes_name(request, cookie.name),
            |request: RequestView| sets_cookies(request),
        ),
{
    let first = |request: RequestView| deletes_name(request, cookie.name);
    let second = |request: RequestView| sets_cookies(request);
    reveal_with_fuel(only_asks, 2);
    if cookie.url is None {
        let after = |page_url: Option<Seq<char>>| set_cookie_on_op(cookie, page_url);
        assert forall|page_url: Option<Seq<char>>|
            asks_first(#[trigger] after(page_url), first, second) by {
        }
        bind_asks_first(url_op(None), after, first, second);
    }
}

/// Setting cookies deletes cookies before it sets any.
pub proof fn set_cookies_deletes_first(cookies: Seq<CookieParamView>)
    ensures
        asks_first(
            set_cookies_op(cookies),
            |request: RequestView| request is Batch,
            |request: RequestView| sets_cookies(request),
        ),
{
    let first = |request: RequestView| request is Batch;
    let second = |request: RequestView| sets_cookies(request);
    reveal_with_fuel(only_asks, 2);
    let after = |page_url: Option<Seq<char>>| set_cookies_on_op(cookies, page_url);
    assert forall|page_url: Option<Seq<char>>|
        asks_first(#[trigger] after(page_url), first, second) by {
    }
    bind_asks_first(url_op(None), after, first, second);
}

} // verus!
