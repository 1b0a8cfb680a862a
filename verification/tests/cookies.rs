use chromiumoxide::cdp::command::{Command, Domain};
use chromiumoxide::cdp::network::{CookieParam, DeleteCookiesParams};
use chromiumoxide::cdp::target::{SessionId, TargetId};
use chromiumoxide::cookies::{complete_cookies, validate_cookie_url};
use chromiumoxide::error::CdpError;
use chromiumoxide::flow::{Flow, Step};
use chromiumoxide::handler::page::PageInner;
use chromiumoxide::json::Json;
use chromiumoxide::names::NameMap;
use chromiumoxide::page::Page;
use chromiumoxide::protocol::{Reply, Request};

/// How an operation ended.
#[derive(Debug)]
enum End<T> {
    Yielded(T),
    Failed(CdpError),
    Aborted,
}

/// Runs an operation with the given answers. Returns what it asked for and how it ended.
fn play<F: Flow>(first: Step<F, F::Output>, answers: Vec<Reply>) -> (Vec<Request>, End<F::Output>) {
    let mut step = first;
    let mut answers = answers.into_iter();
    let mut asked = Vec::new();
    loop {
        match step {
            Step::Ask(request, flow) => {
                asked.push(request);
                match answers.next() {
                    Some(reply) => step = flow.resume(reply),
                    None => panic!("no answer to {:?}", asked.last()),
                }
            }
            Step::Done(Ok(result)) => {
                assert!(answers.next().is_none(), "an answer is left over");
                return (asked, End::Yielded(result));
            }
            Step::Done(Err(error)) => {
                assert!(answers.next().is_none(), "an answer is left over");
                return (asked, End::Failed(error));
            }
            Step::Abort => return (asked, End::Aborted),
        }
    }
}

/// What the operation yielded.
fn yielded<T: std::fmt::Debug>(end: End<T>) -> T {
    match end {
        End::Yielded(result) => result,
        other => panic!("{:?}", other),
    }
}

/// The message that the operation failed with.
fn message<T: std::fmt::Debug>(end: End<T>) -> String {
    match end {
        End::Failed(CdpError::ChromeMessage(text)) => text,
        other => panic!("{:?}", other),
    }
}

fn page() -> Page {
    Page::from(PageInner {
        target_id: TargetId("target".to_string()),
        session_id: SessionId("session".to_string()),
    })
}

fn command(command: Command) -> Request {
    Request::Command(command)
}

fn cookie(name: &str, url: Option<&str>) -> CookieParam {
    let mut cookie = CookieParam::new(name.to_string(), "value".to_string());
    cookie.url = url.map(str::to_string);
    cookie
}

fn deletion(name: &str, url: Option<&str>) -> DeleteCookiesParams {
    DeleteCookiesParams::from_cookie(&cookie(name, url))
}

fn page_url(url: &str) -> Reply {
    Reply::OptionalText(Some(url.to_string()))
}

#[test]
fn cookie_urls_are_validated() {
    assert!(validate_cookie_url("https://example.com").is_ok());
    assert!(validate_cookie_url("about:blank#x").is_ok());
    assert!(validate_cookie_url("").is_ok());
    match validate_cookie_url("data:text/html,hi") {
        Err(CdpError::ChromeMessage(text)) => {
            assert_eq!(text, "Data URL page can not have cookie")
        }
        other => panic!("{:?}", other),
    }
    match validate_cookie_url("about:blank") {
        Err(CdpError::ChromeMessage(text)) => assert_eq!(text, "Blank page can not have cookie"),
        other => panic!("{:?}", other),
    }
}

#[test]
fn a_cookie_with_a_url_replaces_the_old_one() {
    let mut given = cookie("a", Some("https://example.com/x"));
    given.domain = Some("example.com".to_string());
    given.path = Some("/x".to_string());
    given.partition_key = Some("top".to_string());
    let (asked, end) = play(page().set_cookie(given), vec![Reply::Done, Reply::Done]);
    yielded(end);
    let mut expected = cookie("a", Some("https://example.com/x"));
    expected.domain = Some("example.com".to_string());
    expected.path = Some("/x".to_string());
    expected.partition_key = Some("top".to_string());
    assert_eq!(
        asked,
        vec![
            command(Command::DeleteCookies(DeleteCookiesParams {
                name: "a".to_string(),
                url: Some("https://example.com/x".to_string()),
                domain: Some("example.com".to_string()),
                path: Some("/x".to_string()),
                partition_key: Some("top".to_string()),
            })),
            command(Command::SetCookies { cookies: vec![expected] }),
        ]
    );
}

#[test]
fn a_cookie_without_a_url_gets_that_of_the_page() {
    let (asked, end) = play(
        page().set_cookie(cookie("a", None)),
        vec![page_url("http://example.com"), Reply::Done, Reply::Done],
    );
    yielded(end);
    assert_eq!(
        asked,
        vec![
            Request::Url { frame_id: None },
            command(Command::DeleteCookies(deletion("a", Some("http://example.com")))),
            command(Command::SetCookies { cookies: vec![cookie("a", Some("http://example.com"))] }),
        ]
    );
}

#[test]
fn a_page_url_that_is_not_http_is_not_taken_over() {
    let (asked, end) = play(
        page().set_cookie(cookie("a", None)),
        vec![page_url("file:///tmp/x"), Reply::Done, Reply::Done],
    );
    yielded(end);
    assert_eq!(
        asked,
        vec![
            Request::Url { frame_id: None },
            command(Command::DeleteCookies(deletion("a", None))),
            command(Command::SetCookies { cookies: vec![cookie("a", None)] }),
        ]
    );
}

#[test]
fn a_cookie_fails_on_a_bad_url() {
    let (asked, end) = play(page().set_cookie(cookie("a", Some("data:x"))), vec![]);
    assert_eq!(message(end), "Data URL page can not have cookie");
    assert!(asked.is_empty());
    let (asked, end) = play(page().set_cookie(cookie("a", None)), vec![page_url("about:blank")]);
    assert_eq!(message(end), "Blank page can not have cookie");
    assert_eq!(asked, vec![Request::Url { frame_id: None }]);
    let (_, end) = play(page().set_cookie(cookie("a", None)), vec![Reply::OptionalText(None)]);
    assert_eq!(message(end), "Page url not found");
}

#[test]
fn an_answer_of_another_kind_aborts() {
    let (_, end) = play(page().set_cookie(cookie("a", None)), vec![Reply::Clock(3)]);
    assert!(matches!(end, End::Aborted));
}

#[test]
fn several_cookies_are_replaced_together() {
    let given = vec![cookie("a", None), cookie("b", Some("https://other.com"))];
    let (asked, end) = play(
        page().set_cookies(given),
        vec![page_url("https://example.com"), Reply::Done, Reply::Done],
    );
    yielded(end);
    assert_eq!(
        asked,
        vec![
            Request::Url { frame_id: None },
            Request::Batch {
                commands: vec![
                    Command::DeleteCookies(deletion("a", Some("https://example.com"))),
                    Command::DeleteCookies(deletion("b", Some("https://other.com"))),
                ],
                at_once: Some(5),
            },
            command(Command::SetCookies {
                cookies: vec![
                    cookie("a", Some("https://example.com")),
                    cookie("b", Some("https://other.com")),
                ],
            }),
        ]
    );
}

#[test]
fn several_cookies_fail_with_the_first_bad_url() {
    let given = vec![
        cookie("a", None),
        cookie("b", Some("about:blank")),
        cookie("c", Some("data:x")),
    ];
    let (asked, end) = play(page().set_cookies(given), vec![page_url("https://example.com")]);
    assert_eq!(message(end), "Blank page can not have cookie");
    assert_eq!(asked.len(), 1);
    let (_, end) = play(page().set_cookies(vec![]), vec![page_url("data:x")]);
    assert_eq!(message(end), "Data URL page can not have cookie");
    let (_, end) = play(page().set_cookies(vec![]), vec![Reply::OptionalText(None)]);
    assert_eq!(message(end), "Page url not found");
}

#[test]
fn cookies_are_completed_with_the_page_url() {
    let url = "ftp://example.com".to_string();
    let completed = complete_cookies(vec![cookie("a", None)], &url).unwrap();
    assert_eq!(completed, vec![cookie("a", None)]);
    let url = "https://example.com".to_string();
    let completed = complete_cookies(vec![cookie("a", None)], &url).unwrap();
    assert_eq!(completed, vec![cookie("a", Some("https://example.com"))]);
}

#[test]
fn a_cookie_is_deleted() {
    let (asked, end) = play(
        page().delete_cookie(deletion("a", Some("data:x"))),
        vec![Reply::Done],
    );
    yielded(end);
    assert_eq!(asked, vec![command(Command::DeleteCookies(deletion("a", Some("data:x"))))]);
    let (asked, end) = play(
        page().delete_cookie(deletion("a", None)),
        vec![page_url("https://example.com"), Reply::Done],
    );
    yielded(end);
    assert_eq!(
        asked,
        vec![
            Request::Url { frame_id: None },
            command(Command::DeleteCookies(deletion("a", Some("https://example.com")))),
        ]
    );
    let (_, end) = play(page().delete_cookie(deletion("a", None)), vec![Reply::OptionalText(None)]);
    assert_eq!(message(end), "Page url not found");
}

#[test]
fn several_cookies_are_deleted_and_the_url_is_asked_for_once() {
    let given = vec![
        deletion("a", Some("https://other.com")),
        deletion("b", None),
        deletion("c", None),
    ];
    let (asked, end) = play(
        page().delete_cookies(given),
        vec![page_url("https://example.com"), Reply::Done],
    );
    yielded(end);
    assert_eq!(
        asked,
        vec![
            Request::Url { frame_id: None },
            Request::Batch {
                commands: vec![
                    Command::DeleteCookies(deletion("a", Some("https://other.com"))),
                    Command::DeleteCookies(deletion("b", Some("https://example.com"))),
                    Command::DeleteCookies(deletion("c", Some("https://example.com"))),
                ],
                at_once: Some(5),
            },
        ]
    );
}

#[test]
fn cookies_with_urls_are_deleted_without_that_of_the_page() {
    let (asked, end) = play(
        page().delete_cookies(vec![deletion("a", Some("https://other.com"))]),
        vec![Reply::Done],
    );
    yielded(end);
    assert_eq!(
        asked,
        vec![Request::Batch {
            commands: vec![Command::DeleteCookies(deletion("a", Some("https://other.com")))],
            at_once: Some(5),
        }]
    );
    let (_, end) = play(
        page().delete_cookies(vec![deletion("a", None)]),
        vec![Reply::OptionalText(None)],
    );
    assert_eq!(message(end), "Page url not found");
}

#[test]
fn the_network_domain_is_switched_on_before_the_headers_are_set() {
    let headers = || NameMap { entries: vec![("X-A".to_string(), "1".to_string())] };
    let (asked, end) = play(
        page().set_extra_http_headers(headers()),
        vec![Reply::Done, Reply::Done],
    );
    yielded(end);
    assert_eq!(
        asked,
        vec![
            command(Command::Enable(Domain::Network)),
            command(Command::SetExtraHttpHeaders { headers: headers() }),
        ]
    );
}

#[test]
fn cookies_are_passed_on() {
    let (asked, end) = play(
        page().get_cookies(),
        vec![Reply::Payload(Json("[]".to_string()))],
    );
    assert_eq!(yielded(end), Json("[]".to_string()));
    assert_eq!(asked, vec![command(Command::GetCookies)]);
}
