use chromiumoxide::cdp::emulation::SetDeviceMetricsOverrideParams;
use chromiumoxide::cdp::fetch;
use chromiumoxide::cdp::network;
use chromiumoxide::cdp::network::{CookieParam, DeleteCookiesParams};
use chromiumoxide::cdp::page;
use chromiumoxide::cdp::runtime::{
    CallFrame, CallFunctionOnParams, EvaluateParams, ExceptionDetails, ExecutionContextId, ScriptId,
    StackTrace,
};
use chromiumoxide::cdp::target::CreateTargetParams;
use chromiumoxide::handler::viewport::Viewport;
use chromiumoxide::json::Json;
use chromiumoxide::layout::{BoundingBox, ElementQuad, Point};
use chromiumoxide::names::NameMap;
use chromiumoxide::number::Num;
use chromiumoxide::text::{parse_decimal, replace, same_text, starts_with, to_decimal};

#[test]
fn a_new_target_is_blank() {
    let params = CreateTargetParams::default();
    assert_eq!(params.url, "about:blank");
    assert_eq!(params.width, None);
    assert_eq!(params.browser_context_id, None);
}

#[test]
fn a_context_is_named_by_its_number() {
    for number in [0, 7, -3, i64::MAX, i64::MIN] {
        let text = String::from(ExecutionContextId(number));
        assert_eq!(text, number.to_string());
        assert_eq!(ExecutionContextId::from(text), ExecutionContextId(number));
    }
    assert_eq!(ExecutionContextId::from("x".to_string()), ExecutionContextId(0));
    assert_eq!(ExecutionContextId::from(String::new()), ExecutionContextId(0));
    assert_eq!(*ExecutionContextId(5).inner(), 5);
}

#[test]
fn request_ids_keep_their_text() {
    let text = "interception-1".to_string();
    let paused = fetch::RequestId(text.clone());
    let requested = network::RequestId::from(paused);
    assert_eq!(requested.0, text);
    let intercepted = network::InterceptionId::from(requested);
    assert_eq!(intercepted.0, text);
    let paused = fetch::RequestId::from(intercepted);
    assert_eq!(paused.0, text);
    let intercepted = network::InterceptionId::from(paused);
    let requested = network::RequestId::from(intercepted);
    let paused = fetch::RequestId::from(requested);
    assert_eq!(paused.0, text);
}

#[test]
fn a_cookie_names_what_it_replaces() {
    let mut cookie = CookieParam::new("a".to_string(), "b".to_string());
    cookie.url = Some("u".to_string());
    cookie.domain = Some("d".to_string());
    cookie.path = Some("p".to_string());
    cookie.partition_key = Some("k".to_string());
    assert_eq!(
        DeleteCookiesParams::from_cookie(&cookie),
        DeleteCookiesParams {
            name: "a".to_string(),
            url: Some("u".to_string()),
            domain: Some("d".to_string()),
            path: Some("p".to_string()),
            partition_key: Some("k".to_string()),
        }
    );
}

#[test]
fn an_evaluation_becomes_a_call() {
    let mut params = EvaluateParams::new("() => 1".to_string());
    params.silent = Some(true);
    params.context_id = Some(ExecutionContextId(3));
    params.object_group = Some("g".to_string());
    params.user_gesture = Some(false);
    params.throw_on_side_effect = Some(true);
    let call = CallFunctionOnParams::from(params);
    assert_eq!(call.function_declaration, "() => 1");
    assert_eq!(call.silent, Some(true));
    assert_eq!(call.execution_context_id, Some(ExecutionContextId(3)));
    assert_eq!(call.object_group, Some("g".to_string()));
    assert_eq!(call.user_gesture, Some(false));
    assert_eq!(call.throw_on_side_effect, None);
    assert_eq!(call.arguments, None);
    assert_eq!(call.object_id, None);
}

#[test]
fn an_exception_is_shown_with_its_stack() {
    let frame = |name: &str, line: i64| CallFrame {
        function_name: name.to_string(),
        script_id: ScriptId("1".to_string()),
        url: "a.js".to_string(),
        line_number: line,
        column_number: 3,
    };
    let stack = |description: Option<&str>| StackTrace {
        description: description.map(str::to_string),
        call_frames: vec![frame("f", 1), frame("", 2)],
        details: Json("{}".to_string()),
    };
    assert_eq!(stack(None).fmt(), "f@a.js:1:3\n@a.js:2:3\n");
    assert_eq!(stack(Some("async")).fmt(), "async\nf@a.js:1:3\n@a.js:2:3\n");
    let exception = |stack_trace| ExceptionDetails {
        exception_id: 1,
        text: "Uncaught".to_string(),
        line_number: 4,
        column_number: 5,
        url: None,
        stack_trace,
        details: Json("{}".to_string()),
    };
    assert_eq!(exception(None).fmt(), "4:5: Uncaught\n");
    assert_eq!(
        exception(Some(stack(None))).fmt(),
        "4:5: Uncaught\nf@a.js:1:3\n@a.js:2:3\n"
    );
}

#[test]
fn a_screen_is_a_device_and_a_region() {
    let screen = Viewport {
        width: 320,
        height: 200,
        device_scale_factor: None,
        emulating_mobile: true,
        is_landscape: true,
        has_touch: true,
    };
    assert_eq!(
        SetDeviceMetricsOverrideParams::from(screen),
        SetDeviceMetricsOverrideParams {
            width: 320,
            height: 200,
            device_scale_factor: Num::Whole(1),
            mobile: true,
        }
    );
    assert_eq!(
        page::Viewport::from(screen),
        page::Viewport {
            x: Num::Whole(0),
            y: Num::Whole(0),
            width: Num::Whole(320),
            height: Num::Whole(200),
            scale: Num::Whole(1),
        }
    );
    assert_eq!(Viewport::default().width, 800);
    assert_eq!(Viewport::default().height, 600);
}

#[test]
fn a_box_is_a_region() {
    let bounds = BoundingBox {
        x: Num::Whole(1),
        y: Num::Whole(2),
        width: Num::Whole(3),
        height: Num::Whole(4),
    };
    assert_eq!(
        page::Viewport::from(bounds),
        page::Viewport {
            x: Num::Whole(1),
            y: Num::Whole(2),
            width: Num::Whole(3),
            height: Num::Whole(4),
            scale: Num::Whole(1),
        }
    );
}

#[test]
fn a_quad_goes_clockwise() {
    let numbers: Vec<Num> = (0..8).map(Num::Whole).collect();
    let quad = ElementQuad::from_quad(&numbers);
    assert_eq!(quad.top_left, Point { x: Num::Whole(0), y: Num::Whole(1) });
    assert_eq!(quad.top_right, Point { x: Num::Whole(2), y: Num::Whole(3) });
    assert_eq!(quad.bottom_right, Point { x: Num::Whole(4), y: Num::Whole(5) });
    assert_eq!(quad.bottom_left, Point { x: Num::Whole(6), y: Num::Whole(7) });
}

#[test]
fn the_later_of_two_entries_counts() {
    let map = NameMap {
        entries: vec![
            ("a".to_string(), "1".to_string()),
            ("b".to_string(), "2".to_string()),
            ("a".to_string(), "3".to_string()),
        ],
    };
    assert_eq!(map.get("a"), Some(&"3".to_string()));
    assert_eq!(map.get("b"), Some(&"2".to_string()));
    assert_eq!(map.get(""), None);
}

#[test]
fn numbers_are_written_and_read() {
    for number in [0, 9, 10, -1, 1234567890, i64::MAX, i64::MIN] {
        assert_eq!(to_decimal(number), number.to_string());
        assert_eq!(parse_decimal(&number.to_string()), Some(number));
    }
    for text in ["", "-", "1a", " 1", "9223372036854775808", "-9223372036854775809"] {
        assert_eq!(parse_decimal(text), None);
        assert!(text.parse::<i64>().is_err());
    }
    assert_eq!(parse_decimal("+5"), "+5".parse::<i64>().ok());
    assert_eq!(parse_decimal("007"), Some(7));
}

#[test]
fn texts_are_compared_and_replaced() {
    assert!(starts_with("https://", "http"));
    assert!(starts_with("é", ""));
    assert!(!starts_with("htt", "http"));
    assert!(same_text("é", "é"));
    assert!(!same_text("a", "ab"));
    assert!(!same_text("ab", "a"));
    assert_eq!(replace("aXbXX", "X", "é"), "aébéé");
    assert_eq!(replace("aaa", "aa", "b"), "ba");
    assert_eq!(replace("abc", "d", "e"), "abc");
    assert_eq!(replace("", "d", "e"), "");
}
