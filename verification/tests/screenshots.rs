use chromiumoxide::cdp::command::Command;
use chromiumoxide::cdp::dom::{BackendNodeId, NodeId, Rect, Rgba};
use chromiumoxide::cdp::emulation::SetDeviceMetricsOverrideParams;
use chromiumoxide::cdp::page::{
    CaptureScreenshotFormat, CaptureScreenshotParams, GetLayoutMetricsReturns, PrintToPdfParams,
    ScreencastFrame, Viewport as Region,
};
use chromiumoxide::cdp::runtime::RemoteObjectId;
use chromiumoxide::cdp::target::{SessionId, TargetId};
use chromiumoxide::element::Element;
use chromiumoxide::error::CdpError;
use chromiumoxide::flow::{Flow, Step};
use chromiumoxide::handler::page::PageInner;
use chromiumoxide::handler::viewport::Viewport;
use chromiumoxide::json::Json;
use chromiumoxide::layout::{BoundingBox, ElementQuad, Point};
use chromiumoxide::number::Num;
use chromiumoxide::page::Page;
use chromiumoxide::protocol::{BoxModelReply, Reply, Request, RescaleQuery, Rescaled};
use chromiumoxide::screencast::interpolate;
use chromiumoxide::screenshot::{ScreenshotParams, ScreenshotParamsBuilder};

/// How an operation ended.
#[derive(Debug)]
enum End<T> {
    Yielded(T),
    Failed(CdpError),
    Aborted,
}

/// Runs an operation with the given answers. Returns what it asked for and how it ended.
fn play<F: Flow>(first: Step<F, F::Output>, answers: Vec<Reply>) -> (Vec<Request>, End<F::Output>) {
    let mut step = first;
    let mut answers = answers.into_iter();
    let mut asked = Vec::new();
    loop {
        match step {
            Step::Ask(request, flow) => {
                asked.push(request);
                match answers.next() {
                    Some(reply) => step = flow.resume(reply),
                    None => panic!("no answer to {:?}", asked.last()),
                }
            }
            Step::Done(Ok(result)) => {
                assert!(answers.next().is_none(), "an answer is left over");
                return (asked, End::Yielded(result));
            }
            Step::Done(Err(error)) => {
                assert!(answers.next().is_none(), "an answer is left over");
                return (asked, End::Failed(error));
            }
            Step::Abort => return (asked, End::Aborted),
        }
    }
}

/// What the operation yielded.
fn yielded<T: std::fmt::Debug>(end: End<T>) -> T {
    match end {
        End::Yielded(result) => result,
        other => panic!("{:?}", other),
    }
}

fn page() -> Page {
    Page::from(PageInner {
        target_id: TargetId("target".to_string()),
        session_id: SessionId("session".to_string()),
    })
}

fn command(command: Command) -> Request {
    Request::Command(command)
}

fn metrics() -> Reply {
    Reply::LayoutMetrics(GetLayoutMetricsReturns {
        client_width: Num::Whole(1000),
        css_content_size: Rect {
            x: Num::Whole(0),
            y: Num::Whole(0),
            width: Num::Double(1),
            height: Num::Double(2),
        },
        content_width: 1200,
        content_height: 3400,
        details: Json("{}".to_string()),
    })
}

fn screen() -> Viewport {
    Viewport {
        width: 640,
        height: 480,
        device_scale_factor: Some(Num::Whole(2)),
        emulating_mobile: true,
        is_landscape: false,
        has_touch: false,
    }
}

fn region() -> Region {
    Region {
        x: Num::Whole(0),
        y: Num::Whole(0),
        width: Num::Whole(640),
        height: Num::Whole(480),
        scale: Num::Whole(1),
    }
}

fn device() -> SetDeviceMetricsOverrideParams {
    SetDeviceMetricsOverrideParams {
        width: 640,
        height: 480,
        device_scale_factor: Num::Whole(2),
        mobile: true,
    }
}

fn background(color: Option<Rgba>) -> Request {
    command(Command::SetDefaultBackgroundColorOverride { color })
}

fn transparent() -> Option<Rgba> {
    Some(Rgba { r: 0, g: 0, b: 0, a: Some(Num::Whole(0)) })
}

fn set_device(device: SetDeviceMetricsOverrideParams) -> Request {
    command(Command::SetDeviceMetricsOverride(device))
}

fn activate() -> Request {
    command(Command::ActivateTarget { target_id: TargetId("target".to_string()) })
}

fn captured(clip: Region) -> Request {
    command(Command::CaptureScreenshot(CaptureScreenshotParams {
        clip: Some(clip),
        ..CaptureScreenshotParams::default()
    }))
}

fn image() -> Reply {
    Reply::Text("aGVsbG8=".to_string())
}

#[test]
fn the_builder_sets_one_field_at_a_time() {
    let params = ScreenshotParams::builder()
        .format(CaptureScreenshotFormat::Jpeg)
        .quality(80)
        .clip(region())
        .from_surface(true)
        .capture_beyond_viewport(false)
        .viewport(screen())
        .full_page(true)
        .omit_background(true)
        .screenshot_dimensions((3, 4))
        .build();
    assert_eq!(
        params,
        ScreenshotParams {
            capture_screenshot_params: CaptureScreenshotParams {
                format: Some(CaptureScreenshotFormat::Jpeg),
                quality: Some(80),
                clip: Some(region()),
                from_surface: Some(true),
                capture_beyond_viewport: Some(false),
            },
            viewport: Some(screen()),
            full_page: Some(true),
            omit_background: Some(true),
            screenshot_dimensions: Some((3, 4)),
        }
    );
    assert_eq!(ScreenshotParamsBuilder::default().build(), ScreenshotParams::default());
    let capture = CaptureScreenshotParams {
        quality: Some(1),
        ..CaptureScreenshotParams::default()
    };
    assert_eq!(ScreenshotParams::from(capture).capture_screenshot_params, capture);
    assert_eq!(ScreenshotParams::from(capture).full_page, None);
}

#[test]
fn the_background_is_left_out_of_png_only() {
    let asked = ScreenshotParams::builder().omit_background(true);
    assert!(asked.build().omit_background());
    assert!(asked.format(CaptureScreenshotFormat::Png).build().omit_background());
    assert!(!asked.format(CaptureScreenshotFormat::Jpeg).build().omit_background());
    assert!(!asked.format(CaptureScreenshotFormat::Webp).build().omit_background());
    assert!(!ScreenshotParams::default().omit_background());
    assert!(!ScreenshotParams::default().full_page());
    assert_eq!(ScreenshotParams::default().screenshot_dimensions(), None);
}

#[test]
fn the_screen_has_a_default() {
    assert_eq!(
        ScreenshotParams::default().device_metrics(),
        SetDeviceMetricsOverrideParams {
            width: 800,
            height: 600,
            device_scale_factor: Num::Whole(1),
            mobile: false,
        }
    );
    assert_eq!(
        ScreenshotParams::default().viewport(),
        Region {
            x: Num::Whole(0),
            y: Num::Whole(0),
            width: Num::Whole(800),
            height: Num::Whole(600),
            scale: Num::Whole(1),
        }
    );
    let params = ScreenshotParams::builder().viewport(screen()).build();
    assert_eq!(params.viewport(), region());
    assert_eq!(params.device_metrics(), device());
}

#[test]
fn a_page_is_shot_as_the_screen_shows_it() {
    let params = ScreenshotParams::builder().viewport(screen()).build();
    let (asked, end) = play(
        page().screenshot(params),
        vec![Reply::Done, metrics(), Reply::Done, image()],
    );
    assert_eq!(yielded(end), b"hello".to_vec());
    assert_eq!(
        asked,
        vec![
            activate(),
            command(Command::GetLayoutMetrics),
            set_device(device()),
            captured(region()),
        ]
    );
}

#[test]
fn a_full_page_shot_sets_everything_back() {
    let params = ScreenshotParams::builder()
        .viewport(screen())
        .full_page(true)
        .omit_background(true)
        .build();
    let (asked, end) = play(
        page().screenshot(params),
        vec![
            Reply::Done,
            metrics(),
            Reply::Done,
            Reply::Done,
            image(),
            Reply::Done,
            Reply::Done,
        ],
    );
    assert_eq!(yielded(end), b"hello".to_vec());
    assert_eq!(
        asked,
        vec![
            activate(),
            command(Command::GetLayoutMetrics),
            background(transparent()),
            set_device(SetDeviceMetricsOverrideParams { width: 1200, height: 3400, ..device() }),
            captured(Region { width: Num::Double(1), height: Num::Double(2), ..region() }),
            background(None),
            set_device(device()),
        ]
    );
}

#[test]
fn a_page_is_shot_at_given_dimensions() {
    let params =
        ScreenshotParams::builder().viewport(screen()).screenshot_dimensions((500, 300)).build();
    let scale = Rescaled {
        scale: Num::Double(7),
        height: Num::Double(8),
        height_pixels: 9,
        y: Num::Double(10),
    };
    let (asked, end) = play(
        page().screenshot(params),
        vec![Reply::Done, metrics(), Reply::Rescaled(scale), Reply::Done, image()],
    );
    yielded(end);
    assert_eq!(
        asked,
        vec![
            activate(),
            command(Command::GetLayoutMetrics),
            Request::Rescale(RescaleQuery {
                width: 500,
                height: 300,
                reference_width: Num::Whole(1000),
                device_scale_factor: Num::Whole(2),
                y: Num::Whole(0),
                viewport_height: Num::Whole(480),
            }),
            set_device(SetDeviceMetricsOverrideParams { height: 9, ..device() }),
            captured(Region { scale: Num::Double(7), height: Num::Double(8), ..region() }),
        ]
    );
}

#[test]
fn a_height_of_zero_leaves_the_height() {
    let params =
        ScreenshotParams::builder().viewport(screen()).screenshot_dimensions((500, 0)).build();
    let scale = Rescaled {
        scale: Num::Double(7),
        height: Num::Double(8),
        height_pixels: 9,
        y: Num::Double(10),
    };
    let (asked, end) = play(
        page().screenshot(params),
        vec![Reply::Done, metrics(), Reply::Rescaled(scale), Reply::Done, image()],
    );
    yielded(end);
    assert_eq!(asked[3], set_device(device()));
    assert_eq!(asked[4], captured(Region { scale: Num::Double(7), ..region() }));
}

#[test]
fn a_given_region_is_kept() {
    let clip = Region { x: Num::Whole(3), ..region() };
    let params = ScreenshotParams::builder().clip(clip).build();
    let (asked, end) = play(
        page().screenshot(params),
        vec![Reply::Done, metrics(), Reply::Done, image()],
    );
    yielded(end);
    assert_eq!(asked[3], captured(clip));
}

#[test]
fn a_given_region_is_scaled_to_given_dimensions() {
    let clip = Region {
        x: Num::Whole(3),
        y: Num::Whole(5),
        width: Num::Whole(100),
        height: Num::Whole(50),
        scale: Num::Whole(1),
    };
    let scale = Rescaled {
        scale: Num::Double(7),
        height: Num::Double(8),
        height_pixels: 9,
        y: Num::Double(10),
    };
    let given = ScreenshotParams::builder().viewport(screen()).clip(clip);
    let params = given.screenshot_dimensions((500, 300)).build();
    let (asked, end) = play(
        page().screenshot(params),
        vec![Reply::Done, metrics(), Reply::Rescaled(scale), Reply::Done, image()],
    );
    yielded(end);
    assert_eq!(
        asked[2],
        Request::Rescale(RescaleQuery {
            width: 500,
            height: 300,
            reference_width: Num::Whole(100),
            device_scale_factor: Num::Whole(2),
            y: Num::Whole(5),
            viewport_height: Num::Whole(50),
        })
    );
    assert_eq!(asked[3], set_device(SetDeviceMetricsOverrideParams { height: 9, ..device() }));
    assert_eq!(
        asked[4],
        captured(Region { scale: Num::Double(7), height: Num::Double(8), ..clip })
    );
    let params = given.screenshot_dimensions((500, 0)).build();
    let (asked, end) = play(
        page().screenshot(params),
        vec![Reply::Done, metrics(), Reply::Rescaled(scale), Reply::Done, image()],
    );
    yielded(end);
    assert_eq!(asked[4], captured(Region { scale: Num::Double(7), ..clip }));
}

#[test]
fn a_given_region_is_taken_of_the_full_page() {
    let clip = Region { x: Num::Whole(3), ..region() };
    let params = ScreenshotParams::builder().viewport(screen()).clip(clip).full_page(true).build();
    let (asked, end) = play(
        page().screenshot(params),
        vec![Reply::Done, metrics(), Reply::Done, image(), Reply::Done],
    );
    yielded(end);
    assert_eq!(
        asked[2],
        set_device(SetDeviceMetricsOverrideParams { width: 1200, height: 3400, ..device() })
    );
    assert_eq!(asked[3], captured(clip));
    assert_eq!(asked[4], set_device(device()));
}

#[test]
fn a_saved_shot_is_written_and_yielded() {
    let (asked, end) = play(
        page().save_screenshot(ScreenshotParams::default(), "a.png".to_string()),
        vec![Reply::Done, metrics(), Reply::Done, image(), Reply::Done],
    );
    assert_eq!(yielded(end), b"hello".to_vec());
    assert_eq!(
        asked[4],
        Request::Write { path: "a.png".to_string(), contents: b"hello".to_vec() }
    );
}

#[test]
fn an_image_that_is_not_base64_fails() {
    let (_, end) = play(
        page().screenshot(ScreenshotParams::default()),
        vec![Reply::Done, metrics(), Reply::Done, Reply::Text("!".to_string())],
    );
    assert!(matches!(end, End::Failed(CdpError::Decode(_))));
}

#[test]
fn an_element_is_shot_on_the_whole_page() {
    let element = Element {
        remote_object_id: RemoteObjectId("object".to_string()),
        backend_node_id: BackendNodeId(7),
        node_id: NodeId(8),
    };
    let corners: Vec<Num> = (0..8).map(Num::Whole).collect();
    let boxes = || {
        Reply::BoxModel(BoxModelReply {
            content: corners.clone(),
            padding: corners.clone(),
            border: corners.clone(),
            margin: corners.clone(),
            width: 1,
            height: 1,
        })
    };
    let bounds = BoundingBox {
        x: Num::Whole(1),
        y: Num::Whole(2),
        width: Num::Whole(3),
        height: Num::Whole(4),
    };
    let quad = ElementQuad {
        top_left: Point { x: Num::Whole(0), y: Num::Whole(1) },
        top_right: Point { x: Num::Whole(2), y: Num::Whole(3) },
        bottom_right: Point { x: Num::Whole(4), y: Num::Whole(5) },
        bottom_left: Point { x: Num::Whole(6), y: Num::Whole(7) },
    };
    let shown = Region {
        x: Num::Whole(1),
        y: Num::Whole(2),
        width: Num::Whole(3),
        height: Num::Whole(4),
        scale: Num::Whole(1),
    };
    let whole = SetDeviceMetricsOverrideParams { width: 1200, height: 3400, ..device() };
    let params = ScreenshotParams::builder().viewport(screen()).omit_background(true).build();
    let (asked, end) = play(
        element.screenshot(params),
        vec![
            boxes(),
            Reply::Bounds(bounds),
            metrics(),
            Reply::Done,
            Reply::Done,
            image(),
            Reply::Done,
            Reply::Done,
        ],
    );
    assert_eq!(yielded(end), b"hello".to_vec());
    assert_eq!(
        asked,
        vec![
            command(Command::GetBoxModel { backend_node_id: BackendNodeId(7) }),
            Request::Bounds { quad },
            command(Command::GetLayoutMetrics),
            background(transparent()),
            set_device(whole),
            captured(shown),
            background(None),
            set_device(device()),
        ]
    );
    let params =
        ScreenshotParams::builder().viewport(screen()).screenshot_dimensions((30, 20)).build();
    let scale = Rescaled {
        scale: Num::Double(7),
        height: Num::Double(8),
        height_pixels: 9,
        y: Num::Double(10),
    };
    let (asked, end) = play(
        element.save_screenshot(params, "b.png".to_string()),
        vec![
            boxes(),
            Reply::Bounds(bounds),
            metrics(),
            Reply::Rescaled(scale),
            Reply::Done,
            image(),
            Reply::Done,
            Reply::Done,
        ],
    );
    assert_eq!(yielded(end), b"hello".to_vec());
    assert_eq!(
        asked[3],
        Request::Rescale(RescaleQuery {
            width: 30,
            height: 20,
            reference_width: Num::Whole(3),
            device_scale_factor: Num::Whole(2),
            y: Num::Whole(2),
            viewport_height: Num::Whole(4),
        })
    );
    assert_eq!(asked[4], set_device(whole));
    assert_eq!(
        asked[5],
        captured(Region {
            scale: Num::Double(7),
            y: Num::Double(10),
            height: Num::Double(8),
            ..shown
        })
    );
    assert_eq!(asked[6], set_device(device()));
    assert_eq!(
        asked[7],
        Request::Write { path: "b.png".to_string(), contents: b"hello".to_vec() }
    );
}

#[test]
fn a_page_is_printed() {
    let options = || PrintToPdfParams { options: Json("{}".to_string()) };
    let (asked, end) = play(page().pdf(options()), vec![image()]);
    assert_eq!(yielded(end), b"hello".to_vec());
    assert_eq!(asked, vec![command(Command::PrintToPdf(options()))]);
    let (asked, end) = play(
        page().save_pdf(options(), "a.pdf".to_string()),
        vec![image(), Reply::Done],
    );
    assert_eq!(yielded(end), b"hello".to_vec());
    assert_eq!(
        asked[1],
        Request::Write { path: "a.pdf".to_string(), contents: b"hello".to_vec() }
    );
}

fn frame(data: &[u8], copies: i32, timestamp: u128) -> ScreencastFrame {
    ScreencastFrame { data: data.to_vec(), copies, timestamp }
}

#[test]
fn frames_fill_the_time_between_them() {
    let frames = vec![frame(b"a", 100, 1000), frame(b"b", 1, 2000), frame(b"c", 0, 3000)];
    let images = interpolate(&frames, 3999).unwrap();
    assert_eq!(images, vec![b"b".to_vec(), b"b".to_vec(), b"c".to_vec(), b"c".to_vec()]);
    let images = interpolate(&frames, 5000).unwrap();
    assert_eq!(images.len(), 3 + 2 * 25 + 1);
    assert_eq!(images[53], b"c".to_vec());
}

#[test]
fn frames_without_an_image_cannot_be_shown() {
    assert_eq!(interpolate(&vec![], 0), None);
    assert_eq!(interpolate(&vec![frame(b"a", 5, 0)], 10), None);
    assert_eq!(interpolate(&vec![frame(b"a", 5, 0), frame(b"b", -1, 5)], 10), None);
    assert_eq!(interpolate(&vec![frame(b"a", 5, 0), frame(b"b", 1, 11)], 10), None);
}

#[test]
fn a_screencast_yields_no_image() {
    let (asked, end) = play(
        page().screencast(),
        vec![
            Reply::Done,
            Reply::Done,
            Reply::Clock(4000),
            Reply::Done,
            Reply::Screencast(vec![frame(b"a", 0, 2000), frame(b"b", 3, 3000)]),
        ],
    );
    assert!(yielded(end).is_empty());
    assert_eq!(
        asked,
        vec![
            Request::CollectScreencast,
            command(Command::StartScreencast),
            Request::Pause { milliseconds: 2000 },
            command(Command::StopScreencast),
            Request::ScreencastFrames,
        ]
    );
    let (_, end) = play(
        page().screencast(),
        vec![
            Reply::Done,
            Reply::Done,
            Reply::Clock(4000),
            Reply::Done,
            Reply::Screencast(vec![]),
        ],
    );
    assert!(matches!(end, End::Aborted));
}
