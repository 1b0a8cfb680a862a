//! Navigation, frames, and what a page is told.
use vstd::prelude::*;

use crate::cdp::browser::{GetVersionReturns, GetVersionReturnsView};
use crate::cdp::command::{Command, CommandView, Domain};
use crate::cdp::dom::{Node, NodeId, NodeView, Rgba};
use crate::cdp::emulation::{
    MediaFeature, SetDeviceMetricsOverrideParams, SetGeolocationOverrideParams,
};
use crate::cdp::network::SetUserAgentOverrideParams;
use crate::cdp::page::{
    AddScriptToEvaluateOnNewDocumentParams, AddScriptToEvaluateOnNewDocumentParamsView, FrameId,
    GetFrameTreeReturns, GetFrameTreeReturnsView, GetLayoutMetricsReturns,
    GetLayoutMetricsReturnsView, NavigateParams, ScriptIdentifier,
};
use crate::cdp::runtime::ExecutionContextId;
use crate::error::ErrorView;
use crate::flow::{bind, done, fail, remaining, same_is_equal, Await, Chain, Step};
use crate::handler::page::{CommandMessage, Navigate, PageInner};
use crate::js::{evaluation_string, quoted_arguments};
use crate::json::Json;
use crate::page::{MatchEvent, Navigated, Page, ReadUserAgent};
use crate::protocol::{DomWorldKind, ReplyView, RequestView};
use crate::sequence::{sequence, Sequence};

verus! {

/// A command that a page or its session is to send is addressed to that session, and is the
/// command that is given.
pub proof fn commands_go_to_the_session(
    page: &Page,
    command: Command,
    of_page: CommandMessage,
    future_of_page: CommandMessage,
    of_tab: CommandMessage,
    future_of_tab: CommandMessage,
)
    requires
        call_ensures(Page::execute, (page, command), of_page),
        call_ensures(Page::command_future, (page, command), future_of_page),
        call_ensures(PageInner::execute, (&page.inner, command), of_tab),
        call_ensures(PageInner::command_future, (&page.inner, command), future_of_tab),
    ensures
        of_page.command == command && of_page.session_id == Some(page.inner.session_id),
        future_of_page == of_page,
        of_tab == of_page,
        future_of_tab == of_page,
{
}

/// A command that makes a page navigate is sent as it is given, then the navigation is waited
/// for, and its request is yielded.
pub proof fn navigation_follows_the_command(
    page: &Page,
    command: Command,
    of_page: Step<Chain<Await<()>, Navigate>, Json>,
    of_tab: Step<Chain<Await<()>, Navigate>, Json>,
    sent: ReplyView,
    request: Seq<char>,
)
    requires
        call_ensures(Page::http_future, (page, command), of_page),
        call_ensures(PageInner::http_future, (&page.inner, command), of_tab),
    ensures
        remaining(of_page).sends(command.deep_view(), sent).asks(
            RequestView::Navigation,
            ReplyView::Payload(request),
        ) == done(request),
        remaining(of_tab) == remaining(of_page),
{
    broadcast use same_is_equal;

    reveal_with_fuel(bind, 3);
}

/// To go to a URL is to navigate as is told, and it fails with the text that the browser gives
/// as the error, where it gives one.
pub proof fn page_goes_to_the_url(
    page: &Page,
    params: NavigateParams,
    step: Step<Chain<Await<Option<String>>, Navigated>, ()>,
    text: Seq<char>,
)
    requires
        call_ensures(Page::goto, (page, params), step),
    ensures
        remaining(step).sends(
            CommandView::Navigate(params.deep_view()),
            ReplyView::OptionalText(None),
        ) == done(()),
        remaining(step).sends(
            CommandView::Navigate(params.deep_view()),
            ReplyView::OptionalText(Some(text)),
        ) == fail::<()>(ErrorView::ChromeMessage(text)),
{
    reveal_with_fuel(bind, 2);
}

/// A page that is reloaded is reloaded first and then waited for.
pub proof fn page_is_reloaded(
    page: &Page,
    step: Step<Sequence, ()>,
    waiting: Step<Await<()>, ()>,
    response: Step<Await<Json>, Json>,
    reloaded: ReplyView,
    loaded: ReplyView,
    request: Seq<char>,
)
    requires
        call_ensures(Page::reload, (page,), step),
        call_ensures(Page::wait_for_navigation, (page,), waiting),
        call_ensures(Page::wait_for_navigation_response, (page,), response),
    ensures
        remaining(step).sends(CommandView::Reload, reloaded).asks(RequestView::Navigation, loaded)
            == done(()),
        remaining(waiting).asks(RequestView::Navigation, loaded) == done(()),
        remaining(response).asks(RequestView::Navigation, ReplyView::Payload(request)) == done(
            request,
        ),
{
    reveal_with_fuel(sequence, 3);
}

/// The wait for a lifecycle event is over where the event of that name has come, or where none
/// will come any more.
pub proof fn lifecycle_event_is_waited_for(
    page: &Page,
    event_name: &str,
    step: Step<Chain<Await<Option<String>>, MatchEvent>, bool>,
    name: Seq<char>,
)
    requires
        call_ensures(Page::wait_for_lifecycle_event, (page, event_name), step),
    ensures
        remaining(step).asks(RequestView::LifecycleEvent, ReplyView::OptionalText(Some(name)))
            == done(name == event_name@),
        remaining(step).asks(RequestView::LifecycleEvent, ReplyView::OptionalText(None)) == done(
            true,
        ),
{
    reveal_with_fuel(bind, 2);
}

/// What is asked of a frame is asked of the frame that is given, and yielded as it is answered.
pub proof fn frames_are_asked_for(
    page: &Page,
    frame_id: FrameId,
    name: Step<Await<Option<String>>, Option<String>>,
    url: Step<Await<Option<String>>, Option<String>>,
    page_url: Step<Await<Option<String>>, Option<String>>,
    parent: Step<Await<Option<FrameId>>, Option<FrameId>>,
    main: Step<Await<Option<FrameId>>, Option<FrameId>>,
    all: Step<Await<Vec<FrameId>>, Vec<FrameId>>,
    tree: Step<Await<GetFrameTreeReturns>, GetFrameTreeReturns>,
    text: Option<Seq<char>>,
    frames: Seq<Seq<char>>,
    found: GetFrameTreeReturnsView,
)
    requires
        call_ensures(Page::frame_name, (page, frame_id), name),
        call_ensures(Page::frame_url, (page, frame_id), url),
        call_ensures(Page::url, (page,), page_url),
        call_ensures(Page::frame_parent, (page, frame_id), parent),
        call_ensures(Page::mainframe, (page,), main),
        call_ensures(Page::frames, (page,), all),
        call_ensures(Page::get_frame_tree, (page,), tree),
    ensures
        remaining(name).asks(
            RequestView::Name { frame_id: frame_id.0@ },
            ReplyView::OptionalText(text),
        ) == done(text),
        remaining(url).asks(
            RequestView::Url { frame_id: Some(frame_id.0@) },
            ReplyView::OptionalText(text),
        ) == done(text),
        remaining(page_url).asks(
            RequestView::Url { frame_id: None },
            ReplyView::OptionalText(text),
        ) == done(text),
        remaining(parent).asks(
            RequestView::Parent { frame_id: frame_id.0@ },
            ReplyView::Frame(text),
        ) == done(text),
        remaining(main).asks(RequestView::MainFrame, ReplyView::Frame(text)) == done(text),
        remaining(all).asks(RequestView::AllFrames, ReplyView::Frames(frames)) == done(frames),
        remaining(tree).sends(CommandView::GetFrameTree, ReplyView::FrameTree(found)) == done(
            found,
        ),
{
}

/// The execution contexts of a page, or of a frame, are those of the worlds that they are asked
/// for of.
pub proof fn contexts_are_asked_for(
    page: &Page,
    frame_id: FrameId,
    main: Step<Await<Option<ExecutionContextId>>, Option<ExecutionContextId>>,
    secondary: Step<Await<Option<ExecutionContextId>>, Option<ExecutionContextId>>,
    of_frame: Step<Await<Option<ExecutionContextId>>, Option<ExecutionContextId>>,
    secondary_of_frame: Step<Await<Option<ExecutionContextId>>, Option<ExecutionContextId>>,
    context: Option<ExecutionContextId>,
)
    requires
        call_ensures(Page::execution_context, (page,), main),
        call_ensures(Page::secondary_execution_context, (page,), secondary),
        call_ensures(Page::frame_execution_context, (page, frame_id), of_frame),
        call_ensures(
            Page::frame_secondary_execution_context,
            (page, frame_id),
            secondary_of_frame,
        ),
    ensures
        remaining(main).asks(
            RequestView::ExecutionContext { frame_id: None, world: DomWorldKind::Main },
            ReplyView::Context(context),
        ) == done(context),
        remaining(secondary).asks(
            RequestView::ExecutionContext { frame_id: None, world: DomWorldKind::Secondary },
            ReplyView::Context(context),
        ) == done(context),
        remaining(of_frame).asks(
            RequestView::ExecutionContext {
                frame_id: Some(frame_id.0@),
                world: DomWorldKind::Main,
            },
            ReplyView::Context(context),
        ) == done(context),
        remaining(secondary_of_frame).asks(
            RequestView::ExecutionContext {
                frame_id: Some(frame_id.0@),
                world: DomWorldKind::Secondary,
            },
            ReplyView::Context(context),
        ) == done(context),
{
}

/// A session asks for execution contexts as its page does.
pub proof fn session_asks_for_contexts(
    tab: &PageInner,
    frame_id: Option<FrameId>,
    world: DomWorldKind,
    step: Step<Await<Option<ExecutionContextId>>, Option<ExecutionContextId>>,
    main: Step<Await<Option<ExecutionContextId>>, Option<ExecutionContextId>>,
    secondary: Step<Await<Option<ExecutionContextId>>, Option<ExecutionContextId>>,
    context: Option<ExecutionContextId>,
)
    requires
        call_ensures(PageInner::execution_context_for_world, (tab, frame_id, world), step),
        call_ensures(PageInner::execution_context, (tab,), main),
        call_ensures(PageInner::secondary_execution_context, (tab,), secondary),
    ensures
        remaining(step).asks(
            RequestView::ExecutionContext {
                frame_id: if frame_id is Some {
                    Some(frame_id->Some_0.deep_view())
                } else {
                    None
                },
                world,
            },
            ReplyView::Context(context),
        ) == done(context),
        remaining(main).asks(
            RequestView::ExecutionContext { frame_id: None, world: DomWorldKind::Main },
            ReplyView::Context(context),
        ) == done(context),
        remaining(secondary).asks(
            RequestView::ExecutionContext { frame_id: None, world: DomWorldKind::Secondary },
            ReplyView::Context(context),
        ) == done(context),
{
}

/// The user agent that is read is that of the browser, and the one that is set is the one that
/// is given.
pub proof fn user_agent_is_read_and_set(
    page: &Page,
    params: SetUserAgentOverrideParams,
    read: Step<Chain<Await<GetVersionReturns>, ReadUserAgent>, String>,
    set: Step<Await<()>, ()>,
    version: GetVersionReturnsView,
    reply: ReplyView,
)
    requires
        call_ensures(Page::user_agent, (page,), read),
        call_ensures(Page::set_user_agent, (page, params), set),
    ensures
        remaining(read).sends(CommandView::GetVersion, ReplyView::Version(version)) == done(
            version.user_agent,
        ),
        remaining(set).sends(CommandView::SetUserAgentOverride(params.deep_view()), reply) == done(
            (),
        ),
{
    reveal_with_fuel(bind, 2);
}

/// A node is described down to a hundred levels below it, and the document as a whole.
pub proof fn nodes_are_described(
    page: &Page,
    node_id: NodeId,
    step: Step<Await<Node>, Node>,
    document: Step<Await<Node>, Node>,
    node: NodeView,
)
    requires
        call_ensures(Page::describe_node, (page, node_id), step),
        call_ensures(Page::get_document_node, (page,), document),
    ensures
        remaining(step).sends(
            CommandView::DescribeNode {
                node_id: Some(node_id),
                backend_node_id: None,
                depth: Some(100),
            },
            ReplyView::Node(node),
        ) == done(node),
        remaining(document).sends(
            CommandView::GetDocument { depth: Some((-1) as i64), pierce: Some(true) },
            ReplyView::Node(node),
        ) == done(node),
{
}

/// What a page is to take its surroundings for is what is given.
pub proof fn surroundings_are_set(
    page: &Page,
    features: Vec<MediaFeature>,
    timezone_id: String,
    locale: Option<String>,
    geolocation: SetGeolocationOverrideParams,
    media: Step<Await<()>, ()>,
    timezone: Step<Await<()>, ()>,
    language: Step<Await<()>, ()>,
    place: Step<Await<()>, ()>,
    reply: ReplyView,
)
    requires
        call_ensures(Page::emulate_media_features, (page, features), media),
        call_ensures(Page::emulate_timezone, (page, timezone_id), timezone),
        call_ensures(Page::emulate_locale, (page, locale), language),
        call_ensures(Page::emulate_geolocation, (page, geolocation), place),
    ensures
        remaining(media).sends(
            CommandView::SetEmulatedMedia { features: features.deep_view() },
            reply,
        ) == done(()),
        remaining(timezone).sends(
            CommandView::SetTimezoneOverride { timezone_id: timezone_id@ },
            reply,
        ) == done(()),
        remaining(language).sends(
            CommandView::SetLocaleOverride {
                locale: if locale is Some {
                    Some(locale->0@)
                } else {
                    None
                },
            },
            reply,
        ) == done(()),
        remaining(place).sends(CommandView::SetGeolocationOverride(geolocation), reply) == done(
            (),
        ),
{
}

/// Each domain is switched on.
pub proof fn domains_are_switched_on(
    page: &Page,
    css: Step<Await<()>, ()>,
    debugger: Step<Await<()>, ()>,
    dom: Step<Await<()>, ()>,
    log: Step<Await<()>, ()>,
    network: Step<Await<()>, ()>,
    runtime: Step<Await<()>, ()>,
    reply: ReplyView,
)
    requires
        call_ensures(Page::enable_css, (page,), css),
        call_ensures(Page::enable_debugger, (page,), debugger),
        call_ensures(Page::enable_dom, (page,), dom),
        call_ensures(Page::enable_log, (page,), log),
        call_ensures(Page::enable_network, (page,), network),
        call_ensures(Page::enable_runtime, (page,), runtime),
    ensures
        remaining(css).sends(CommandView::Enable(Domain::Css), reply) == done(()),
        remaining(debugger).sends(CommandView::Enable(Domain::Debugger), reply) == done(()),
        remaining(dom).sends(CommandView::Enable(Domain::Dom), reply) == done(()),
        remaining(log).sends(CommandView::Enable(Domain::Log), reply) == done(()),
        remaining(network).sends(CommandView::Enable(Domain::Network), reply) == done(()),
        remaining(runtime).sends(CommandView::Enable(Domain::Runtime), reply) == done(()),
{
}

/// Each domain is switched off.
pub proof fn domains_are_switched_off(
    page: &Page,
    css: Step<Await<()>, ()>,
    debugger: Step<Await<()>, ()>,
    dom: Step<Await<()>, ()>,
    log: Step<Await<()>, ()>,
    network: Step<Await<()>, ()>,
    runtime: Step<Await<()>, ()>,
    reply: ReplyView,
)
    requires
        call_ensures(Page::disable_css, (page,), css),
        call_ensures(Page::disable_debugger, (page,), debugger),
        call_ensures(Page::disable_dom, (page,), dom),
        call_ensures(Page::disable_log, (page,), log),
        call_ensures(Page::disable_network, (page,), network),
        call_ensures(Page::disable_runtime, (page,), runtime),
    ensures
        remaining(css).sends(CommandView::Disable(Domain::Css), reply) == done(()),
        remaining(debugger).sends(CommandView::Disable(Domain::Debugger), reply) == done(()),
        remaining(dom).sends(CommandView::Disable(Domain::Dom), reply) == done(()),
        remaining(log).sends(CommandView::Disable(Domain::Log), reply) == done(()),
        remaining(network).sends(CommandView::Disable(Domain::Network), reply) == done(()),
        remaining(runtime).sends(CommandView::Disable(Domain::Runtime), reply) == done(()),
{
}

/// A page is activated by its own target, brought to the front and closed.
pub proof fn page_is_activated_and_closed(
    page: Page,
    activated: Step<Await<()>, ()>,
    session_activated: Step<Await<()>, ()>,
    in_front: Step<Await<()>, ()>,
    closed: Step<Await<()>, ()>,
    reply: ReplyView,
)
    requires
        call_ensures(Page::activate, (&page,), activated),
        call_ensures(PageInner::activate, (&page.inner,), session_activated),
        call_ensures(Page::bring_to_front, (&page,), in_front),
        call_ensures(Page::close, (page,), closed),
    ensures
        remaining(activated).sends(
            CommandView::ActivateTarget { target_id: page.inner.target_id.0@ },
            reply,
        ) == done(()),
        remaining(session_activated) == remaining(activated),
        remaining(in_front).sends(CommandView::BringToFront, reply) == done(()),
        remaining(closed).sends(CommandView::ClosePage, reply) == done(()),
{
    broadcast use same_is_equal;

}

/// Metrics, the layout, the version and the source of a script are yielded as the browser gives
/// them.
pub proof fn page_is_asked_for_what_it_is(
    page: &Page,
    script_id: String,
    metrics: Step<Await<Json>, Json>,
    layout: Step<Await<GetLayoutMetricsReturns>, GetLayoutMetricsReturns>,
    version: Step<Await<GetVersionReturns>, GetVersionReturns>,
    source: Step<Await<String>, String>,
    payload: Seq<char>,
    found: GetLayoutMetricsReturnsView,
    browser: GetVersionReturnsView,
)
    requires
        call_ensures(Page::metrics, (page,), metrics),
        call_ensures(Page::layout_metrics, (page,), layout),
        call_ensures(PageInner::version, (&page.inner,), version),
        call_ensures(Page::get_script_source, (page, script_id), source),
    ensures
        remaining(metrics).sends(CommandView::GetMetrics, ReplyView::Payload(payload)) == done(
            payload,
        ),
        remaining(layout).sends(CommandView::GetLayoutMetrics, ReplyView::LayoutMetrics(found))
            == done(found),
        remaining(version).sends(CommandView::GetVersion, ReplyView::Version(browser)) == done(
            browser,
        ),
        remaining(source).sends(
            CommandView::GetScriptSource { script_id: script_id@ },
            ReplyView::Text(payload),
        ) == done(payload),
{
}

/// What a session is told of the background and of the device it passes on.
pub proof fn session_sets_what_is_shown(
    tab: &PageInner,
    color: Option<Rgba>,
    device: SetDeviceMetricsOverrideParams,
    background: Step<Await<()>, ()>,
    metrics: Step<Await<()>, ()>,
    cleared: Step<Await<()>, ()>,
    started: Step<Await<()>, ()>,
    stopped: Step<Await<()>, ()>,
    reply: ReplyView,
)
    requires
        call_ensures(PageInner::set_background_color, (tab, color), background),
        call_ensures(PageInner::set_device_metrics, (tab, device), metrics),
        call_ensures(PageInner::clear_device_metrics, (tab,), cleared),
        call_ensures(PageInner::start_screencast, (tab,), started),
        call_ensures(PageInner::stop_screencast, (tab,), stopped),
    ensures
        remaining(background).sends(
            CommandView::SetDefaultBackgroundColorOverride { color },
            reply,
        ) == done(()),
        remaining(metrics).sends(CommandView::SetDeviceMetricsOverride(device), reply) == done(()),
        remaining(cleared).sends(CommandView::ClearDeviceMetricsOverride, reply) == done(()),
        remaining(started).sends(CommandView::StartScreencast, reply) == done(()),
        remaining(stopped).sends(CommandView::StopScreencast, reply) == done(()),
{
}

/// A script that every new document runs is the one that is given, and the id that the browser
/// gives it is yielded.
pub proof fn script_is_added(
    page: &Page,
    script: AddScriptToEvaluateOnNewDocumentParams,
    step: Step<Await<ScriptIdentifier>, ScriptIdentifier>,
    identifier: Seq<char>,
)
    requires
        call_ensures(Page::evaluate_on_new_document, (page, script), step),
    ensures
        remaining(step).sends(
            CommandView::AddScriptToEvaluateOnNewDocument(script.deep_view()),
            ReplyView::Script(identifier),
        ) == done(identifier),
{
}

/// A function that is exposed under a name gets a binding of that name, and every new document
/// calls the function with the two texts `exposedFun` and the name.
pub proof fn function_is_exposed(
    page: &Page,
    name: String,
    function: &str,
    step: Step<Sequence, ()>,
    bound: ReplyView,
    added: ReplyView,
)
    requires
        call_ensures(Page::expose_function, (page, name, function), step),
    ensures
        remaining(step).sends(CommandView::AddBinding { name: name@ }, bound).sends(
            CommandView::AddScriptToEvaluateOnNewDocument(
                AddScriptToEvaluateOnNewDocumentParamsView {
                    source: "("@ + function@ + ")("@ + ("\""@ + "exposedFun"@ + "\""@ + ",\""@
                        + name@ + "\""@) + ")"@,
                    world_name: None,
                    include_command_line_api: None,
                },
            ),
            added,
        ) == done(()),
{
    let arguments = seq!["exposedFun"@, name@];
    reveal_with_fuel(sequence, 3);
    reveal_with_fuel(quoted_arguments, 3);
    assert(arguments.drop_last() =~= seq!["exposedFun"@]);
}

/// The expression that calls a function holds the function, and each of the arguments in double
/// quotes, with a comma between one and the next: one more argument adds what stands for it at
/// the end.
pub proof fn call_holds_the_arguments(
    function: &str,
    arguments: Vec<String>,
    more: Vec<String>,
    expression: String,
    longer: String,
)
    requires
        call_ensures(evaluation_string, (function, &arguments), expression),
        call_ensures(evaluation_string, (function, &more), longer),
        more@.len() == arguments@.len() + 1,
        forall|i: int| 0 <= i < arguments@.len() ==> (#[trigger] more@[i])@ == arguments@[i]@,
    ensures
        arguments@.len() == 0 ==> expression@ == "("@ + function@ + ")("@ + ")"@,
        longer@ == expression@.subrange(0, expression@.len() - 1) + (if arguments@.len() == 0 {
            "\""@
        } else {
            ",\""@
        }) + more@[arguments@.len() as int]@ + "\""@ + ")"@,
{
    let short = arguments.deep_view();
    let long = more.deep_view();
    assert(long.drop_last() =~= short);
    assert(long.last() == more@[arguments@.len() as int]@);
    reveal_strlit(")");
    let head = "("@ + function@ + ")("@;
    assert(expression@.subrange(0, expression@.len() - 1) =~= head + quoted_arguments(short));
    assert(expression@ =~= head + quoted_arguments(short) + ")"@);
    if arguments@.len() == 0 {
        assert(quoted_arguments(short) =~= Seq::<char>::empty());
        assert(expression@ =~= head + ")"@);
        assert(head + quoted_arguments(long) =~= head + quoted_arguments(short) + "\""@
            + more@[0]@ + "\""@);
    } else {
        assert(head + quoted_arguments(long) =~= head + quoted_arguments(short) + ",\""@
            + long.last() + "\""@);
    }
}

} // verus!
