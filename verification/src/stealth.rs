//! What a page does to pass for one that a person drives.
use vstd::prelude::*;

use crate::cdp::command::{Command, CommandView};
use crate::cdp::network::{SetUserAgentOverrideParams, SetUserAgentOverrideParamsView};
use crate::cdp::page::{
    AddScriptToEvaluateOnNewDocumentParams, AddScriptToEvaluateOnNewDocumentParamsView,
};
use crate::cdp::runtime::RemoteObjectView;
use crate::error::{CdpError, ErrorView};
use crate::evaluate::{evaluate_text, evaluate_text_op, Evaluate};
use crate::flow::{
    ask, asking, bind, chain, execute, executing, fail, follows, same_is_equal, Await, Chain, Next,
    Prog, Start, Step,
};
use crate::js::EvaluationResult;
use crate::json::{compact, json_compact};
use crate::outside::{regex_replaced, replace_match};
use crate::page::Page;
use crate::protocol::{Request, RequestView};
use crate::sequence::{
    in_sequence, one_request, request_then_rest, sequence, sequence_splits, Sequence,
};
use crate::text::{replace, replaced};

verus! {

/// Removes `navigator.webdriver`.
pub const HIDE_WEBDRIVER: &'static str = "
                    Object.defineProperty(
                        navigator,
                        'webdriver',
                        { get: () => undefined }
                    );
                ";

/// Answers queries for permissions as a browser with a window does.
pub const HIDE_PERMISSIONS: &'static str = "
                    const originalQuery = window.navigator.permissions.query;
                    window.navigator.permissions.__proto__.query = parameters => {
                        return parameters.name === 'notifications'
                            ? Promise.resolve({ state: Notification.permission })
                            : originalQuery(parameters);
                    }
                ";

/// Shows plugins.
pub const HIDE_PLUGINS: &'static str = "
                    Object.defineProperty(
                        navigator,
                        'plugins',
                        {
                            get: () => [
                                { filename: 'internal-pdf-viewer' },
                                { filename: 'adsfkjlkjhalkh' },
                                { filename: 'internal-nacl-plugin '}
                            ],
                        }
                    );
                ";

/// Shows a common vendor and renderer of WebGL.
pub const HIDE_WEBGL_VENDOR: &'static str = "
                    const getParameter = WebGLRenderingContext.getParameter;
                    WebGLRenderingContext.prototype.getParameter = function (parameter) {
                        if (parameter === 37445) {
                            return 'Google Inc. (NVIDIA)';
                        }
    
                        if (parameter === 37446) {
                            return 'ANGLE (NVIDIA, NVIDIA GeForce GTX 1050 Direct3D11 vs_5_0 ps_5_0, D3D11-27.21.14.5671)';
                        }
    
                        return getParameter(parameter);
                    };
                ";

/// Sets `window.chrome`.
pub const HIDE_CHROME: &'static str = "window.chrome = { runtime: {} };";

/// Sets `window.chrome`.
pub const SPOOF_CHROME: &'static str = "window.chrome = { runtime: {} };";

/// Answers queries for permissions as a browser with a window does.
pub const SPOOF_PERMISSIONS: &'static str = "const originalQuery = window.navigator.permissions.query;
        window.navigator.permissions.__proto__.query = parameters =>
        parameters.name === 'notifications'
            ? Promise.resolve({state: Notification.permission})
            : originalQuery(parameters);";

/// Shows plugins.
pub const SPOOF_PLUGINS: &'static str = "Object.defineProperty(navigator, 'plugins', { get: () => [
                {filename:'dox-pdf-viewer'},
                {filename:'chewsday'},
                {filename:'internal-nacl-plugin'},
                {filename:'fuck-your-anti-bot'},
              ], });";

/// Shows no MIME types.
pub const SPOOF_MIME_TYPES: &'static str = "Object.defineProperty(navigator, 'mimeTypes', { get: () =>  [] });";

/// Removes `navigator.webdriver`.
pub const SPOOF_WEBDRIVER: &'static str = "Object.defineProperty(navigator, 'webdriver', {get: () => undefined});";

/// Shows a common vendor and renderer of WebGL.
pub const SPOOF_WEBGL: &'static str = "const getParameter = WebGLRenderingContext.getParameter;
            WebGLRenderingContext.prototype.getParameter = function(parameter) {
            // UNMASKED_VENDOR_WEBGL
            if (parameter === 37445) {
                return 'Google Inc. (NVIDIA)';
            }
            // UNMASKED_RENDERER_WEBGL
            if (parameter === 37446) {
                return 'ANGLE (NVIDIA, NVIDIA GeForce GTX 1050 Direct3D11 vs_5_0 ps_5_0, D3D11-27.21.14.5671)';
            }

            return getParameter(parameter);
        };";

/// The user agent in stealth mode.
pub const STEALTH_USER_AGENT: &'static str = "Mozilla/5.0 (Windows NT 11.0; Win64; x64) AppleWebKit/537.36 (KHTML, like Gecko) Chrome/107.0.5296.0 Safari/537.36";

/// What a browser without a window calls itself in its user agent.
pub const HEADLESS: &'static str = "HeadlessChrome/";

/// What a browser with a window calls itself in its user agent.
pub const HEADED: &'static str = "Chrome/";

/// The regular expression that finds the platform in a user agent.
pub const PLATFORM_PATTERN: &'static str = "\\(([^)]+)\\)";

/// A common platform.
pub const PLATFORM: &'static str = "(Windows NT 10.0; Win64; x64)";

// What each operation does.

/// The request that has a script run in every new document.
pub open spec fn script_request(source: Seq<char>) -> RequestView {
    RequestView::Command(
        CommandView::AddScriptToEvaluateOnNewDocument(
            AddScriptToEvaluateOnNewDocumentParamsView::of(source),
        ),
    )
}

/// The request that overrides the user agent.
pub open spec fn agent_request(user_agent: Seq<char>) -> RequestView {
    RequestView::Command(
        CommandView::SetUserAgentOverride(SetUserAgentOverrideParamsView::of(user_agent)),
    )
}

/// What stealth mode sets, the user agent left out.
pub open spec fn stealth_requests() -> Seq<RequestView> {
    seq![
        script_request(HIDE_WEBDRIVER@),
        script_request(HIDE_PERMISSIONS@),
        script_request(HIDE_PLUGINS@),
        script_request(HIDE_WEBGL_VENDOR@),
        script_request(HIDE_CHROME@),
    ]
}

/// What stealth mode sets. An empty user agent is left as it is.
pub open spec fn stealth_with_agent(user_agent: Seq<char>) -> Seq<RequestView> {
    if user_agent.len() == 0 {
        stealth_requests()
    } else {
        stealth_requests().push(agent_request(user_agent))
    }
}

/// A user agent that names a browser with a window and a common platform.
pub open spec fn disguised(user_agent: Seq<char>) -> Option<Seq<char>> {
    regex_replaced(PLATFORM_PATTERN@, replaced(user_agent, HEADLESS@, HEADED@), PLATFORM@)
}

/// Sets a user agent that was made up, if one was.
pub open spec fn put_on_op(user_agent: Option<Seq<char>>) -> Prog<()> {
    match user_agent {
        Some(text) => execute::<()>(
            CommandView::SetUserAgentOverride(SetUserAgentOverrideParamsView::of(text)),
        ),
        None => Prog::Abort,
    }
}

/// Sets a user agent in place of the one that the page reports, as JSON.
pub open spec fn disguise_op(reported: Option<Seq<char>>) -> Prog<()> {
    match reported {
        Some(json) => match json_compact(json) {
            Some(text) => put_on_op(disguised(text)),
            None => fail(ErrorView::Serde),
        },
        None => fail(ErrorView::ChromeMessage("No user agent is set"@)),
    }
}

/// Reads the user agent of the page and sets one that names a browser with a window and a
/// common platform.
pub open spec fn spoof_user_agent_op() -> Prog<()> {
    bind(
        evaluate_text_op("window.navigator.userAgent"@),
        |object: RemoteObjectView| disguise_op(object.value),
    )
}

/// What spoofing sets before the user agent.
pub open spec fn spoofed_first() -> Seq<RequestView> {
    seq![
        script_request(SPOOF_CHROME@),
        script_request(SPOOF_PERMISSIONS@),
        script_request(SPOOF_PLUGINS@),
        script_request(SPOOF_MIME_TYPES@),
    ]
}

/// What spoofing sets after the user agent.
pub open spec fn spoofed_last() -> Seq<RequestView> {
    seq![script_request(SPOOF_WEBDRIVER@), script_request(SPOOF_WEBGL@)]
}

/// Sets all that spoofing sets.
pub open spec fn enable_spoofing_op() -> Prog<()> {
    bind(
        sequence(spoofed_first()),
        |u: ()| bind(spoof_user_agent_op(), |u: ()| sequence(spoofed_last())),
    )
}

// What is left of an operation while it waits.

/// The request that has a script run in every new document.
fn add_script(source: &str) -> (request: Request)
    ensures
        request.deep_view() == script_request(source@),
{
    Request::Command(
        Command::AddScriptToEvaluateOnNewDocument(
            AddScriptToEvaluateOnNewDocumentParams::new(source.to_owned()),
        ),
    )
}

/// The request that overrides the user agent.
fn override_agent(user_agent: &str) -> (request: Request)
    ensures
        request.deep_view() == agent_request(user_agent@),
{
    Request::Command(
        Command::SetUserAgentOverride(SetUserAgentOverrideParams::new(user_agent.to_owned())),
    )
}

/// What stealth mode sets, the user agent left out.
fn stealth_scripts() -> (requests: Vec<Request>)
    ensures
        requests.deep_view() == stealth_requests(),
{
    let requests: Vec<Request> = vec![
        add_script(HIDE_WEBDRIVER),
        add_script(HIDE_PERMISSIONS),
        add_script(HIDE_PLUGINS),
        add_script(HIDE_WEBGL_VENDOR),
        add_script(HIDE_CHROME),
    ];
    assert(requests.deep_view() =~= stealth_requests());
    requests
}

/// A user agent that names a browser with a window in place of one without.
pub fn name_headed(user_agent: &str) -> (headed: String)
    ensures
        headed@ == replaced(user_agent@, HEADLESS@, HEADED@),
{
    proof {
        reveal_strlit("HeadlessChrome/");
    }
    replace(user_agent, HEADLESS, HEADED)
}

/// A user agent that names a browser with a window and a common platform.
pub fn disguise(user_agent: &str) -> (disguised_agent: Option<String>)
    ensures
        disguised_agent.deep_view() == disguised(user_agent@),
{
    let headed = name_headed(user_agent);
    replace_match(PLATFORM_PATTERN, headed.as_str(), PLATFORM)
}

/// Sets a user agent that was made up, if one was.
pub fn put_on(user_agent: Option<String>) -> (step: Step<Await<()>, ()>)
    ensures
        follows(step, put_on_op(user_agent.deep_view())),
{
    match user_agent {
        Some(text) => executing(
            Command::SetUserAgentOverride(SetUserAgentOverrideParams::new(text)),
        ),
        None => Step::Abort,
    }
}

/// Sets a user agent in place of the given one, or fails with the error of the JSON parser.
pub fn disguise_reported(text: Result<String, serde_json::Error>) -> (step: Step<Await<()>, ()>)
    ensures
        follows(
            step,
            match text {
                Ok(t) => put_on_op(disguised(t@)),
                Err(_) => fail(ErrorView::Serde),
            },
        ),
{
    match text {
        Ok(t) => put_on(disguise(t.as_str())),
        Err(error) => Step::Done(Err(CdpError::Serde(error))),
    }
}

/// Sets a user agent in place of the one that the page reports.
pub struct Disguise;

impl Next for Disguise {
    type Input = EvaluationResult;

    type Rest = Await<()>;

    open spec fn next(self, object: RemoteObjectView) -> Prog<()> {
        disguise_op(object.value)
    }
}

impl Start for Disguise {
    fn start(self, reported: EvaluationResult) -> (step: Step<Await<()>, ()>) {
        match reported.value() {
            Some(json) => disguise_reported(compact(json)),
            None => Step::Done(Err(CdpError::msg("No user agent is set"))),
        }
    }
}

/// Sets what spoofing sets after the user agent.
pub struct SpoofLast;

impl Next for SpoofLast {
    type Input = ();

    type Rest = Sequence;

    open spec fn next(self, u: ()) -> Prog<()> {
        sequence(spoofed_last())
    }
}

impl Start for SpoofLast {
    fn start(self, u: ()) -> (step: Step<Sequence, ()>) {
        let requests: Vec<Request> = vec![add_script(SPOOF_WEBDRIVER), add_script(SPOOF_WEBGL)];
        assert(requests.deep_view() =~= spoofed_last());
        in_sequence(requests)
    }
}

/// Sets the user agent, and what spoofing sets after it.
pub struct SpoofAgent;

impl Next for SpoofAgent {
    type Input = ();

    type Rest = Chain<Chain<Evaluate, Disguise>, SpoofLast>;

    open spec fn next(self, u: ()) -> Prog<()> {
        bind(spoof_user_agent_op(), |u: ()| sequence(spoofed_last()))
    }
}

impl Start for SpoofAgent {
    fn start(self, u: ()) -> (step: Step<Chain<Chain<Evaluate, Disguise>, SpoofLast>, ()>) {
        broadcast use same_is_equal;

        chain(spoof_agent(), SpoofLast)
    }
}

/// Reads the user agent of the page and sets one in its place.
pub fn spoof_agent() -> (step: Step<Chain<Evaluate, Disguise>, ()>)
    ensures
        follows(step, spoof_user_agent_op()),
{
    broadcast use same_is_equal;

    chain(evaluate_text("window.navigator.userAgent"), Disguise)
}

impl Page {
    /// Removes `navigator.webdriver`, and changes permissions, plugins, the vendor of
    /// WebGL and `window.chrome`.
    pub fn _enable_stealth_mode(&self) -> (step: Step<Sequence, ()>)
        ensures
            follows(step, sequence(stealth_requests())),
    {
        in_sequence(stealth_scripts())
    }

    /// Changes the user agent, removes `navigator.webdriver`, and changes permissions,
    /// plugins, the vendor of WebGL and `window.chrome`.
    pub fn enable_stealth_mode(&self) -> (step: Step<Sequence, ()>)
        ensures
            follows(step, sequence(stealth_requests().push(agent_request(STEALTH_USER_AGENT@)))),
    {
        let mut requests = stealth_scripts();
        requests.push(override_agent(STEALTH_USER_AGENT));
        assert(requests.deep_view() =~= stealth_requests().push(
            agent_request(STEALTH_USER_AGENT@),
        ));
        in_sequence(requests)
    }

    /// As [`Page::enable_stealth_mode`], with a user agent of one's own. Where it is empty,
    /// the user agent is left as it is.
    pub fn enable_stealth_mode_with_agent(&self, ua: &str) -> (step: Step<Sequence, ()>)
        ensures
            follows(step, sequence(stealth_with_agent(ua@))),
    {
        let mut requests = stealth_scripts();
        if !ua.is_empty() {
            requests.push(override_agent(ua));
            assert(requests.deep_view() =~= stealth_requests().push(agent_request(ua@)));
        }
        in_sequence(requests)
    }

    /// Sets `window.chrome` in new documents.
    pub fn hide_chrome(&self) -> (step: Step<Await<()>, ()>)
        ensures
            follows(step, ask::<()>(script_request(HIDE_CHROME@))),
    {
        asking(add_script(HIDE_CHROME))
    }

    /// Changes the vendor of WebGL in new documents.
    pub fn hide_webgl_vendor(&self) -> (step: Step<Await<()>, ()>)
        ensures
            follows(step, ask::<()>(script_request(HIDE_WEBGL_VENDOR@))),
    {
        asking(add_script(HIDE_WEBGL_VENDOR))
    }

    /// Changes the plugins in new documents.
    pub fn hide_plugins(&self) -> (step: Step<Await<()>, ()>)
        ensures
            follows(step, ask::<()>(script_request(HIDE_PLUGINS@))),
    {
        asking(add_script(HIDE_PLUGINS))
    }

    /// Changes the permissions in new documents.
    pub fn hide_permissions(&self) -> (step: Step<Await<()>, ()>)
        ensures
            follows(step, ask::<()>(script_request(HIDE_PERMISSIONS@))),
    {
        asking(add_script(HIDE_PERMISSIONS))
    }

    /// Removes `navigator.webdriver` in new documents.
    pub fn hide_webdriver(&self) -> (step: Step<Await<()>, ()>)
        ensures
            follows(step, ask::<()>(script_request(HIDE_WEBDRIVER@))),
    {
        asking(add_script(HIDE_WEBDRIVER))
    }

    /// Sets all that makes the page pass for one that a person drives.
    pub fn enable_spoofing(&self) -> (step: Step<Chain<Sequence, SpoofAgent>, ()>)
        ensures
            follows(step, enable_spoofing_op()),
    {
        broadcast use same_is_equal;

        let requests: Vec<Request> = vec![
            add_script(SPOOF_CHROME),
            add_script(SPOOF_PERMISSIONS),
            add_script(SPOOF_PLUGINS),
            add_script(SPOOF_MIME_TYPES),
        ];
        assert(requests.deep_view() =~= spoofed_first());
        chain(in_sequence(requests), SpoofAgent)
    }

    /// Sets a user agent that names a browser with a window and a common platform.
    pub fn spoof_user_agent(&self) -> (step: Step<Chain<Evaluate, Disguise>, ()>)
        ensures
            follows(step, spoof_user_agent_op()),
    {
        spoof_agent()
    }

    /// Removes `navigator.webdriver` in new documents.
    pub fn spoof_webdriver(&self) -> (step: Step<Await<()>, ()>)
        ensures
            follows(step, ask::<()>(script_request(SPOOF_WEBDRIVER@))),
    {
        asking(add_script(SPOOF_WEBDRIVER))
    }

    /// Sets `window.chrome` in new documents.
    pub fn spoof_chrome(&self) -> (step: Step<Await<()>, ()>)
        ensures
            follows(step, ask::<()>(script_request(SPOOF_CHROME@))),
    {
        asking(add_script(SPOOF_CHROME))
    }

    /// Changes the permissions in new documents.
    pub fn spoof_permissions(&self) -> (step: Step<Await<()>, ()>)
        ensures
            follows(step, ask::<()>(script_request(SPOOF_PERMISSIONS@))),
    {
        asking(add_script(SPOOF_PERMISSIONS))
    }

    /// Changes the plugins in new documents.
    pub fn spoof_plugins(&self) -> (step: Step<Await<()>, ()>)
        ensures
            follows(step, ask::<()>(script_request(SPOOF_PLUGINS@))),
    {
        asking(add_script(SPOOF_PLUGINS))
    }

    /// Leaves no MIME types in new documents.
    pub fn spoof_mime_types(&self) -> (step: Step<Await<()>, ()>)
        ensures
            follows(step, ask::<()>(script_request(SPOOF_MIME_TYPES@))),
    {
        asking(add_script(SPOOF_MIME_TYPES))
    }

    /// Changes the vendor of WebGL in new documents.
    pub fn spoof_webgl(&self) -> (step: Step<Await<()>, ()>)
        ensures
            follows(step, ask::<()>(script_request(SPOOF_WEBGL@))),
    {
        asking(add_script(SPOOF_WEBGL))
    }
}

// What holds whatever the browser answers.

/// Stealth mode is what each of its scripts does, one after the other.
pub proof fn stealth_is_each_script()
    ensures
        sequence(stealth_requests()) == bind(
            ask::<()>(script_request(HIDE_WEBDRIVER@)),
            |u: ()|
                bind(
                    ask::<()>(script_request(HIDE_PERMISSIONS@)),
                    |u: ()|
                        bind(
                            ask::<()>(script_request(HIDE_PLUGINS@)),
                            |u: ()|
                                bind(
                                    ask::<()>(script_request(HIDE_WEBGL_VENDOR@)),
                                    |u: ()| ask::<()>(script_request(HIDE_CHROME@)),
                                ),
                        ),
                ),
        ),
{
    let scripts = stealth_requests();
    request_then_rest(scripts);
    request_then_rest(scripts.skip(1));
    request_then_rest(scripts.skip(1).skip(1));
    request_then_rest(scripts.skip(1).skip(1).skip(1));
    assert(scripts.skip(1).skip(1).skip(1).skip(1) =~= seq![script_request(HIDE_CHROME@)]);
    one_request(script_request(HIDE_CHROME@));
}

/// Stealth mode with a user agent is stealth mode, then the user agent; with an empty one
/// it is stealth mode alone.
pub proof fn stealth_then_agent(user_agent: Seq<char>)
    ensures
        sequence(stealth_with_agent(user_agent)) == if user_agent.len() == 0 {
            sequence(stealth_requests())
        } else {
            bind(sequence(stealth_requests()), |u: ()| ask::<()>(agent_request(user_agent)))
        },
{
    let agent = agent_request(user_agent);
    assert(stealth_requests().push(agent) =~= stealth_requests() + seq![agent]);
    sequence_splits(stealth_requests(), seq![agent]);
    one_request(agent);
}

/// Stealth mode as such is stealth mode with a user agent of its own.
pub proof fn stealth_has_an_agent()
    ensures
        stealth_with_agent(STEALTH_USER_AGENT@) == stealth_requests().push(
            agent_request(STEALTH_USER_AGENT@),
        ),
{
    reveal_strlit(
        "Mozilla/5.0 (Windows NT 11.0; Win64; x64) AppleWebKit/537.36 (KHTML, like Gecko) Chrome/107.0.5296.0 Safari/537.36",
    );
}

} // verus!
