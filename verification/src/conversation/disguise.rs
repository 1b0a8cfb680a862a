//! What a page does to pass for one that a person drives.
use vstd::prelude::*;

use crate::cdp::command::CommandView;
use crate::cdp::network::SetUserAgentOverrideParamsView;
use crate::cdp::page::AddScriptToEvaluateOnNewDocumentParamsView;
use crate::cdp::runtime::{CallFunctionOnReturnsView, ExecutionContextId};
use crate::error::ErrorView;
use crate::evaluate::Evaluate;
use crate::flow::{bind, done, fail, remaining, Await, Chain, Prog, Step};
use crate::json::json_compact;
use crate::outside::regex_replaced;
use crate::page::Page;
use crate::protocol::ReplyView;
use crate::sequence::{sequence, Sequence};
use crate::stealth::{
    Disguise, SpoofAgent, HIDE_CHROME, HIDE_PERMISSIONS, HIDE_PLUGINS, HIDE_WEBDRIVER,
    HIDE_WEBGL_VENDOR, SPOOF_CHROME, SPOOF_MIME_TYPES, SPOOF_PERMISSIONS, SPOOF_PLUGINS,
    SPOOF_WEBDRIVER, SPOOF_WEBGL, STEALTH_USER_AGENT,
};
use crate::text::replaced;

verus! {

impl<T> Prog<T> {
    /// What is left of an operation once every new document is told to run a script.
    pub open spec fn adds_script(self, source: Seq<char>, reply: ReplyView) -> Prog<T> {
        self.sends(
            CommandView::AddScriptToEvaluateOnNewDocument(
                AddScriptToEvaluateOnNewDocumentParamsView {
                    source,
                    world_name: None,
                    include_command_line_api: None,
                },
            ),
            reply,
        )
    }

    /// What is left of an operation once a user agent is set, and nothing with it.
    pub open spec fn sets_agent(self, user_agent: Seq<char>, reply: ReplyView) -> Prog<T> {
        self.sends(
            CommandView::SetUserAgentOverride(
                SetUserAgentOverrideParamsView {
                    user_agent,
                    accept_language: None,
                    platform: None,
                    user_agent_metadata: None,
                },
            ),
            reply,
        )
    }

    /// What is left of an operation once the scripts of stealth mode are added: `webdriver` is
    /// hidden, then permissions, plugins, the vendor of WebGL and `chrome` are changed.
    pub open spec fn hides(self, reply: ReplyView) -> Prog<T> {
        self.adds_script(HIDE_WEBDRIVER@, reply).adds_script(HIDE_PERMISSIONS@, reply).adds_script(
            HIDE_PLUGINS@,
            reply,
        ).adds_script(HIDE_WEBGL_VENDOR@, reply).adds_script(HIDE_CHROME@, reply)
    }
}

/// Stealth mode adds its five scripts, and then sets the user agent: its own, or the one that is
/// given, or none where the one that is given is empty.
pub proof fn stealth_mode_is_enabled(
    page: &Page,
    user_agent: &str,
    scripts: Step<Sequence, ()>,
    own_agent: Step<Sequence, ()>,
    with_agent: Step<Sequence, ()>,
    reply: ReplyView,
)
    requires
        call_ensures(Page::_enable_stealth_mode, (page,), scripts),
        call_ensures(Page::enable_stealth_mode, (page,), own_agent),
        call_ensures(Page::enable_stealth_mode_with_agent, (page, user_agent), with_agent),
    ensures
        remaining(scripts).hides(reply) == done(()),
        remaining(own_agent).hides(reply).sets_agent(STEALTH_USER_AGENT@, reply) == done(()),
        user_agent@.len() == 0 ==> remaining(with_agent).hides(reply) == done(()),
        user_agent@.len() > 0 ==> remaining(with_agent).hides(reply).sets_agent(user_agent@, reply)
            == done(()),
{
    reveal_with_fuel(sequence, 7);
}

/// Each script of stealth mode can be added alone.
pub proof fn each_script_hides(
    page: &Page,
    chrome: Step<Await<()>, ()>,
    webgl: Step<Await<()>, ()>,
    plugins: Step<Await<()>, ()>,
    permissions: Step<Await<()>, ()>,
    webdriver: Step<Await<()>, ()>,
    reply: ReplyView,
)
    requires
        call_ensures(Page::hide_chrome, (page,), chrome),
        call_ensures(Page::hide_webgl_vendor, (page,), webgl),
        call_ensures(Page::hide_plugins, (page,), plugins),
        call_ensures(Page::hide_permissions, (page,), permissions),
        call_ensures(Page::hide_webdriver, (page,), webdriver),
    ensures
        remaining(chrome).adds_script(HIDE_CHROME@, reply) == done(()),
        remaining(webgl).adds_script(HIDE_WEBGL_VENDOR@, reply) == done(()),
        remaining(plugins).adds_script(HIDE_PLUGINS@, reply) == done(()),
        remaining(permissions).adds_script(HIDE_PERMISSIONS@, reply) == done(()),
        remaining(webdriver).adds_script(HIDE_WEBDRIVER@, reply) == done(()),
{
}

/// Each script of spoofing can be added alone.
pub proof fn each_script_spoofs(
    page: &Page,
    webdriver: Step<Await<()>, ()>,
    chrome: Step<Await<()>, ()>,
    permissions: Step<Await<()>, ()>,
    plugins: Step<Await<()>, ()>,
    mime_types: Step<Await<()>, ()>,
    webgl: Step<Await<()>, ()>,
    reply: ReplyView,
)
    requires
        call_ensures(Page::spoof_webdriver, (page,), webdriver),
        call_ensures(Page::spoof_chrome, (page,), chrome),
        call_ensures(Page::spoof_permissions, (page,), permissions),
        call_ensures(Page::spoof_plugins, (page,), plugins),
        call_ensures(Page::spoof_mime_types, (page,), mime_types),
        call_ensures(Page::spoof_webgl, (page,), webgl),
    ensures
        remaining(webdriver).adds_script(SPOOF_WEBDRIVER@, reply) == done(()),
        remaining(chrome).adds_script(SPOOF_CHROME@, reply) == done(()),
        remaining(permissions).adds_script(SPOOF_PERMISSIONS@, reply) == done(()),
        remaining(plugins).adds_script(SPOOF_PLUGINS@, reply) == done(()),
        remaining(mime_types).adds_script(SPOOF_MIME_TYPES@, reply) == done(()),
        remaining(webgl).adds_script(SPOOF_WEBGL@, reply) == done(()),
{
}

/// The user agent that is put on is the one that the page reports, as JSON, but that it names a
/// browser with a window in place of one without, and a common platform in place of its own. An
/// exception is an error, and so is a page that reports none.
pub proof fn user_agent_is_disguised(
    page: &Page,
    step: Step<Chain<Evaluate, Disguise>, ()>,
    context: ExecutionContextId,
    returned: CallFunctionOnReturnsView,
    reported: Seq<char>,
    put_on: Seq<char>,
    reply: ReplyView,
)
    requires
        call_ensures(Page::spoof_user_agent, (page,), step),
    ensures
        ({
            let read = remaining(step).evaluates_text(
                "window.navigator.userAgent"@,
                context,
                returned,
            );
            &&& returned.exception_details is Some ==> read == fail::<()>(
                ErrorView::JavascriptException(returned.exception_details->0),
            )
            &&& returned.exception_details is None ==> {
                &&& returned.result.value is None ==> read == fail::<()>(
                    ErrorView::ChromeMessage("No user agent is set"@),
                )
                &&& (returned.result.value is Some && json_compact(returned.result.value->0)
                    is None) ==> read == fail::<()>(ErrorView::Serde)
                &&& ({
                    &&& returned.result.value is Some
                    &&& json_compact(returned.result.value->0) == Some(reported)
                    &&& regex_replaced(
                        "\\(([^)]+)\\)"@,
                        replaced(reported, "HeadlessChrome/"@, "Chrome/"@),
                        "(Windows NT 10.0; Win64; x64)"@,
                    ) == Some(put_on)
                }) ==> read.sets_agent(put_on, reply) == done(())
            }
        }),
{
    reveal_with_fuel(bind, 7);
}

/// Spoofing adds four scripts, disguises the user agent, and adds two more.
pub proof fn spoofing_is_enabled(
    page: &Page,
    step: Step<Chain<Sequence, SpoofAgent>, ()>,
    context: ExecutionContextId,
    returned: CallFunctionOnReturnsView,
    reported: Seq<char>,
    put_on: Seq<char>,
    reply: ReplyView,
)
    requires
        call_ensures(Page::enable_spoofing, (page,), step),
        returned.exception_details is None,
        returned.result.value is Some,
        json_compact(returned.result.value->0) == Some(reported),
        regex_replaced(
            "\\(([^)]+)\\)"@,
            replaced(reported, "HeadlessChrome/"@, "Chrome/"@),
            "(Windows NT 10.0; Win64; x64)"@,
        ) == Some(put_on),
    ensures
        remaining(step).adds_script(SPOOF_CHROME@, reply).adds_script(
            SPOOF_PERMISSIONS@,
            reply,
        ).adds_script(SPOOF_PLUGINS@, reply).adds_script(SPOOF_MIME_TYPES@, reply).evaluates_text(
            "window.navigator.userAgent"@,
            context,
            returned,
        ).sets_agent(put_on, reply).adds_script(SPOOF_WEBDRIVER@, reply).adds_script(
            SPOOF_WEBGL@,
            reply,
        ) == done(()),
{
    reveal_with_fuel(bind, 9);
    reveal_with_fuel(sequence, 5);
}

} // verus!
