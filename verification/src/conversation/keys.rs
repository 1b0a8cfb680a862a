//! Keys that are typed.
use vstd::prelude::*;

use crate::cdp::command::CommandView;
use crate::cdp::input::{DispatchKeyEventParams, DispatchKeyEventParamsView, DispatchKeyEventType};
use crate::element::Element;
use crate::flow::{bind, done, remaining, same_is_equal, Await, Chain, Prog, Step};
use crate::handler::page::{
    each_character, key_commands, keys_op, release_commands, PageInner, PressTogether,
    ReleaseTogether, Typing,
};
use crate::protocol::{ReplyView, RequestView};

verus! {

/// The event that releases a key that another event presses: all but what the key does is as
/// it is there.
pub open spec fn release_of(event: DispatchKeyEventParamsView) -> DispatchKeyEventParamsView {
    DispatchKeyEventParamsView {
        kind: DispatchKeyEventType::KeyUp,
        modifiers: event.modifiers,
        text: event.text,
        unmodified_text: event.unmodified_text,
        code: event.code,
        key: event.key,
        windows_virtual_key_code: event.windows_virtual_key_code,
        native_virtual_key_code: event.native_virtual_key_code,
        location: event.location,
    }
}

impl Prog<()> {
    /// What is left of an operation once it has typed a key: it looks the key up and sends the
    /// event that presses it, then looks it up again and sends the event that releases it.
    pub open spec fn types(
        self,
        key: Seq<char>,
        event: DispatchKeyEventParamsView,
        pressed: ReplyView,
        again: DispatchKeyEventParamsView,
        released: ReplyView,
    ) -> Prog<()> {
        self.asks(RequestView::KeyEvent { key }, ReplyView::KeyEvent(event)).sends(
            CommandView::DispatchKeyEvent(event),
            pressed,
        ).asks(RequestView::KeyEvent { key }, ReplyView::KeyEvent(again)).sends(
            CommandView::DispatchKeyEvent(release_of(again)),
            released,
        )
    }
}

/// A key that is pressed is pressed and released, on the session and on an element alike.
pub proof fn key_is_pressed_and_released(
    tab: &PageInner,
    element: &Element,
    key: String,
    of_tab: Step<Typing, ()>,
    of_element: Step<Typing, ()>,
    event: DispatchKeyEventParamsView,
    pressed: ReplyView,
    again: DispatchKeyEventParamsView,
    released: ReplyView,
)
    requires
        call_ensures(PageInner::press_key, (tab, key), of_tab),
        call_ensures(Element::press_key, (element, tab, key), of_element),
    ensures
        remaining(of_tab).types(key@, event, pressed, again, released) == done(()),
        remaining(of_element) == remaining(of_tab),
{
    broadcast use same_is_equal;

    reveal_with_fuel(bind, 6);
    reveal_with_fuel(keys_op, 3);
    assert(seq![key@].skip(1).len() == 0);
}

/// A text is typed one character at a time: the key of its first character is typed, and what
/// is left is to type the rest. An empty text is typed by doing nothing.
pub proof fn text_is_typed_by_characters(
    tab: &PageInner,
    element: &Element,
    text: &str,
    rest: &str,
    of_tab: Step<Typing, ()>,
    of_element: Step<Typing, ()>,
    of_rest: Step<Typing, ()>,
    event: DispatchKeyEventParamsView,
    pressed: ReplyView,
    again: DispatchKeyEventParamsView,
    released: ReplyView,
)
    requires
        call_ensures(PageInner::type_str, (tab, text), of_tab),
        call_ensures(Element::type_str, (element, tab, text), of_element),
        call_ensures(PageInner::type_str, (tab, rest), of_rest),
        text@.len() > 0 ==> rest@ == text@.skip(1),
    ensures
        text@.len() == 0 ==> remaining(of_tab) == done(()),
        text@.len() > 0 ==> remaining(of_tab).types(
            seq![text@[0]],
            event,
            pressed,
            again,
            released,
        ) == remaining(of_rest),
        remaining(of_element) == remaining(of_tab),
{
    broadcast use same_is_equal;

    reveal_with_fuel(bind, 6);
    reveal_with_fuel(keys_op, 3);
    if text@.len() > 0 {
        assert(each_character(text@).skip(1) =~= each_character(rest@));
        assert(each_character(text@)[0] =~= seq![text@[0]]);
    }
}

/// Keys that are pressed together are looked up together, and for each of them the event that
/// presses it is sent, side by side.
pub proof fn keys_are_pressed_together(
    tab: &PageInner,
    keys: Vec<String>,
    step: Step<Chain<Await<Vec<DispatchKeyEventParams>>, PressTogether>, ()>,
    events: Seq<DispatchKeyEventParamsView>,
    pressed: ReplyView,
)
    requires
        call_ensures(PageInner::keys_down, (tab, keys), step),
    ensures
        remaining(step).asks(
            RequestView::KeyEvents { keys: Seq::new(keys@.len(), |i: int| keys@[i]@) },
            ReplyView::KeyEvents(events),
        ).asks(
            RequestView::Batch {
                commands: Seq::new(
                    events.len(),
                    |i: int| CommandView::DispatchKeyEvent(events[i]),
                ),
                at_once: None,
            },
            pressed,
        ) == done(()),
{
    assert(keys.deep_view() =~= Seq::new(keys@.len(), |i: int| keys@[i]@));
    assert(key_commands(events) =~= Seq::new(
        events.len(),
        |i: int| CommandView::DispatchKeyEvent(events[i]),
    ));
    reveal_with_fuel(bind, 3);
}

/// Keys that are released together are looked up together, and for each of them the event that
/// releases it is sent, side by side.
pub proof fn keys_are_released_together(
    tab: &PageInner,
    keys: Vec<String>,
    step: Step<Chain<Await<Vec<DispatchKeyEventParams>>, ReleaseTogether>, ()>,
    events: Seq<DispatchKeyEventParamsView>,
    released: ReplyView,
)
    requires
        call_ensures(PageInner::keys_up, (tab, keys), step),
    ensures
        remaining(step).asks(
            RequestView::KeyEvents { keys: Seq::new(keys@.len(), |i: int| keys@[i]@) },
            ReplyView::KeyEvents(events),
        ).asks(
            RequestView::Batch {
                commands: Seq::new(
                    events.len(),
                    |i: int| CommandView::DispatchKeyEvent(release_of(events[i])),
                ),
                at_once: None,
            },
            released,
        ) == done(()),
{
    assert(keys.deep_view() =~= Seq::new(keys@.len(), |i: int| keys@[i]@));
    assert(release_commands(events) =~= Seq::new(
        events.len(),
        |i: int| CommandView::DispatchKeyEvent(release_of(events[i])),
    ));
    reveal_with_fuel(bind, 3);
}

} // verus!
