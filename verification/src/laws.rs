//! What can be said of operations as a whole, whatever the answers are.
use vstd::prelude::*;

use crate::cdp::command::CommandView;
use crate::error::{CdpError, ErrorView};
use crate::flow::{
    answered, bind, done, fail, proceed, remaining, same, same_is_equal, Flow, Prog, Step,
};
use crate::protocol::{Reply, ReplyView, Request, RequestView};

verus! {

/// Whether an operation makes allowed requests only.
pub open spec fn only_asks<T>(prog: Prog<T>, allowed: spec_fn(RequestView) -> bool) -> bool
    decreases prog,
{
    match prog {
        Prog::Ask(request, rest) => {
            &&& allowed(request)
            &&& forall|reply: ReplyView| only_asks(#[trigger] rest(reply), allowed)
        },
        _ => true,
    }
}

/// Whether an operation makes no request of the second kind before one of the first.
pub open spec fn asks_first<T>(
    prog: Prog<T>,
    first: spec_fn(RequestView) -> bool,
    second: spec_fn(RequestView) -> bool,
) -> bool
    decreases prog,
{
    match prog {
        Prog::Ask(request, rest) => {
            ||| first(request)
            ||| !second(request) && forall|reply: ReplyView|
                asks_first(#[trigger] rest(reply), first, second)
        },
        _ => true,
    }
}

/// Whether, where an operation succeeds, the last request of a kind is the given one.
/// `reached` says whether it is before the operation starts.
pub open spec fn leaves<T>(
    prog: Prog<T>,
    kind: spec_fn(RequestView) -> bool,
    last: RequestView,
    reached: bool,
) -> bool
    decreases prog,
{
    match prog {
        Prog::Done(Ok(_)) => reached,
        Prog::Done(Err(_)) => true,
        Prog::Abort => true,
        Prog::Ask(request, rest) => forall|reply: ReplyView|
            leaves(
                #[trigger] rest(reply),
                kind,
                last,
                if kind(request) {
                    request == last
                } else {
                    reached
                },
            ),
    }
}

/// Whether all that an operation can yield has a property.
pub open spec fn yields<T>(prog: Prog<T>, property: spec_fn(T) -> bool) -> bool
    decreases prog,
{
    match prog {
        Prog::Done(Ok(t)) => property(t),
        Prog::Ask(_, rest) => forall|reply: ReplyView| yields(#[trigger] rest(reply), property),
        _ => true,
    }
}

impl<T> Prog<T> {
    /// What is left of an operation once it has made a request and got a reply. An operation
    /// that does not make that request is given up.
    pub open spec fn asks(self, request: RequestView, reply: ReplyView) -> Prog<T> {
        match self {
            Prog::Ask(asked, rest) => if asked == request {
                rest(reply)
            } else {
                Prog::Abort
            },
            _ => Prog::Abort,
        }
    }

    /// What is left of an operation once it has sent a command and got a reply. An operation
    /// that does not send that command is given up.
    pub open spec fn sends(self, command: CommandView, reply: ReplyView) -> Prog<T> {
        self.asks(RequestView::Command(command), reply)
    }
}

/// What is left of an operation that runs, once it is handed a reply, is what was left of it
/// after its request and that reply.
pub proof fn running_is_a_conversation<F: Flow>(
    request: Request,
    flow: F,
    reply: Reply,
    next: Step<F, F::Output>,
)
    requires
        call_ensures(proceed::<F>, (request, flow, Ok(reply)), next),
    ensures
        remaining(next) == remaining(Step::<F, F::Output>::Ask(request, flow)).asks(
            request.deep_view(),
            reply.deep_view(),
        ),
{
    broadcast use same_is_equal;

}

/// An operation that runs, and whose request fails, ends with the very error of the request.
pub proof fn running_ends_with_an_error<F: Flow>(
    request: Request,
    flow: F,
    error: CdpError,
    next: Step<F, F::Output>,
)
    requires
        call_ensures(proceed::<F>, (request, flow, Err(error)), next),
    ensures
        next is Done,
        next->Done_0 is Err,
        next->Done_0->Err_0 == error,
{
}

/// An error is final: an operation whose request fails ends with that error.
pub proof fn error_is_final<T>(prog: Prog<T>, error: ErrorView)
    requires
        prog is Ask,
    ensures
        answered(prog, Err(error)) == fail::<T>(error),
{
}

/// What is left of an operation after a number of replies.
pub open spec fn after_replies<T>(
    prog: Prog<T>,
    replies: spec_fn(nat) -> ReplyView,
    count: nat,
) -> Prog<T>
    decreases count,
{
    if count == 0 {
        prog
    } else {
        match prog {
            Prog::Ask(_, rest) => after_replies(
                rest(replies(0)),
                |i: nat| replies(i + 1),
                (count - 1) as nat,
            ),
            _ => prog,
        }
    }
}

/// Every operation ends: whatever the replies are, after some number of them it asks for
/// nothing more.
pub proof fn every_operation_ends<T>(prog: Prog<T>, replies: spec_fn(nat) -> ReplyView)
    ensures
        exists|count: nat| !(#[trigger] after_replies(prog, replies, count) is Ask),
    decreases prog,
{
    match prog {
        Prog::Ask(_, rest) => {
            let next = rest(replies(0));
            let later = |i: nat| replies(i + 1);
            every_operation_ends(next, later);
            let count = choose|count: nat| !(#[trigger] after_replies(next, later, count) is Ask);
            assert(after_replies(prog, replies, count + 1) == after_replies(next, later, count));
        },
        _ => {
            assert(!(after_replies(prog, replies, 0) is Ask));
        },
    }
}

/// Of two operations that come after each other, the first gets the answers until it has
/// ended.
pub proof fn first_is_answered<T, U>(
    first: Prog<T>,
    second: spec_fn(T) -> Prog<U>,
    answer: Result<ReplyView, ErrorView>,
)
    requires
        first is Ask,
    ensures
        answered(bind(first, second), answer) == bind(answered(first, answer), second),
{
    reveal_with_fuel(bind, 2);
}

/// It does not matter how operations that come after each other are grouped.
pub proof fn bind_is_associative<T, U, V>(
    first: Prog<T>,
    second: spec_fn(T) -> Prog<U>,
    third: spec_fn(U) -> Prog<V>,
)
    ensures
        bind(bind(first, second), third) == bind(first, |t: T| bind(second(t), third)),
    decreases first,
{
    broadcast use same_is_equal;

    let both = |t: T| bind(second(t), third);
    if let Prog::Ask(request, rest) = first {
        assert forall|reply: ReplyView|
            bind(bind(#[trigger] rest(reply), second), third) == bind(rest(reply), both) by {
            bind_is_associative(rest(reply), second, third);
        }
        assert(same(bind(bind(first, second), third), bind(first, both)));
    }
}

/// An operation, followed by one that yields what it is given, is that operation.
pub proof fn done_changes_nothing<T>(prog: Prog<T>)
    ensures
        bind(prog, |t: T| done(t)) == prog,
    decreases prog,
{
    broadcast use same_is_equal;

    let end = |t: T| done(t);
    if let Prog::Ask(request, rest) = prog {
        assert forall|reply: ReplyView| bind(#[trigger] rest(reply), end) == rest(reply) by {
            done_changes_nothing(rest(reply));
        }
        assert(same(bind(prog, end), prog));
    }
}

/// Operations that make allowed requests only make allowed requests only, one after the
/// other.
pub proof fn bind_only_asks<T, U>(
    first: Prog<T>,
    second: spec_fn(T) -> Prog<U>,
    allowed: spec_fn(RequestView) -> bool,
)
    requires
        only_asks(first, allowed),
        forall|t: T| only_asks(#[trigger] second(t), allowed),
    ensures
        only_asks(bind(first, second), allowed),
    decreases first,
{
    if let Prog::Ask(request, rest) = first {
        assert forall|reply: ReplyView|
            only_asks(bind(#[trigger] rest(reply), second), allowed) by {
            bind_only_asks(rest(reply), second, allowed);
        }
    }
}

/// What an operation leaves it leaves wherever it starts.
proof fn leaves_wherever<T>(
    prog: Prog<T>,
    kind: spec_fn(RequestView) -> bool,
    last: RequestView,
    reached: bool,
)
    requires
        leaves(prog, kind, last, false),
    ensures
        leaves(prog, kind, last, reached),
    decreases prog,
{
    if let Prog::Ask(request, rest) = prog {
        if !kind(request) {
            assert forall|reply: ReplyView| leaves(#[trigger] rest(reply), kind, last, reached) by {
                leaves_wherever(rest(reply), kind, last, reached);
            }
        }
    }
}

/// What an operation leaves does not depend on what comes before it, where it decides
/// that itself.
pub proof fn bind_leaves<T, U>(
    before: Prog<T>,
    after: spec_fn(T) -> Prog<U>,
    kind: spec_fn(RequestView) -> bool,
    last: RequestView,
    reached: bool,
)
    requires
        forall|t: T| leaves(#[trigger] after(t), kind, last, false),
    ensures
        leaves(bind(before, after), kind, last, reached),
    decreases before,
{
    match before {
        Prog::Ask(request, rest) => {
            let now = if kind(request) {
                request == last
            } else {
                reached
            };
            assert forall|reply: ReplyView|
                leaves(bind(#[trigger] rest(reply), after), kind, last, now) by {
                bind_leaves(rest(reply), after, kind, last, now);
            }
        },
        Prog::Done(Ok(t)) => {
            leaves_wherever(after(t), kind, last, reached);
        },
        _ => {},
    }
}

/// What comes last decides what is yielded.
pub proof fn bind_yields<T, U>(
    first: Prog<T>,
    second: spec_fn(T) -> Prog<U>,
    property: spec_fn(U) -> bool,
)
    requires
        forall|t: T| yields(#[trigger] second(t), property),
    ensures
        yields(bind(first, second), property),
    decreases first,
{
    if let Prog::Ask(request, rest) = first {
        assert forall|reply: ReplyView| yields(bind(#[trigger] rest(reply), second), property) by {
            bind_yields(rest(reply), second, property);
        }
    }
}

/// An order is kept where it is kept after requests that it does not speak of.
pub proof fn bind_asks_first<T, U>(
    before: Prog<T>,
    after: spec_fn(T) -> Prog<U>,
    first: spec_fn(RequestView) -> bool,
    second: spec_fn(RequestView) -> bool,
)
    requires
        only_asks(before, |request: RequestView| !second(request)),
        forall|t: T| asks_first(#[trigger] after(t), first, second),
    ensures
        asks_first(bind(before, after), first, second),
    decreases before,
{
    if let Prog::Ask(request, rest) = before {
        assert forall|reply: ReplyView|
            asks_first(bind(#[trigger] rest(reply), after), first, second) by {
            bind_asks_first(rest(reply), after, first, second);
        }
    }
}

/// Whether a request scrolls.
pub open spec fn scrolls(request: RequestView) -> bool {
    request matches RequestView::Command(command) && command is ScrollIntoViewIfNeeded
}

/// Whether a request uses the mouse or moves the focus.
pub open spec fn points(request: RequestView) -> bool {
    request matches RequestView::Command(command) && (command is DispatchMouseEvent
        || command is Focus)
}

} // verus!
