//! Operations that talk to a browser.
//!
//! An operation runs in steps: it asks for something ([`Request`]), waits, and goes on
//! with the answer ([`Reply`]). A [`Prog`] says all that an operation asks for and how
//! it ends, whatever the answers are. A [`Step`] is one step of an operation that runs,
//! and a [`Flow`] is what is left of the operation while it waits.
use vstd::prelude::*;

use crate::cdp::command::{Command, CommandView};
use crate::error::{CdpError, ErrorView};
use crate::protocol::{Reply, ReplyView, Request, RequestView};

verus! {

/// What an operation does.
#[verifier::reject_recursive_types(T)]
pub enum Prog<T> {
    /// It has ended.
    Done(Result<T, ErrorView>),
    /// It gives up: the answer is none that the request can have, or one that no
    /// caller is meant to survive.
    Abort,
    /// It asks for something and goes on with the answer. Where the request fails, it
    /// ends with that error.
    Ask(RequestView, spec_fn(ReplyView) -> Prog<T>),
}

/// One operation after another. The second starts with the result of the first, and
/// only where the first succeeds.
pub open spec fn bind<T, U>(first: Prog<T>, second: spec_fn(T) -> Prog<U>) -> Prog<U>
    decreases first,
{
    match first {
        Prog::Done(Ok(t)) => second(t),
        Prog::Done(Err(error)) => Prog::Done(Err(error)),
        Prog::Abort => Prog::Abort,
        Prog::Ask(request, rest) => Prog::Ask(
            request,
            |reply: ReplyView| bind(rest(reply), second),
        ),
    }
}

/// The operation that ends at once, with a result.
pub open spec fn done<T>(result: T) -> Prog<T> {
    Prog::Done(Ok(result))
}

/// The operation that ends at once, with an error.
pub open spec fn fail<T>(error: ErrorView) -> Prog<T> {
    Prog::Done(Err(error))
}

/// The operation that ends with what was read of an answer, or gives up where nothing
/// could be read.
pub open spec fn read<T>(contents: Option<T>) -> Prog<T> {
    match contents {
        Some(t) => Prog::Done(Ok(t)),
        None => Prog::Abort,
    }
}

/// What an operation does once its request is answered.
pub open spec fn answered<T>(prog: Prog<T>, answer: Result<ReplyView, ErrorView>) -> Prog<T> {
    match prog {
        Prog::Ask(_, rest) => match answer {
            Ok(reply) => rest(reply),
            Err(error) => Prog::Done(Err(error)),
        },
        _ => prog,
    }
}

/// Whether two operations do the same.
pub open spec fn same<T>(p: Prog<T>, q: Prog<T>) -> bool {
    match (p, q) {
        (Prog::Ask(r, k), Prog::Ask(s, l)) => {
            &&& r == s
            &&& forall|reply: ReplyView|
                #![trigger k(reply)]
                #![trigger l(reply)]
                k(reply) == l(reply)
        },
        _ => p == q,
    }
}

/// Operations that do the same are equal.
pub broadcast proof fn same_is_equal<T>(p: Prog<T>, q: Prog<T>)
    ensures
        #[trigger] same(p, q) <==> p == q,
{
    if same(p, q) && p is Ask && q is Ask {
        assert(p->Ask_1 =~= q->Ask_1);
    }
}

/// One step of an operation that runs.
pub enum Step<F, T> {
    /// Carry the request out and hand the answer to the flow.
    Ask(Request, F),
    /// The operation has ended.
    Done(Result<T, CdpError>),
    /// The operation gives up.
    Abort,
}

/// The contents of a result.
pub open spec fn result_view<T: DeepView>(result: Result<T, CdpError>) -> Result<T::V, ErrorView> {
    match result {
        Ok(t) => Ok(t.deep_view()),
        Err(error) => Err(error.deep_view()),
    }
}

/// What is left of an operation while it waits for an answer.
pub trait Suspended: Sized {
    /// What the operation yields where it succeeds.
    type Output: DeepView;

    /// What it does once it is answered.
    spec fn after(self, reply: ReplyView) -> Prog<<Self::Output as DeepView>::V>;
}

/// What an operation does, this step included.
pub open spec fn remaining<F: Suspended>(step: Step<F, F::Output>) -> Prog<
    <F::Output as DeepView>::V,
> {
    match step {
        Step::Ask(request, flow) => Prog::Ask(
            request.deep_view(),
            |reply: ReplyView| flow.after(reply),
        ),
        Step::Done(result) => Prog::Done(result_view(result)),
        Step::Abort => Prog::Abort,
    }
}

/// Whether a step, and all that comes after it, is what `prog` says.
pub open spec fn follows<F: Suspended>(
    step: Step<F, F::Output>,
    prog: Prog<<F::Output as DeepView>::V>,
) -> bool {
    same(remaining(step), prog)
}

/// An operation that can be taken up again.
pub trait Flow: Suspended {
    /// Goes on with the reply.
    fn resume(self, reply: Reply) -> (step: Step<Self, Self::Output>)
        ensures
            follows(step, self.after(reply.deep_view())),
    ;
}

/// The contents of an answer.
pub open spec fn answer_view(answer: Result<Reply, CdpError>) -> Result<ReplyView, ErrorView> {
    match answer {
        Ok(reply) => Ok(reply.deep_view()),
        Err(error) => Err(error.deep_view()),
    }
}

/// Goes on with the answer to a request. An error ends the operation.
pub fn proceed<F: Flow>(request: Request, flow: F, answer: Result<Reply, CdpError>) -> (step: Step<
    F,
    F::Output,
>)
    ensures
        follows(
            step,
            answered(remaining(Step::<F, F::Output>::Ask(request, flow)), answer_view(answer)),
        ),
        answer matches Err(error) ==> step == Step::<F, F::Output>::Done(Err(error)),
{
    match answer {
        Ok(reply) => flow.resume(reply),
        Err(error) => Step::Done(Err(error)),
    }
}

/// What can be read of a reply.
pub trait FromReply: DeepView + Sized {
    /// What the reply holds of this type, if anything.
    spec fn found_in(reply: ReplyView) -> Option<Self::V>;

    /// Takes it out of the reply.
    fn from_reply(reply: Reply) -> (contents: Option<Self>)
        ensures
            contents.deep_view() == Self::found_in(reply.deep_view()),
    ;
}

/// A request whose answer is all that the operation yields.
pub struct Await<T> {
    pub answer: core::marker::PhantomData<T>,
}

impl<T: FromReply> Suspended for Await<T> {
    type Output = T;

    open spec fn after(self, reply: ReplyView) -> Prog<T::V> {
        read(T::found_in(reply))
    }
}

impl<T: FromReply> Flow for Await<T> {
    fn resume(self, reply: Reply) -> (step: Step<Self, T>) {
        match T::from_reply(reply) {
            Some(contents) => Step::Done(Ok(contents)),
            None => Step::Abort,
        }
    }
}

/// The operation that makes a request and yields the answer.
pub open spec fn ask<T: FromReply>(request: RequestView) -> Prog<T::V> {
    Prog::Ask(request, |reply: ReplyView| read(T::found_in(reply)))
}

/// The operation that sends a command and yields the response.
pub open spec fn execute<T: FromReply>(command: CommandView) -> Prog<T::V> {
    ask::<T>(RequestView::Command(command))
}

/// Makes a request and yields the answer.
pub fn asking<T: FromReply>(request: Request) -> (step: Step<Await<T>, T>)
    ensures
        follows(step, ask::<T>(request.deep_view())),
{
    Step::Ask(request, Await { answer: core::marker::PhantomData })
}

/// Sends a command and yields the response.
pub fn executing<T: FromReply>(command: Command) -> (step: Step<Await<T>, T>)
    ensures
        follows(step, execute::<T>(command.deep_view())),
{
    asking(Request::Command(command))
}

/// What is left of an operation that never waits.
pub struct Ended<T> {
    pub result: core::marker::PhantomData<T>,
}

impl<T: DeepView> Suspended for Ended<T> {
    type Output = T;

    open spec fn after(self, reply: ReplyView) -> Prog<T::V> {
        Prog::Abort
    }
}

impl<T: DeepView> Flow for Ended<T> {
    fn resume(self, reply: Reply) -> (step: Step<Self, T>) {
        Step::Abort
    }
}

/// What comes after an operation.
pub trait Next: Sized {
    /// What the operation before yields.
    type Input: DeepView;

    /// The operation that comes after it.
    type Rest: Suspended;

    /// What the operation that comes after it does.
    spec fn next(self, input: <Self::Input as DeepView>::V) -> Prog<
        <<Self::Rest as Suspended>::Output as DeepView>::V,
    >;
}

/// Starts what comes after an operation.
pub trait Start: Next {
    /// Starts it.
    fn start(self, input: Self::Input) -> (step: Step<
        Self::Rest,
        <Self::Rest as Suspended>::Output,
    >)
        ensures
            follows(step, self.next(input.deep_view())),
    ;
}

/// One operation after another, with the next step of either.
pub enum Chain<F, N: Next> {
    First(F, N),
    Second(N::Rest),
}

impl<F: Suspended<Output = N::Input>, N: Next> Suspended for Chain<F, N> {
    type Output = <N::Rest as Suspended>::Output;

    open spec fn after(self, reply: ReplyView) -> Prog<<Self::Output as DeepView>::V> {
        match self {
            Chain::First(first, next) => bind(
                first.after(reply),
                |input: <N::Input as DeepView>::V| next.next(input),
            ),
            Chain::Second(rest) => rest.after(reply),
        }
    }
}

/// Puts one operation after another.
pub fn chain<F: Suspended<Output = N::Input>, N: Start>(
    step: Step<F, F::Output>,
    next: N,
) -> (chained: Step<Chain<F, N>, <N::Rest as Suspended>::Output>)
    ensures
        forall|second: spec_fn(<N::Input as DeepView>::V) -> Prog<
            <<N::Rest as Suspended>::Output as DeepView>::V,
        >|
            (forall|input: <N::Input as DeepView>::V| #[trigger]
                second(input) == next.next(input)) ==> follows(
                chained,
                #[trigger] bind(remaining(step), second),
            ),
        step matches Step::Done(Err(error)) ==> chained == Step::<
            Chain<F, N>,
            <N::Rest as Suspended>::Output,
        >::Done(Err(error)),
{
    broadcast use same_is_equal;

    proof {
        let then_next = |input: <N::Input as DeepView>::V| next.next(input);
        assert forall|second: spec_fn(<N::Input as DeepView>::V) -> Prog<
            <<N::Rest as Suspended>::Output as DeepView>::V,
        >|
            (forall|input: <N::Input as DeepView>::V| #[trigger]
                second(input) == next.next(input)) implies #[trigger] bind(remaining(step), second)
            == bind(remaining(step), then_next) by {
            assert(second =~= then_next);
        }
    }
    match step {
        Step::Ask(request, flow) => Step::Ask(request, Chain::First(flow, next)),
        Step::Done(Ok(input)) => second(next.start(input)),
        Step::Done(Err(error)) => Step::Done(Err(error)),
        Step::Abort => Step::Abort,
    }
}

/// Takes a step of the second of two operations.
pub fn second<F: Suspended<Output = N::Input>, N: Next>(
    step: Step<N::Rest, <N::Rest as Suspended>::Output>,
) -> (chained: Step<Chain<F, N>, <N::Rest as Suspended>::Output>)
    ensures
        remaining(chained) == remaining(step),
        step matches Step::Done(result) ==> chained == Step::<
            Chain<F, N>,
            <N::Rest as Suspended>::Output,
        >::Done(result),
{
    broadcast use same_is_equal;

    let chained = match step {
        Step::Ask(request, rest) => Step::Ask(request, Chain::Second(rest)),
        Step::Done(result) => Step::Done(result),
        Step::Abort => Step::Abort,
    };
    assert(same(remaining::<Chain<F, N>>(chained), remaining(step)));
    chained
}

impl<F: Flow<Output = N::Input>, N: Start> Flow for Chain<F, N> where N::Rest: Flow {
    fn resume(self, reply: Reply) -> (step: Step<Self, Self::Output>) {
        broadcast use same_is_equal;

        match self {
            Chain::First(first, next) => {
                let ghost then_next = |input: <N::Input as DeepView>::V| next.next(input);
                let step = first.resume(reply);
                assert(bind(remaining(step), then_next) == self.after(reply.deep_view()));
                chain(step, next)
            },
            Chain::Second(rest) => second(rest.resume(reply)),
        }
    }
}

impl FromReply for () {
    open spec fn found_in(reply: ReplyView) -> Option<()> {
        Some(())
    }

    fn from_reply(reply: Reply) -> (contents: Option<()>) {
        Some(())
    }
}

} // verus!
