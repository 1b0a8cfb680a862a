//! Requests made one after the other.
use vstd::prelude::*;

use crate::flow::{ask, bind, done, follows, same, same_is_equal, Flow, Prog, Step, Suspended};
use crate::laws::only_asks;
use crate::protocol::{Reply, ReplyView, Request, RequestView};

verus! {

/// The operation that makes requests one after the other and reads nothing of the
/// answers.
pub open spec fn sequence(requests: Seq<RequestView>) -> Prog<()>
    decreases requests.len(),
{
    if requests.len() == 0 {
        done(())
    } else {
        Prog::Ask(requests[0], |reply: ReplyView| sequence(requests.skip(1)))
    }
}

/// The requests that are left to make.
pub struct Sequence {
    pub rest: Vec<Request>,
}

impl Suspended for Sequence {
    type Output = ();

    open spec fn after(self, reply: ReplyView) -> Prog<()> {
        sequence(self.rest.deep_view())
    }
}

impl Flow for Sequence {
    fn resume(self, reply: Reply) -> (step: Step<Sequence, ()>) {
        in_sequence(self.rest)
    }
}

/// Makes requests one after the other.
pub fn in_sequence(requests: Vec<Request>) -> (step: Step<Sequence, ()>)
    ensures
        follows(step, sequence(requests.deep_view())),
{
    let mut rest = requests;
    if rest.len() == 0 {
        Step::Done(Ok(()))
    } else {
        let first = rest.remove(0);
        assert(rest.deep_view() =~= requests.deep_view().skip(1));
        Step::Ask(first, Sequence { rest })
    }
}

/// Requests in sequence are those of a first part, then those of the rest.
pub proof fn sequence_splits(first: Seq<RequestView>, second: Seq<RequestView>)
    ensures
        sequence(first + second) == bind(sequence(first), |u: ()| sequence(second)),
    decreases first.len(),
{
    broadcast use same_is_equal;

    if first.len() == 0 {
        assert(first + second =~= second);
    } else {
        sequence_splits(first.skip(1), second);
        assert((first + second).skip(1) =~= first.skip(1) + second);
        assert(same(
            sequence(first + second),
            bind(sequence(first), |u: ()| sequence(second)),
        ));
    }
}

/// A sequence of one request is that request.
pub proof fn one_request(request: RequestView)
    ensures
        sequence(seq![request]) == ask::<()>(request),
{
    broadcast use same_is_equal;

    reveal_with_fuel(sequence, 2);
    assert(same(sequence(seq![request]), ask::<()>(request)));
}

/// A sequence of requests is the first request, then the rest.
pub proof fn request_then_rest(requests: Seq<RequestView>)
    requires
        requests.len() > 0,
    ensures
        sequence(requests) == bind(
            ask::<()>(requests[0]),
            |u: ()| sequence(requests.skip(1)),
        ),
{
    let first = seq![requests[0]];
    sequence_splits(first, requests.skip(1));
    assert(first + requests.skip(1) =~= requests);
    one_request(requests[0]);
}

/// A sequence of allowed requests makes allowed requests only.
pub proof fn sequence_only_asks(
    requests: Seq<RequestView>,
    allowed: spec_fn(RequestView) -> bool,
)
    requires
        forall|i: int| 0 <= i < requests.len() ==> allowed(#[trigger] requests[i]),
    ensures
        only_asks(sequence(requests), allowed),
    decreases requests.len(),
{
    if requests.len() > 0 {
        sequence_only_asks(requests.skip(1), allowed);
    }
}

} // verus!
