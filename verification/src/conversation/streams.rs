//! Streams of attributes.
use vstd::prelude::*;

use crate::cdp::command::CommandView;
use crate::cdp::runtime::{CallFunctionOnParamsView, CallFunctionOnReturnsView};
use crate::element::{AttributeStream, NextAttribute};
use crate::error::{CdpError, ErrorView};
use crate::flow::{bind, done, fail, remaining};
use crate::json::json_optional_string;
use crate::protocol::ReplyView;

verus! {

/// A poll of a stream that looks nothing up takes the last attribute that is left and has it
/// read of the element, as a script reads it. A poll of one that looks an attribute up changes
/// nothing, and so does a poll of one that has nothing left.
pub proof fn poll_looks_up_the_last(returned: CallFunctionOnReturnsView)
    ensures
        forall|stream: &mut AttributeStream, next: NextAttribute| #[trigger]
            call_ensures(AttributeStream::poll_next, (stream,), next) ==> {
                let before = *stream;
                let after = *final(stream);
                &&& next is Wait <==> before.lookup is Some
                &&& next is End <==> before.lookup is None && before.attributes@.len() == 0
                &&& after.remote_object_id.0@ == before.remote_object_id.0@
                &&& !(next is Read) ==> after == before
                &&& next matches NextAttribute::Read(step) ==> {
                    let name = before.attributes@[before.attributes@.len() - 1];
                    let value = returned.result.value;
                    &&& after.lookup == Some(name)
                    &&& after.attributes@.push(name) == before.attributes@
                    &&& remaining(step).sends(
                        CommandView::CallFunctionOn(
                            CallFunctionOnParamsView {
                                function_declaration: "function() { return this.getAttribute('"@
                                    + name@ + "'); }"@,
                                object_id: Some(before.remote_object_id.0@),
                                arguments: None,
                                silent: None,
                                return_by_value: None,
                                generate_preview: Some(true),
                                user_gesture: None,
                                await_promise: Some(false),
                                execution_context_id: None,
                                object_group: None,
                                throw_on_side_effect: None,
                                unique_context_id: None,
                                serialization_options: None,
                            },
                        ),
                        ReplyView::Evaluated(returned),
                    ) == if value is None {
                        done(None)
                    } else if json_optional_string(value->0) is Some {
                        done(json_optional_string(value->0)->0)
                    } else {
                        fail(ErrorView::Serde)
                    }
                }
            },
{
    reveal_with_fuel(bind, 2);
    assert forall|stream: &mut AttributeStream, next: NextAttribute| #[trigger]
        call_ensures(AttributeStream::poll_next, (stream,), next) implies {
        let before = *stream;
        let after = *final(stream);
        &&& after.remote_object_id.0@ == before.remote_object_id.0@
        &&& next is Read ==> after.attributes@.push(
            before.attributes@[before.attributes@.len() - 1],
        ) == before.attributes@
    } by {
        let before = *stream;
        let after = *final(stream);
        assert(after.deep_view().remote_object_id == before.deep_view().remote_object_id);
        if next is Read {
            assert(after.attributes@.push(before.attributes@[before.attributes@.len() - 1])
                =~= before.attributes@);
        }
    }
}

/// A reading that has come to something gives the attribute that is looked up and what it has
/// come to, be it a value or an error, and nothing is looked up any more. One that has not
/// gives nothing and changes nothing. What is left is left in any case.
pub proof fn reading_gives_the_attribute(
    outcome: Option<Result<Option<String>, CdpError>>,
)
    ensures
        forall|
            stream: &mut AttributeStream,
            item: Option<(String, Result<Option<String>, CdpError>)>,
        | #[trigger]
            call_ensures(AttributeStream::settle, (stream, outcome), item) ==> {
                let before = *stream;
                let after = *final(stream);
                &&& after.attributes@ == before.attributes@
                &&& after.remote_object_id == before.remote_object_id
                &&& (before.lookup is Some && outcome is Some) ==> {
                    &&& item is Some
                    &&& item->Some_0 == (before.lookup->0, outcome->0)
                    &&& after.lookup is None
                }
                &&& (before.lookup is None || outcome is None) ==> item is None && after == before
            },
{
}

} // verus!
