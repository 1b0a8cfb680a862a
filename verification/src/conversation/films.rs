//! Screencasts.
use vstd::prelude::*;

use crate::cdp::command::CommandView;
use crate::cdp::page::{ScreencastFrame, ScreencastFrameView};
use crate::flow::{bind, done, remaining, Chain, Step};
use crate::page::Page;
use crate::protocol::{ReplyView, RequestView};
use crate::screencast::{filled, interpolate, repeated, times_shown, Film};
use crate::sequence::{sequence, Sequence};

verus! {

/// How many images stand before the `k`th frame: each frame after the first is shown once more
/// than the time since the frame before asks for, and a frame before its time is not shown.
pub open spec fn images_before(frames: Seq<ScreencastFrameView>, k: int) -> int
    decreases k,
{
    if k <= 1 {
        0
    } else if frames[k - 1].copies >= 0 {
        images_before(frames, k - 1) + frames[k - 1].copies + 1
    } else {
        images_before(frames, k - 1)
    }
}

/// The images that frames are shown as stand where they are counted to stand.
proof fn images_stand_in_place(frames: Seq<ScreencastFrameView>, k: int)
    requires
        frames.len() >= 1,
    ensures
        filled(frames).len() == images_before(frames, frames.len() as int),
        1 <= k < frames.len() ==> {
            &&& images_before(frames, k) >= 0
            &&& frames[k].copies >= 0 ==> images_before(frames, k) + frames[k].copies < filled(
                frames,
            ).len()
            &&& forall|p: int|
                images_before(frames, k) <= p <= images_before(frames, k) + frames[k].copies
                    ==> #[trigger] filled(frames)[p] == frames[k].data
        },
    decreases frames.len(),
{
    if frames.len() > 1 {
        let shorter = frames.drop_last();
        images_stand_in_place(shorter, k);
        same_count(frames, shorter, shorter.len() as int);
        if 1 <= k < frames.len() {
            same_count(frames, shorter, k);
            let n = frames.len() - 1;
            assert(filled(frames) == filled(shorter) + repeated(
                frames[n].data,
                times_shown(frames[n]),
            ));
            assert forall|p: int|
                images_before(frames, k) <= p <= images_before(frames, k)
                    + frames[k].copies implies #[trigger] filled(frames)[p] == frames[k].data by {
                if k < n {
                    assert(shorter[k] == frames[k]);
                    assert(filled(shorter)[p] == shorter[k].data);
                }
            }
        }
    }
}

/// What stands before a frame does not depend on the frames after it.
proof fn same_count(frames: Seq<ScreencastFrameView>, shorter: Seq<ScreencastFrameView>, k: int)
    requires
        frames.len() > 0,
        shorter == frames.drop_last(),
        k <= shorter.len(),
    ensures
        images_before(frames, k) == images_before(shorter, k),
        images_before(frames, k) >= 0,
    decreases k,
{
    if k > 1 {
        same_count(frames, shorter, k - 1);
        assert(shorter[k - 1] == frames[k - 1]);
    }
}

/// Frames are shown as images where there is one to show and the end is not before the last
/// frame. The image of each frame after the first stands where the frames before it leave off,
/// as often as it is shown, and the last image is shown on, 25 times for each second up to the
/// end, and once more.
pub proof fn frames_become_images(
    frames: Vec<ScreencastFrame>,
    end_time: u128,
    images: Option<Vec<Vec<u8>>>,
    k: int,
    i: int,
)
    requires
        call_ensures(interpolate, (&frames, end_time), images),
    ensures
        ({
            let given = frames.deep_view();
            let n = given.len() as int;
            let count = images_before(given, n);
            &&& images is Some <==> n > 0 && count > 0 && given[n - 1].timestamp <= end_time
            &&& images is Some ==> {
                let shown = images->0.deep_view();
                let prolonged = ((end_time - given[n - 1].timestamp) / 1000) * 25 + 1;
                &&& shown.len() == count + prolonged
                &&& (1 <= k < n && 0 <= i <= given[k].copies) ==> shown[images_before(given, k) + i]
                    == given[k].data
                &&& count <= i < shown.len() ==> shown[i] == shown[count - 1]
            }
        }),
{
    let given = frames.deep_view();
    if given.len() > 0 {
        images_stand_in_place(given, k);
        if 1 <= k < given.len() && 0 <= i <= given[k].copies {
            assert(filled(given)[images_before(given, k) + i] == given[k].data);
        }
    }
}

/// A screencast is collected from before it is started, lasts two seconds, is stopped, and hands
/// its frames over. Of frames that can be shown, no image is yielded.
pub proof fn page_is_filmed(
    page: &Page,
    step: Step<Chain<Sequence, Film>, Vec<Vec<u8>>>,
    reply: ReplyView,
    end_time: u128,
    frames: Seq<ScreencastFrameView>,
)
    requires
        call_ensures(Page::screencast, (page,), step),
        frames.len() > 0,
        images_before(frames, frames.len() as int) > 0,
        frames[frames.len() - 1].timestamp <= end_time,
    ensures
        remaining(step).asks(RequestView::CollectScreencast, reply).sends(
            CommandView::StartScreencast,
            reply,
        ).asks(RequestView::Pause { milliseconds: 2000 }, ReplyView::Clock(end_time)).sends(
            CommandView::StopScreencast,
            reply,
        ).asks(RequestView::ScreencastFrames, ReplyView::Screencast(frames)) == done(
            Seq::<Seq<u8>>::empty(),
        ),
{
    images_stand_in_place(frames, 1);
    reveal_with_fuel(bind, 6);
    reveal_with_fuel(sequence, 3);
}

} // verus!
