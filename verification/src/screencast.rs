//! Screencasts.
use vstd::prelude::*;

use crate::cdp::command::{Command, CommandView};
use crate::cdp::page::{ScreencastFrame, ScreencastFrameView};
use crate::flow::{
    ask, asking, bind, chain, done, execute, executing, follows, same_is_equal, Await, Chain, Ended,
    Next, Prog, Start, Step,
};
use crate::laws::{bind_yields, yields};
use crate::page::Page;
use crate::protocol::{Request, RequestView};
use crate::sequence::{in_sequence, sequence, Sequence};

verus! {

/// How long a screencast lasts.
pub const SCREENCAST_MILLISECONDS: u64 = 2000;

/// How many images are shown in a second.
pub const IMAGES_PER_SECOND: u128 = 25;

/// An image, some times over.
pub open spec fn repeated(image: Seq<u8>, times: nat) -> Seq<Seq<u8>> {
    Seq::new(times, |i: int| image)
}

/// How often the image of a frame is shown.
pub open spec fn times_shown(frame: ScreencastFrameView) -> nat {
    if frame.copies < 0 {
        0
    } else {
        (frame.copies + 1) as nat
    }
}

/// The images that frames are shown as: each frame but the first fills the time since the
/// frame before.
pub open spec fn filled(frames: Seq<ScreencastFrameView>) -> Seq<Seq<u8>>
    decreases frames.len(),
{
    if frames.len() <= 1 {
        seq![]
    } else {
        filled(frames.drop_last()) + repeated(frames.last().data, times_shown(frames.last()))
    }
}

/// How often the last image is shown again, for the whole seconds between the last frame
/// and the end.
pub open spec fn times_prolonged(timestamp: u128, end_time: u128) -> nat {
    (((end_time - timestamp) / 1000) * IMAGES_PER_SECOND + 1) as nat
}

/// Whether frames can be shown at all: there is an image, and the end is not before the
/// last frame.
pub open spec fn can_be_shown(frames: Seq<ScreencastFrameView>, end_time: u128) -> bool {
    filled(frames).len() > 0 && frames.last().timestamp <= end_time
}

/// The images that frames are shown as up to the end.
pub open spec fn interpolated(frames: Seq<ScreencastFrameView>, end_time: u128) -> Seq<Seq<u8>> {
    filled(frames) + repeated(
        filled(frames).last(),
        times_prolonged(frames.last().timestamp, end_time),
    )
}

/// Ends a screencast. The images are not yielded.
pub open spec fn show_op(frames: Seq<ScreencastFrameView>, end_time: u128) -> Prog<Seq<Seq<u8>>> {
    if can_be_shown(frames, end_time) {
        done(seq![])
    } else {
        Prog::Abort
    }
}

/// Stops the screencast and takes the frames.
pub open spec fn stop_op(end_time: u128) -> Prog<Seq<Seq<u8>>> {
    bind(
        execute::<()>(CommandView::StopScreencast),
        |u: ()|
            bind(
                ask::<Vec<ScreencastFrame>>(RequestView::ScreencastFrames),
                |frames: Seq<ScreencastFrameView>| show_op(frames, end_time),
            ),
    )
}

/// Films the page for a while.
pub open spec fn screencast_op() -> Prog<Seq<Seq<u8>>> {
    bind(
        sequence(
            seq![
                RequestView::CollectScreencast,
                RequestView::Command(CommandView::StartScreencast),
            ],
        ),
        |u: ()|
            bind(
                ask::<u128>(RequestView::Pause { milliseconds: SCREENCAST_MILLISECONDS }),
                |end_time: u128| stop_op(end_time),
            ),
    )
}

/// Appends an image, some times over.
fn append_repeated(images: &mut Vec<Vec<u8>>, image: &Vec<u8>, times: u128)
    ensures
        final(images).deep_view() == old(images).deep_view() + repeated(
            image.deep_view(),
            times as nat,
        ),
{
    let ghost before = images.deep_view();
    let mut i: u128 = 0;
    assert(before + repeated(image.deep_view(), 0) =~= before);
    while i < times
        invariant
            i <= times,
            images.deep_view() == before + repeated(image.deep_view(), i as nat),
        decreases times - i,
    {
        let ghost shown = images.deep_view();
        let copy = image.clone();
        assert(copy.deep_view() =~= image.deep_view());
        images.push(copy);
        i = i + 1;
        assert(images.deep_view() =~= shown.push(image.deep_view()));
        assert(images.deep_view() =~= before + repeated(image.deep_view(), i as nat));
    }
}

/// The images that frames are shown as, at 25 a second, up to the end. `None` where there
/// is no image or the end is before the last frame.
pub fn interpolate(frames: &Vec<ScreencastFrame>, end_time: u128) -> (images: Option<Vec<Vec<u8>>>)
    ensures
        match images {
            Some(images) => can_be_shown(frames.deep_view(), end_time) && images.deep_view()
                == interpolated(frames.deep_view(), end_time),
            None => !can_be_shown(frames.deep_view(), end_time),
        },
{
    let ghost all = frames.deep_view();
    let mut images: Vec<Vec<u8>> = Vec::new();
    assert(images.deep_view() =~= seq![]);
    if frames.len() == 0 {
        return None;
    }
    let mut i: usize = 1;
    while i < frames.len()
        invariant
            1 <= i <= frames@.len(),
            all == frames.deep_view(),
            images.deep_view() == filled(all.take(i as int)),
        decreases frames@.len() - i,
    {
        let frame = &frames[i];
        assert(all[i as int] == frame.deep_view());
        if frame.copies >= 0 {
            append_repeated(&mut images, &frame.data, frame.copies as u128 + 1);
        } else {
            assert(filled(all.take(i as int)) + repeated(frame.data.deep_view(), 0) =~= filled(
                all.take(i as int),
            ));
        }
        i = i + 1;
        assert(all.take(i as int).drop_last() =~= all.take(i - 1));
    }
    assert(all.take(i as int) =~= all);
    let last = frames[frames.len() - 1].timestamp;
    assert(all.last() == frames@.last().deep_view());
    if images.len() == 0 || end_time < last {
        return None;
    }
    let image = images[images.len() - 1].clone();
    assert(image.deep_view() =~= images@.last().deep_view());
    let seconds: u128 = (end_time - last) / 1000;
    append_repeated(&mut images, &image, seconds * IMAGES_PER_SECOND + 1);
    Some(images)
}

/// Ends a screencast.
pub struct Show {
    pub end_time: u128,
}

impl Next for Show {
    type Input = Vec<ScreencastFrame>;

    type Rest = Ended<Vec<Vec<u8>>>;

    open spec fn next(self, frames: Seq<ScreencastFrameView>) -> Prog<Seq<Seq<u8>>> {
        show_op(frames, self.end_time)
    }
}

impl Start for Show {
    fn start(self, frames: Vec<ScreencastFrame>) -> (step: Step<
        Ended<Vec<Vec<u8>>>,
        Vec<Vec<u8>>,
    >) {
        match interpolate(&frames, self.end_time) {
            Some(_) => {
                let nothing: Vec<Vec<u8>> = Vec::new();
                assert(nothing.deep_view() =~= seq![]);
                Step::Done(Ok(nothing))
            },
            None => Step::Abort,
        }
    }
}

/// Takes the frames of a screencast that is stopped.
pub struct TakeFrames {
    pub end_time: u128,
}

impl Next for TakeFrames {
    type Input = ();

    type Rest = Chain<Await<Vec<ScreencastFrame>>, Show>;

    open spec fn next(self, u: ()) -> Prog<Seq<Seq<u8>>> {
        bind(
            ask::<Vec<ScreencastFrame>>(RequestView::ScreencastFrames),
            |frames: Seq<ScreencastFrameView>| show_op(frames, self.end_time),
        )
    }
}

impl Start for TakeFrames {
    fn start(self, u: ()) -> (step: Step<
        Chain<Await<Vec<ScreencastFrame>>, Show>,
        Vec<Vec<u8>>,
    >) {
        broadcast use same_is_equal;

        chain(
            asking::<Vec<ScreencastFrame>>(Request::ScreencastFrames),
            Show { end_time: self.end_time },
        )
    }
}

/// Stops a screencast.
pub struct Stop;

impl Next for Stop {
    type Input = u128;

    type Rest = Chain<Await<()>, TakeFrames>;

    open spec fn next(self, end_time: u128) -> Prog<Seq<Seq<u8>>> {
        stop_op(end_time)
    }
}

impl Start for Stop {
    fn start(self, end_time: u128) -> (step: Step<Chain<Await<()>, TakeFrames>, Vec<Vec<u8>>>) {
        broadcast use same_is_equal;

        chain(executing::<()>(Command::StopScreencast), TakeFrames { end_time })
    }
}

/// Lets a screencast last.
pub struct Film;

impl Next for Film {
    type Input = ();

    type Rest = Chain<Await<u128>, Stop>;

    open spec fn next(self, u: ()) -> Prog<Seq<Seq<u8>>> {
        bind(
            ask::<u128>(RequestView::Pause { milliseconds: SCREENCAST_MILLISECONDS }),
            |end_time: u128| stop_op(end_time),
        )
    }
}

impl Start for Film {
    fn start(self, u: ()) -> (step: Step<Chain<Await<u128>, Stop>, Vec<Vec<u8>>>) {
        broadcast use same_is_equal;

        chain(
            asking::<u128>(Request::Pause { milliseconds: SCREENCAST_MILLISECONDS }),
            Stop,
        )
    }
}

impl Page {
    /// Films the page for a while. The images are put together, but none is yielded.
    pub fn screencast(&self) -> (step: Step<Chain<Sequence, Film>, Vec<Vec<u8>>>)
        ensures
            follows(step, screencast_op()),
    {
        broadcast use same_is_equal;

        let requests: Vec<Request> = vec![
            Request::CollectScreencast,
            Request::Command(Command::StartScreencast),
        ];
        assert(requests.deep_view() =~= seq![
            RequestView::CollectScreencast,
            RequestView::Command(CommandView::StartScreencast),
        ]);
        chain(in_sequence(requests), Film)
    }
}

// What holds whatever the browser answers.

/// A screencast yields no image.
pub proof fn screencast_yields_nothing()
    ensures
        yields(screencast_op(), |images: Seq<Seq<u8>>| images.len() == 0),
{
    let none = |images: Seq<Seq<u8>>| images.len() == 0;
    let film = |u: ()|
        bind(
            ask::<u128>(RequestView::Pause { milliseconds: SCREENCAST_MILLISECONDS }),
            |end_time: u128| stop_op(end_time),
        );
    assert forall|u: ()| yields(#[trigger] film(u), none) by {
        let stop = |end_time: u128| stop_op(end_time);
        assert forall|end_time: u128| yields(#[trigger] stop(end_time), none) by {
            let show = |frames: Seq<ScreencastFrameView>| show_op(frames, end_time);
            let take = |u: ()|
                bind(ask::<Vec<ScreencastFrame>>(RequestView::ScreencastFrames), show);
            assert forall|u: ()| yields(#[trigger] take(u), none) by {
                assert forall|frames: Seq<ScreencastFrameView>|
                    yields(#[trigger] show(frames), none) by {
                }
                bind_yields(
                    ask::<Vec<ScreencastFrame>>(RequestView::ScreencastFrames),
                    show,
                    none,
                );
            }
            bind_yields(execute::<()>(CommandView::StopScreencast), take, none);
        }
        bind_yields(
            ask::<u128>(RequestView::Pause { milliseconds: SCREENCAST_MILLISECONDS }),
            stop,
            none,
        );
    }
    bind_yields(
        sequence(
            seq![
                RequestView::CollectScreencast,
                RequestView::Command(CommandView::StartScreencast),
            ],
        ),
        film,
        none,
    );
}

/// The images of frames end with the last of them, shown at least once more than the
/// frames ask for.
pub proof fn last_image_is_prolonged(frames: Seq<ScreencastFrameView>, end_time: u128)
    requires
        can_be_shown(frames, end_time),
    ensures
        interpolated(frames, end_time).len() > filled(frames).len(),
        interpolated(frames, end_time).last() == filled(frames).last(),
{
}

} // verus!
