//! An encode of a session's image: the queued transforms in their fixed
//! order, then the encoder.
//!
//! The filters whose parameters are real numbers (contrast, blur, unsharp
//! mask and 3x3 convolution) are not applied here. Where the queue asks for
//! one, the task stops in front of it and hands out the working image with
//! the request; the caller applies the filter and calls again with the
//! result.
//!
//! A task works on a copy of the session's image. The session keeps the image
//! that the input was decoded to, so the same queue gives the same encode
//! again.
use crate::encode::EncodeOptions;
use crate::encode::EncodeOutput;
use crate::encode::encode;
use crate::error::Error;
use crate::error::SourceFormat;
use crate::geometry::bytes_per_pixel;
use crate::geometry::container_is_exact;
use crate::geometry::laid_over;
use crate::orientation::Orientation;
use crate::encode::encode_fails;
use crate::encode::encode_refuses;
use crate::encode::encodes_here;
use crate::encode::target_of;
use crate::encode::encoded_file;
use crate::pipeline::complete;
use crate::pipeline::complete_fails;
use crate::pipeline::adjusted;
use crate::pipeline::complete_refused;
use crate::pipeline::is_decoded_overlay;
use crate::pipeline::laid_over_all;
use crate::pipeline::overlaid_all;
use crate::pipeline::overlaid_with;
use crate::pipeline::overlays_fail;
use crate::pipeline::lit;
use crate::pipeline::trimmed;
use crate::pipeline::completed;
use crate::pipeline::after_resize;
use crate::pipeline::crop_in_bounds;
use crate::pipeline::filter_or_default;
use crate::pipeline::toned;
use crate::pipeline::effective_orientation;
use crate::pipeline::is_after_resize;
use crate::pipeline::resize_feasible;
use crate::pipeline::resized_size;
use crate::pipeline::shaped_from;
use crate::pipeline::upright;
use crate::pipeline::shape;
use crate::pipeline::shape_refused;
use crate::pipeline::shaped;
use crate::queue::FilterRequest;
use crate::queue::FilterSlot;
use crate::queue::ImageTransformArgs;
use crate::queue::OverlayView;
use crate::queue::QueueView;
use crate::queue::ResizeOptions;
use crate::queue::empty_queue;
use crate::queue::next_request;
use crate::raster::Raster;
use crate::raster::decoded_image;
use crate::raster::decodes_exactly;
use crate::raster::is_exact_file;
use crate::raster::image_clone;
use crate::raster::kernel_is_exact;
use crate::raster::raster_of;
use crate::raster::sniffed;
use crate::session::DecodedView;
use crate::session::ThreadsafeDynamicImage;
use crate::session::first_decoded;
use crate::session::lemma_exif_parsed_once;
use crate::session::refreshed;
use image::DynamicImage;
use vstd::prelude::*;

verus! {

/// Where a task stands.
#[derive(Clone, Copy, Debug, PartialEq, Eq, Structural)]
pub enum Stage {
    /// Nothing is done yet.
    Start,
    /// The task waits for the result of the filter in a slot.
    Await(FilterSlot),
}

/// The place from which the next filter is looked for.
pub open spec fn resume_from(stage: Stage) -> int {
    match stage {
        Stage::Start => 0,
        Stage::Await(slot) => slot.index() + 1,
    }
}

/// An encode of a session's image with the transforms that were queued when
/// the task was made.
pub struct EncodeTask {
    options: EncodeOptions,
    image_transform_args: ImageTransformArgs,
    stage: Stage,
}

/// How far a task has come.
pub enum Progress {
    /// The encode is finished.
    Done(EncodeOutput),
    /// The task waits for a filter: `request` is to be applied to `image`,
    /// and `task` takes the result.
    Pending { task: EncodeTask, image: DynamicImage, request: FilterRequest },
}

/// `seen` can be the state in which a lookup finds or leaves a session: the
/// state that is there, with EXIF parsed now if that is asked for and was not
/// done before; for an input that is not decoded, the state of a first decode
/// of the container that the bytes are sniffed as, with the image that the
/// decoder gives where the container decodes exactly.
pub open spec fn seen_from(before: ThreadsafeDynamicImage, seen: DecodedView, with_exif: bool) -> bool {
    match before@ {
        Some(state) => seen == refreshed(state, before.raw_bytes(), with_exif),
        None => match sniffed(before.raw_bytes()) {
            Some(format) => {
                &&& seen == first_decoded(seen.raster, format, before.raw_bytes(), with_exif)
                &&& format != SourceFormat::Avif
                &&& decodes_exactly(format) ==> Some(seen.raster) == decoded_image(before.raw_bytes())
            },
            None => false,
        },
    }
}

/// The lookup of a task left the session `before` as `after`, in the state
/// `seen`: a session that was decoded has the image that it had.
pub open spec fn looked_up(
    before: ThreadsafeDynamicImage,
    after: ThreadsafeDynamicImage,
    seen: DecodedView,
    with_exif: bool,
) -> bool {
    &&& after@ == Some(seen)
    &&& seen_from(before, seen, with_exif)
    &&& before@ is Some ==> after.decoded().unwrap().spec_image() == before.decoded().unwrap().spec_image()
}

/// `e` is the error of a lookup that fails, which leaves the session as it
/// was: the input was not decoded, and its bytes match no container or the
/// decoder of their container rejects them, which an exact decoder does on
/// the files for which it gives no image and on no others.
pub open spec fn lookup_fails(before: ThreadsafeDynamicImage, after: ThreadsafeDynamicImage, e: Error) -> bool {
    &&& before@ is None
    &&& after.decoded() == before.decoded()
    &&& match sniffed(before.raw_bytes()) {
        Some(format) => {
            &&& e matches Error::DecodeFailed { source, .. } && source == format
            &&& decodes_exactly(format) ==> decoded_image(before.raw_bytes()) is None
        },
        None => e == Error::UnknownFormat,
    }
}

/// The session was looked up and nothing else: it is as it was, or as a
/// lookup leaves it, with the pixels that it had if it had any.
pub open spec fn only_looked_up(before: ThreadsafeDynamicImage, after: ThreadsafeDynamicImage, with_exif: bool) -> bool {
    ||| after.decoded() == before.decoded()
    ||| after@ matches Some(seen) && looked_up(before, after, seen, with_exif)
}

/// `e` is an error in which the last steps and the encode can end on the
/// working image `work`: an error of the last steps, or, for an image that
/// the last steps can make of it, the error of the encoder that refuses it.
pub open spec fn finish_fails(work: Raster, q: QueueView, options: EncodeOptions, e: Error) -> bool {
    ||| complete_fails(work, q, e)
    ||| exists|done: Raster| #[trigger] completed(work, q, done) && encode_fails(done, options, e)
}

/// `output` is an encode of an image that the last steps can make of the
/// working image `work`.
pub open spec fn finished(work: Raster, q: QueueView, options: EncodeOptions, output: EncodeOutput) -> bool {
    exists|done: DynamicImage| #[trigger]
        completed(work, q, raster_of(done)) && encode.ensures((&done, &options), Ok(output))
}

/// `e` is an error in which a task can end that starts on the decoded state
/// `seen`: the error of the first steps where they cannot be carried out;
/// else, and only where no filter with real-number parameters is asked for,
/// an error of the last steps and the encode on an image that the first steps
/// can make.
pub open spec fn start_fails(seen: DecodedView, q: QueueView, options: EncodeOptions, e: Error) -> bool {
    match shape_refused(seen.raster, q, seen.orientation) {
        Some(refusal) => e == refusal,
        None => {
            &&& next_request(q, 0) is None
            &&& exists|mid: Raster| #[trigger]
                shaped(seen.raster, q, seen.orientation, mid) && finish_fails(mid, q, options, e)
        },
    }
}

/// `output` is an encode that a task can give that starts on the decoded
/// state `seen`: the first steps, the last steps and the encoder, one after
/// the other.
pub open spec fn start_finished(seen: DecodedView, q: QueueView, options: EncodeOptions, output: EncodeOutput) -> bool {
    exists|mid: Raster| #[trigger] shaped(seen.raster, q, seen.orientation, mid) && finished(mid, q, options, output)
}

impl EncodeTask {
    /// The format to encode to, with its settings.
    pub closed spec fn options(&self) -> EncodeOptions {
        self.options
    }

    /// The transforms that the task applies.
    pub closed spec fn queue(&self) -> QueueView {
        self.image_transform_args@
    }

    /// Where the task stands.
    pub closed spec fn stage(&self) -> Stage {
        self.stage
    }

    /// Whether the task waits for the result of a filter.
    pub fn waits(&self) -> (out: bool)
        ensures
            out == (self.stage() is Await),
    {
        match self.stage {
            Stage::Start => false,
            Stage::Await(_) => true,
        }
    }

    /// A task that encodes with `options` after the transforms of `args`.
    pub fn new(options: EncodeOptions, args: ImageTransformArgs) -> (out: Self)
        ensures
            out.options() == options,
            out.queue() == args@,
            out.stage() == Stage::Start,
    {
        EncodeTask { options, image_transform_args: args, stage: Stage::Start }
    }

    /// Looks the session up and applies the first steps to a copy of its
    /// image.
    fn begin(&self, session: &mut ThreadsafeDynamicImage) -> (out: Result<DynamicImage, Error>)
        ensures
            final(session).raw_bytes() == old(session).raw_bytes(),
            out matches Err(e) ==> {
                ||| lookup_fails(*old(session), *final(session), e)
                ||| {
                    &&& final(session)@ matches Some(seen)
                    &&& looked_up(*old(session), *final(session), seen, self.queue().rotate)
                    &&& shape_refused(seen.raster, self.queue(), seen.orientation) == Some(e)
                }
            },
            out matches Ok(work) ==> {
                &&& final(session)@ matches Some(seen)
                &&& looked_up(*old(session), *final(session), seen, self.queue().rotate)
                &&& shaped(seen.raster, self.queue(), seen.orientation, raster_of(work))
            },
    {
        session.get(self.image_transform_args.rotate)?;
        let (copy, exif) = match session.meta() {
            Some(meta) => (image_clone(meta.image()), meta.orientation()),
            None => {
                return Err(Error::UnknownFormat);
            },
        };
        shape(copy, &self.image_transform_args, exif)
    }

    /// Runs the task as far as it can go without help.
    ///
    /// A task that starts (`filtered` is `None`) decodes the session's input
    /// if that is not done, with EXIF if rotation is asked for, and applies
    /// to a copy of the image the orientation correction, the resize, the
    /// fast resize, the grayscale conversion and the inversion. A task that
    /// waited for a filter takes the filtered image. Either way the task then
    /// stops in front of the next filter that is asked for, or, if there is
    /// none, changes brightness and hue, crops, lays the overlays over and
    /// encodes.
    ///
    /// The session keeps the image that its input was decoded to, whatever
    /// comes of the task. The task fails where a step fails (see `shape`,
    /// `complete` and `encode`), and on no other input.
    pub fn compute(self, session: &mut ThreadsafeDynamicImage, filtered: Option<DynamicImage>) -> (out: Result<
        Progress,
        Error,
    >)
        requires
            self.stage() is Start <==> filtered is None,
        ensures
            final(session).raw_bytes() == old(session).raw_bytes(),
            filtered is None ==> started(self.queue(), self.options(), *old(session), *final(session), out),
            filtered matches Some(image) ==> resumed(
                self.queue(),
                self.options(),
                self.stage(),
                *old(session),
                *final(session),
                image,
                out,
            ),
    {
        let work = match filtered {
            Some(image) => image,
            None => self.begin(session)?,
        };
        let from: u8 = match self.stage {
            Stage::Start => 0,
            Stage::Await(FilterSlot::Contrast) => 1,
            Stage::Await(FilterSlot::Blur) => 2,
            Stage::Await(FilterSlot::Unsharpen) => 3,
            Stage::Await(FilterSlot::Filter3x3) => 4,
        };
        match self.image_transform_args.next_filter(from) {
            Some((slot, request)) => {
                let task = EncodeTask {
                    options: self.options,
                    image_transform_args: self.image_transform_args,
                    stage: Stage::Await(slot),
                };
                Ok(Progress::Pending { task, image: work, request })
            },
            None => {
                let ghost mid = raster_of(work);
                let done = match complete(work, &self.image_transform_args) {
                    Ok(done) => done,
                    Err(e) => {
                        assert(finish_fails(mid, self.queue(), self.options(), e));
                        return Err(e);
                    },
                };
                match encode(&done, &self.options) {
                    Ok(output) => {
                        assert(finished(mid, self.queue(), self.options(), output));
                        Ok(Progress::Done(output))
                    },
                    Err(e) => {
                        assert(completed(mid, self.queue(), raster_of(done)));
                        assert(finish_fails(mid, self.queue(), self.options(), e));
                        Err(e)
                    },
                }
            },
        }
    }
}

/// `out` is what a task with the queue `q` and the settings `options`
/// returns when it starts, and `after` the session that it leaves.
///
/// The session is looked up, which decodes it if need be and changes nothing
/// else. The task ends in the error of the lookup where that fails, and in
/// the error of a step where a step fails (`start_fails`). Else it waits for
/// the first filter that is asked for, with the image that the first steps
/// made; or, if no filter is asked for, it gives the encode of the image that
/// the first and the last steps made.
pub open spec fn started(
    q: QueueView,
    options: EncodeOptions,
    before: ThreadsafeDynamicImage,
    after: ThreadsafeDynamicImage,
    out: Result<Progress, Error>,
) -> bool {
    match out {
        Err(e) => {
            ||| lookup_fails(before, after, e)
            ||| after@ matches Some(seen) && looked_up(before, after, seen, q.rotate) && start_fails(seen, q, options, e)
        },
        Ok(Progress::Pending { task, image, request }) => {
            &&& after@ matches Some(seen)
            &&& looked_up(before, after, seen, q.rotate)
            &&& shaped(seen.raster, q, seen.orientation, raster_of(image))
            &&& task.queue() == q
            &&& task.options() == options
            &&& task.stage() matches Stage::Await(slot)
            &&& next_request(q, 0) == Some((slot, request))
        },
        Ok(Progress::Done(output)) => {
            &&& after@ matches Some(seen)
            &&& looked_up(before, after, seen, q.rotate)
            &&& next_request(q, 0) is None
            &&& start_finished(seen, q, options, output)
        },
    }
}

/// `out` is what a task that waited at `stage` returns when it takes the
/// result `filtered` of the filter, and `after` the session that it leaves,
/// which is the session as it was.
///
/// The task waits for the next filter that is asked for, with the image that
/// it was given. If there is none, it ends in the error of the last steps or
/// of the encoder where one of them fails (`finish_fails`), and else gives
/// the encode of the image that the last steps made.
pub open spec fn resumed(
    q: QueueView,
    options: EncodeOptions,
    stage: Stage,
    before: ThreadsafeDynamicImage,
    after: ThreadsafeDynamicImage,
    filtered: DynamicImage,
    out: Result<Progress, Error>,
) -> bool {
    &&& after.decoded() == before.decoded()
    &&& match out {
        Err(e) => next_request(q, resume_from(stage)) is None && finish_fails(raster_of(filtered), q, options, e),
        Ok(Progress::Pending { task, image, request }) => {
            &&& image == filtered
            &&& task.queue() == q
            &&& task.options() == options
            &&& task.stage() matches Stage::Await(slot)
            &&& next_request(q, resume_from(stage)) == Some((slot, request))
        },
        Ok(Progress::Done(output)) => {
            &&& next_request(q, resume_from(stage)) is None
            &&& finished(raster_of(filtered), q, options, output)
        },
    }
}

/// A crop that reaches beyond the image fails the encode and leaves the
/// decoded image of the session as it was: for a session that is decoded and
/// a queue that asks for the crop and nothing else, a task that starts ends
/// in `CropOutOfBounds`, and the image of the session is the one from before.
pub proof fn lemma_crop_beyond_the_image(
    rect: (u32, u32, u32, u32),
    options: EncodeOptions,
    before: ThreadsafeDynamicImage,
    after: ThreadsafeDynamicImage,
    out: Result<Progress, Error>,
)
    requires
        before@ is Some,
        !crop_in_bounds(before@.unwrap().raster.width, before@.unwrap().raster.height, rect),
        started(QueueView { crop: Some(rect), ..empty_queue() }, options, before, after, out),
    ensures
        out == Err::<Progress, Error>(Error::CropOutOfBounds),
        after@ == before@,
        after.decoded().unwrap().spec_image() == before.decoded().unwrap().spec_image(),
{
}

/// A task leaves the pixels of a decoded session as they were, whether it
/// started or took the result of a filter, and whether it failed, waits or
/// gave an encode.
pub proof fn lemma_task_keeps_the_pixels(
    q: QueueView,
    options: EncodeOptions,
    stage: Stage,
    before: ThreadsafeDynamicImage,
    after: ThreadsafeDynamicImage,
    filtered: DynamicImage,
    out: Result<Progress, Error>,
)
    requires
        before@ is Some,
        started(q, options, before, after, out) || resumed(q, options, stage, before, after, filtered, out),
    ensures
        after@ is Some,
        after.decoded().unwrap().spec_image() == before.decoded().unwrap().spec_image(),
        after@.unwrap().raster == before@.unwrap().raster,
        after@.unwrap().format == before@.unwrap().format,
{
    before.lemma_view_of_image();
    after.lemma_view_of_image();
}

/// What a task that starts on a decoded session comes to. The session is as
/// a lookup leaves it. Where the first steps cannot be carried out, the task
/// ends in their error. Else, where a filter with real-number parameters is
/// asked for, the task waits for the first of them with an image that the
/// first steps made. Else the first steps make an image of which the task
/// gives an encode, or on which it ends in an error of the last steps or of
/// the encoder.
pub proof fn lemma_start_on_decoded(
    q: QueueView,
    options: EncodeOptions,
    before: ThreadsafeDynamicImage,
    after: ThreadsafeDynamicImage,
    out: Result<Progress, Error>,
)
    requires
        before@ is Some,
        started(q, options, before, after, out),
    ensures
        after@ == Some(refreshed(before@.unwrap(), before.raw_bytes(), q.rotate)),
        after.decoded().unwrap().spec_image() == before.decoded().unwrap().spec_image(),
        ({
            let seen = after@.unwrap();
            match shape_refused(seen.raster, q, seen.orientation) {
                Some(e) => out == Err::<Progress, Error>(e),
                None => match next_request(q, 0) {
                    Some(found) => {
                        &&& out matches Ok(Progress::Pending { task, image, request })
                        &&& request == found.1
                        &&& task.stage() == Stage::Await(found.0)
                        &&& shaped(seen.raster, q, seen.orientation, raster_of(image))
                    },
                    None => exists|mid: Raster| #[trigger]
                        shaped(seen.raster, q, seen.orientation, mid) && match out {
                            Err(e) => finish_fails(mid, q, options, e),
                            Ok(Progress::Done(output)) => finished(mid, q, options, output),
                            Ok(Progress::Pending { .. }) => false,
                        },
                },
            }
        }),
{
    let seen = after@.unwrap();
    if shape_refused(seen.raster, q, seen.orientation) is None && next_request(q, 0) is None {
        match out {
            Err(e) => {
                let mid = choose|mid: Raster| #[trigger]
                    shaped(seen.raster, q, seen.orientation, mid) && finish_fails(mid, q, options, e);
                assert(shaped(seen.raster, q, seen.orientation, mid));
            },
            Ok(Progress::Done(output)) => {
                let mid = choose|mid: Raster| #[trigger]
                    shaped(seen.raster, q, seen.orientation, mid) && finished(mid, q, options, output);
                assert(shaped(seen.raster, q, seen.orientation, mid));
            },
            Ok(Progress::Pending { .. }) => {},
        }
    }
}

/// The raw pixels of a working image, for a queue without hue rotation and
/// overlays: the encode fails exactly where the brightness change or the crop
/// cannot be carried out, with their error, and else gives the bytes of the
/// image after the brightness change and the crop.
pub proof fn lemma_raw_pixels(work: Raster, q: QueueView, out: Result<EncodeOutput, Error>)
    requires
        q.huerotate is None,
        q.overlay.len() == 0,
        match out {
            Err(e) => finish_fails(work, q, EncodeOptions::RawPixels, e),
            Ok(output) => finished(work, q, EncodeOptions::RawPixels, output),
        },
    ensures
        match complete_refused(work.width, work.height, work.layout, q) {
            Some(e) => out == Err::<EncodeOutput, Error>(e),
            None => out matches Ok(EncodeOutput::Buffer(bytes)) && bytes@ == trimmed(lit(work, q.brightness), q.crop).bytes,
        },
{
    match out {
        Err(e) => {
            if !complete_fails(work, q, e) {
                let done = choose|done: Raster| #[trigger]
                    completed(work, q, done) && encode_fails(done, EncodeOptions::RawPixels, e);
                assert(encode_refuses(done, EncodeOptions::RawPixels));
                assert(encoded_file(done, EncodeOptions::RawPixels) is Some);
            }
        },
        Ok(output) => {
            let done = choose|done: DynamicImage| #[trigger]
                completed(work, q, raster_of(done)) && encode.ensures((&done, &EncodeOptions::RawPixels), Ok(output));
            assert(encoded_file(raster_of(done), EncodeOptions::RawPixels) == Some(raster_of(done).bytes));
        },
    }
}

/// The queue asks for nothing whose result differs from one machine to the
/// next or rests on a decoder: no fast resize, no hue rotation, no overlay,
/// no filter with real-number parameters, and no resize but with an exact
/// kernel.
pub open spec fn is_exact_queue(q: QueueView) -> bool {
    &&& q.fast_resize is None
    &&& q.huerotate is None
    &&& q.overlay.len() == 0
    &&& next_request(q, 0) is None
    &&& q.resize matches Some(options) ==> kernel_is_exact(filter_or_default(options.filter))
}

/// The image that the first steps of an exact queue make of `start`.
pub open spec fn exact_work(start: Raster, q: QueueView, orientation: Option<Orientation>) -> Raster {
    toned(after_resize(upright(start, orientation), q), q.grayscale, q.invert)
}

/// The image that an exact queue makes of `start`.
pub open spec fn exact_image(start: Raster, q: QueueView, orientation: Option<Orientation>) -> Raster {
    trimmed(lit(exact_work(start, q, orientation), q.brightness), q.crop)
}

/// `out` is what a task with an exact queue comes to on the decoded state
/// `seen`, for a format whose encoder is called here: the error of the first
/// step that cannot be carried out; else the file that the encoder makes of
/// the transformed image, or `EncodeFailed` where it makes none.
pub open spec fn exact_outcome(seen: DecodedView, q: QueueView, options: EncodeOptions, out: Result<Progress, Error>) -> bool {
    match shape_refused(seen.raster, q, seen.orientation) {
        Some(e) => out == Err::<Progress, Error>(e),
        None => {
            let orientation = effective_orientation(q, seen.orientation)->Ok_0;
            let work = exact_work(seen.raster, q, orientation);
            match complete_refused(work.width, work.height, work.layout, q) {
                Some(e) => out == Err::<Progress, Error>(e),
                None => match encoded_file(exact_image(seen.raster, q, orientation), options) {
                    Some(file) => out matches Ok(Progress::Done(EncodeOutput::Buffer(bytes))) && bytes@ == file,
                    None => out matches Err(Error::EncodeFailed { target, .. }) && target == target_of(options),
                },
            }
        },
    }
}

/// A task with an exact queue on a decoded session, for a format whose
/// encoder is called here, comes to one outcome and no other
/// (`exact_outcome`).
pub proof fn lemma_exact_queue(
    q: QueueView,
    options: EncodeOptions,
    before: ThreadsafeDynamicImage,
    after: ThreadsafeDynamicImage,
    out: Result<Progress, Error>,
)
    requires
        before@ is Some,
        is_exact_queue(q),
        encodes_here(options),
        started(q, options, before, after, out),
    ensures
        exact_outcome(refreshed(before@.unwrap(), before.raw_bytes(), q.rotate), q, options, out),
{
    lemma_start_on_decoded(q, options, before, after, out);
    let seen = after@.unwrap();
    if shape_refused(seen.raster, q, seen.orientation) is None {
        let mid = choose|mid: Raster| #[trigger]
            shaped(seen.raster, q, seen.orientation, mid) && match out {
                Err(e) => finish_fails(mid, q, options, e),
                Ok(Progress::Done(output)) => finished(mid, q, options, output),
                Ok(Progress::Pending { .. }) => false,
            };
        let orientation = effective_orientation(q, seen.orientation)->Ok_0;
        let r1 = choose|r1: Raster| #[trigger]
            is_after_resize(upright(seen.raster, orientation), q, r1) && shaped_from(r1, q, mid);
        assert(r1 == after_resize(upright(seen.raster, orientation), q));
        assert(mid == exact_work(seen.raster, q, orientation));
        match out {
            Err(e) => {
                if !complete_fails(mid, q, e) {
                    let done = choose|done: Raster| #[trigger] completed(mid, q, done) && encode_fails(done, options, e);
                    assert(done == exact_image(seen.raster, q, orientation));
                }
            },
            Ok(Progress::Done(output)) => {
                let done = choose|done: DynamicImage| #[trigger]
                    completed(mid, q, raster_of(done)) && encode.ensures((&done, &options), Ok(output));
                assert(raster_of(done) == exact_image(seen.raster, q, orientation));
            },
            Ok(Progress::Pending { .. }) => {},
        }
    }
}

/// The same queue gives the same encode again: where two tasks with one
/// exact queue and one format start on a decoded session one after the other,
/// both fail or both give a buffer, and the two buffers hold the same bytes.
pub proof fn lemma_same_queue_same_bytes(
    q: QueueView,
    options: EncodeOptions,
    before: ThreadsafeDynamicImage,
    between: ThreadsafeDynamicImage,
    after: ThreadsafeDynamicImage,
    first: Result<Progress, Error>,
    second: Result<Progress, Error>,
)
    requires
        before@ is Some,
        is_exact_queue(q),
        encodes_here(options),
        between.raw_bytes() == before.raw_bytes(),
        started(q, options, before, between, first),
        started(q, options, between, after, second),
    ensures
        first is Ok <==> second is Ok,
        first matches Ok(Progress::Done(EncodeOutput::Buffer(a))) ==> (second matches Ok(
            Progress::Done(EncodeOutput::Buffer(b)),
        ) ==> a@ == b@),
        first is Ok ==> first matches Ok(Progress::Done(EncodeOutput::Buffer(_))),
        first matches Err(e) ==> second matches Err(again) && (e is EncodeFailed || again == e),
        after@ == between@,
{
    lemma_start_on_decoded(q, options, before, between, first);
    lemma_start_on_decoded(q, options, between, after, second);
    lemma_exact_queue(q, options, before, between, first);
    lemma_exact_queue(q, options, between, after, second);
    lemma_exif_parsed_once(before@.unwrap(), before.raw_bytes(), q.rotate, q.rotate);
}

/// The raw pixels after a resize and nothing else, of a decoded session
/// whose pixel container holds the pixels and nothing more: the task gives a
/// buffer where the resize can be carried out, and else ends in
/// `InvalidDimensions`. Where the size of the resized image is known
/// (`resized_size`), the buffer has as many bytes as that many pixels take.
pub proof fn lemma_raw_pixels_of_a_resize(
    options: ResizeOptions,
    before: ThreadsafeDynamicImage,
    after: ThreadsafeDynamicImage,
    out: Result<Progress, Error>,
)
    requires
        before@ matches Some(state) && container_is_exact(state.raster),
        started(QueueView { resize: Some(options), ..empty_queue() }, EncodeOptions::RawPixels, before, after, out),
    ensures
        ({
            let start = before@.unwrap().raster;
            if resize_feasible(options, start.width, start.height) {
                &&& out matches Ok(Progress::Done(EncodeOutput::Buffer(bytes)))
                &&& resized_size(start.width, start.height, options) matches Some(size) ==> bytes@.len() == size.0
                    * size.1 * bytes_per_pixel(start.layout.unwrap())
            } else {
                out == Err::<Progress, Error>(Error::InvalidDimensions)
            }
        }),
{
    let q = QueueView { resize: Some(options), ..empty_queue() };
    lemma_start_on_decoded(q, EncodeOptions::RawPixels, before, after, out);
    let seen = after@.unwrap();
    if shape_refused(seen.raster, q, seen.orientation) is None {
        let mid = choose|mid: Raster| #[trigger]
            shaped(seen.raster, q, seen.orientation, mid) && match out {
                Err(e) => finish_fails(mid, q, EncodeOptions::RawPixels, e),
                Ok(Progress::Done(output)) => finished(mid, q, EncodeOptions::RawPixels, output),
                Ok(Progress::Pending { .. }) => false,
            };
        let r1 = choose|r1: Raster| #[trigger]
            is_after_resize(upright(seen.raster, None), q, r1) && shaped_from(r1, q, mid);
        assert(mid == r1);
        match out {
            Err(e) => {
                lemma_raw_pixels(mid, q, Err(e));
            },
            Ok(Progress::Done(output)) => {
                lemma_raw_pixels(mid, q, Ok(output));
            },
            Ok(Progress::Pending { .. }) => {},
        }
    }
}

/// The raw pixels under one overlay and nothing else, where the overlay is in
/// a container that decodes exactly and its decoder gives the image `top`:
/// of a decoded session the task gives the bytes of an image that is the
/// session's image with `top` laid over it (`laid_over`). Where both are
/// 8-bit RGBA and `top` is opaque, `lemma_opaque_overlay` says of every pixel
/// which of the two it is.
pub proof fn lemma_raw_pixels_under_an_overlay(
    overlay: OverlayView,
    top: Raster,
    before: ThreadsafeDynamicImage,
    after: ThreadsafeDynamicImage,
    out: Result<Progress, Error>,
)
    requires
        before@ is Some,
        is_exact_file(overlay.source),
        decoded_image(overlay.source) == Some(top),
        started(QueueView { overlay: seq![overlay], ..empty_queue() }, EncodeOptions::RawPixels, before, after, out),
    ensures
        out matches Ok(Progress::Done(EncodeOutput::Buffer(bytes))) && exists|done: Raster|
            done.bytes == bytes@ && #[trigger] laid_over(before@.unwrap().raster, top, overlay.x, overlay.y, done),
{
    let q = QueueView { overlay: seq![overlay], ..empty_queue() };
    lemma_start_on_decoded(q, EncodeOptions::RawPixels, before, after, out);
    let seen = after@.unwrap();
    let start = before@.unwrap().raster;
    assert(shape_refused(seen.raster, q, seen.orientation) is None);
    let mid = choose|mid: Raster| #[trigger]
        shaped(seen.raster, q, seen.orientation, mid) && match out {
            Err(e) => finish_fails(mid, q, EncodeOptions::RawPixels, e),
            Ok(Progress::Done(output)) => finished(mid, q, EncodeOptions::RawPixels, output),
            Ok(Progress::Pending { .. }) => false,
        };
    let r1 = choose|r1: Raster| #[trigger] is_after_resize(upright(seen.raster, None), q, r1) && shaped_from(r1, q, mid);
    assert(mid == start);
    assert(q.overlay[0] == overlay);
    match out {
        Err(e) => {
            assert(!overlays_fail(q.overlay, e));
            if !complete_fails(mid, q, e) {
                let done = choose|done: Raster| #[trigger]
                    completed(mid, q, done) && encode_fails(done, EncodeOptions::RawPixels, e);
                assert(encoded_file(done, EncodeOptions::RawPixels) is Some);
            }
        },
        Ok(Progress::Done(output)) => {
            let done = choose|done: DynamicImage| #[trigger]
                completed(mid, q, raster_of(done)) && encode.ensures((&done, &EncodeOptions::RawPixels), Ok(output));
            let (bright, tops) = choose|bright: Raster, tops: Seq<Raster>|
                adjusted(mid, q.brightness, q.huerotate, bright) && #[trigger] overlaid_with(
                    trimmed(bright, q.crop),
                    tops,
                    q.overlay,
                    raster_of(done),
                );
            assert(bright == mid);
            assert(is_decoded_overlay(tops[0], q.overlay[0]));
            assert(tops[0] == top);
            assert(tops.drop_last().len() == 0);
            assert(overlaid_all(mid, tops.drop_last(), q.overlay.drop_last()) == mid);
            assert(laid_over_all(mid, tops, q.overlay));
            assert(tops.last() == top && q.overlay.last() == overlay);
            assert(laid_over(start, top, overlay.x, overlay.y, raster_of(done)));
            assert(encoded_file(raster_of(done), EncodeOptions::RawPixels) == Some(raster_of(done).bytes));
        },
        Ok(Progress::Pending { .. }) => {},
    }
}

/// The raw pixels after an orientation correction and a crop, whatever the
/// order in which the two were asked for: of a decoded session the task gives
/// the bytes of the rectangle cut out of the image that is corrected for the
/// orientation, and ends in `CropOutOfBounds` where the rectangle reaches
/// beyond that image.
pub proof fn lemma_raw_pixels_of_a_turn_and_a_crop(
    orientation: Option<Orientation>,
    crop: Option<(u32, u32, u32, u32)>,
    before: ThreadsafeDynamicImage,
    after: ThreadsafeDynamicImage,
    out: Result<Progress, Error>,
)
    requires
        before@ is Some,
        started(
            QueueView { rotate: true, orientation, crop, ..empty_queue() },
            EncodeOptions::RawPixels,
            before,
            after,
            out,
        ),
    ensures
        ({
            let seen = after@.unwrap();
            match effective_orientation(QueueView { rotate: true, orientation, crop, ..empty_queue() }, seen.orientation) {
                Err(e) => out == Err::<Progress, Error>(e),
                Ok(o) => {
                    let turned = upright(seen.raster, o);
                    if crop matches Some(rect) && !crop_in_bounds(turned.width, turned.height, rect) {
                        out == Err::<Progress, Error>(Error::CropOutOfBounds)
                    } else {
                        out matches Ok(Progress::Done(EncodeOutput::Buffer(bytes))) && bytes@ == trimmed(
                            turned,
                            crop,
                        ).bytes
                    }
                },
            }
        }),
{
    let q = QueueView { rotate: true, orientation, crop, ..empty_queue() };
    lemma_start_on_decoded(q, EncodeOptions::RawPixels, before, after, out);
    let seen = after@.unwrap();
    if shape_refused(seen.raster, q, seen.orientation) is None {
        let mid = choose|mid: Raster| #[trigger]
            shaped(seen.raster, q, seen.orientation, mid) && match out {
                Err(e) => finish_fails(mid, q, EncodeOptions::RawPixels, e),
                Ok(Progress::Done(output)) => finished(mid, q, EncodeOptions::RawPixels, output),
                Ok(Progress::Pending { .. }) => false,
            };
        let o = effective_orientation(q, seen.orientation)->Ok_0;
        let r1 = choose|r1: Raster| #[trigger] is_after_resize(upright(seen.raster, o), q, r1) && shaped_from(r1, q, mid);
        assert(mid == upright(seen.raster, o));
        match out {
            Err(e) => {
                lemma_raw_pixels(mid, q, Err(e));
            },
            Ok(Progress::Done(output)) => {
                lemma_raw_pixels(mid, q, Ok(output));
            },
            Ok(Progress::Pending { .. }) => {},
        }
    }
}

} // verus!
