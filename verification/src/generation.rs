//! One image generation as a sequence of steps.
//!
//! A [`Generation`] never touches the device. It names the step that is due
//! ([`Generation::pending`]), the caller performs it and reports what came of
//! it ([`Generation::step`]), and so on until the generation asks for the
//! staging buffer to be decoded or reports the error it ended with.

use vstd::prelude::*;
use crate::command::{recorded, spec_record, CommandSequence, ImageKind, IMAGE_BINDING, IMAGE_SET};
use crate::decode::{spec_decode, Raster};
use crate::error::GenerationError;
use crate::size::ImageSizeInfo;

verus! {

/// Where a generation stands: the step whose outcome it is waiting for, or
/// how it ended.
#[derive(Clone, Copy, Debug, PartialEq, Eq, Structural)]
pub enum Stage {
    /// The device image is being created.
    AwaitingImage,
    /// The compute kernel is being loaded.
    AwaitingKernel,
    /// The compute pipeline is being built from the kernel.
    AwaitingPipeline,
    /// The device image is being bound to the kernel's image slot.
    AwaitingDescriptor,
    /// The staging buffer is being created.
    AwaitingStaging,
    /// The command sequence is being recorded.
    AwaitingRecording,
    /// The command sequence is being submitted to the queue.
    AwaitingSubmission,
    /// The submitted work is being waited for.
    AwaitingCompletion,
    /// A wait ran out of time. The work is still in flight; the caller may
    /// wait again and report how that went.
    TimedOut,
    /// The work is done and the staging buffer holds the image.
    Complete,
    /// The generation ended with this error.
    Failed(GenerationError),
}

/// What came of the step that the generation asked for.
#[derive(Clone, Copy, Debug, PartialEq, Eq, Structural)]
pub enum Event {
    /// The step was carried out.
    Succeeded,
    /// The step was refused.
    Failed,
    /// The wait ended before the work did.
    TimedOut,
    /// The device was lost.
    DeviceLost,
}

/// How the pixels of the device image are laid out.
#[derive(Clone, Copy, Debug, PartialEq, Eq, Structural)]
pub enum PixelFormat {
    /// Red, green, blue and alpha, eight bits each, read as fractions of
    /// 255.
    Rgba8Unorm,
}

/// What the device image must be usable as.
#[derive(Clone, Copy, Debug, PartialEq, Eq, Structural)]
pub struct DeviceImageUsage {
    /// A kernel writes it as a storage image.
    pub storage: bool,
    /// A copy reads from it.
    pub transfer_source: bool,
    /// A clear writes to it.
    pub transfer_destination: bool,
}

/// What the caller is to do next.
#[derive(Clone, Copy, Debug, PartialEq, Eq, Structural)]
pub enum Action {
    /// Create a two-dimensional device image of this size, format and usage.
    /// Its content is undefined until the recorded commands write it.
    CreateDeviceImage { width: u32, height: u32, format: PixelFormat, usage: DeviceImageUsage },
    /// Load the compute kernel onto the device.
    LoadKernel,
    /// Build the compute pipeline from the kernel's entry point.
    LinkPipeline,
    /// Bind the device image to this slot of the pipeline's layout.
    BindDescriptor { set: u32, binding: u32 },
    /// Create a host-readable buffer of `byte_len` bytes, each `fill`, that
    /// a copy can write to if `transfer_destination` is set.
    CreateStagingBuffer { byte_len: usize, fill: u8, transfer_destination: bool },
    /// Record the commands that [`Generation::commands`] lists, in order.
    Record,
    /// Submit the recorded commands to the queue, once.
    Submit,
    /// Block until the submitted work is done, for at most this many
    /// nanoseconds, or for as long as it takes where none are given.
    Wait { timeout: Option<u64> },
    /// Read the staging buffer and decode it as an image of this size.
    Decode { width: u32, height: u32 },
    /// Give up and report this error.
    Fail { error: GenerationError },
}

/// No event changes a stage that is an end.
pub open spec fn is_terminal(stage: Stage) -> bool {
    stage is Complete || stage is Failed
}

/// The submitted work is in flight.
pub open spec fn is_in_flight(stage: Stage) -> bool {
    stage is AwaitingCompletion || stage is TimedOut
}

/// The error that an image without pixels fails with: the kernel cannot be
/// dispatched over an empty grid, and an image that is only cleared cannot
/// be created without an extent.
pub open spec fn empty_image_error(kind: ImageKind) -> GenerationError {
    match kind {
        ImageKind::MandelbrotSet => GenerationError::RecordingError,
        ImageKind::Simple => GenerationError::AllocationError,
    }
}

/// The stage a generation starts in. Sizes that cannot be planned for fail
/// before the device is asked for anything: both dimensions must be
/// positive, and an image larger than the address space cannot be allocated.
pub open spec fn first_stage(kind: ImageKind, size: ImageSizeInfo) -> Stage {
    if !size.spec_is_positive() {
        Stage::Failed(empty_image_error(kind))
    } else if size.spec_byte_len() > usize::MAX {
        Stage::Failed(GenerationError::AllocationError)
    } else {
        Stage::AwaitingImage
    }
}

/// What the device image of this kind is used as: the kernel stores into
/// it, a clear writes to it, and in both cases the copy into the staging
/// buffer reads from it.
pub open spec fn image_usage(kind: ImageKind) -> DeviceImageUsage {
    match kind {
        ImageKind::MandelbrotSet => DeviceImageUsage {
            storage: true,
            transfer_source: true,
            transfer_destination: false,
        },
        ImageKind::Simple => DeviceImageUsage {
            storage: false,
            transfer_source: true,
            transfer_destination: true,
        },
    }
}

/// The stage that follows `stage` once its step was carried out. Only the
/// kernel-drawn image needs a kernel, a pipeline and a binding.
pub open spec fn stage_after(kind: ImageKind, stage: Stage) -> Stage {
    match stage {
        Stage::AwaitingImage => match kind {
            ImageKind::MandelbrotSet => Stage::AwaitingKernel,
            ImageKind::Simple => Stage::AwaitingStaging,
        },
        Stage::AwaitingKernel => Stage::AwaitingPipeline,
        Stage::AwaitingPipeline => Stage::AwaitingDescriptor,
        Stage::AwaitingDescriptor => Stage::AwaitingStaging,
        Stage::AwaitingStaging => Stage::AwaitingRecording,
        Stage::AwaitingRecording => Stage::AwaitingSubmission,
        Stage::AwaitingSubmission => Stage::AwaitingCompletion,
        Stage::AwaitingCompletion => Stage::Complete,
        Stage::TimedOut => Stage::Complete,
        Stage::Complete => Stage::Complete,
        Stage::Failed(e) => Stage::Failed(e),
    }
}

/// The error that a refused step stands for.
pub open spec fn failure_of(stage: Stage) -> GenerationError {
    match stage {
        Stage::AwaitingImage => GenerationError::AllocationError,
        Stage::AwaitingKernel => GenerationError::KernelCompileError,
        Stage::AwaitingPipeline => GenerationError::PipelineLinkError,
        Stage::AwaitingDescriptor => GenerationError::LayoutMismatchError,
        Stage::AwaitingStaging => GenerationError::AllocationError,
        Stage::AwaitingRecording => GenerationError::RecordingError,
        Stage::AwaitingSubmission => GenerationError::DeviceLostError,
        Stage::AwaitingCompletion => GenerationError::DeviceLostError,
        Stage::TimedOut => GenerationError::DeviceLostError,
        Stage::Complete => GenerationError::DeviceLostError,
        Stage::Failed(e) => e,
    }
}

/// The stage after `event` was reported in `stage`.
///
/// An end stays what it is. Otherwise success moves on to the following
/// stage, a refusal and the loss of the device end the generation, and a
/// timeout while the work is in flight leaves it in flight. A timeout
/// reported for any other step counts as a refusal of that step.
pub open spec fn next_stage(kind: ImageKind, stage: Stage, event: Event) -> Stage {
    if is_terminal(stage) {
        stage
    } else {
        match event {
            Event::Succeeded => stage_after(kind, stage),
            Event::Failed => Stage::Failed(failure_of(stage)),
            Event::DeviceLost => Stage::Failed(GenerationError::DeviceLostError),
            Event::TimedOut => if is_in_flight(stage) {
                Stage::TimedOut
            } else {
                Stage::Failed(failure_of(stage))
            },
        }
    }
}

/// The step that is due in `stage` for an image of this kind and size.
pub open spec fn action_for(kind: ImageKind, size: ImageSizeInfo, stage: Stage) -> Action {
    match stage {
        Stage::AwaitingImage => Action::CreateDeviceImage {
            width: size.width,
            height: size.height,
            format: PixelFormat::Rgba8Unorm,
            usage: image_usage(kind),
        },
        Stage::AwaitingKernel => Action::LoadKernel,
        Stage::AwaitingPipeline => Action::LinkPipeline,
        Stage::AwaitingDescriptor => Action::BindDescriptor {
            set: IMAGE_SET,
            binding: IMAGE_BINDING,
        },
        Stage::AwaitingStaging => Action::CreateStagingBuffer {
            byte_len: size.spec_byte_len() as usize,
            fill: 0,
            transfer_destination: true,
        },
        Stage::AwaitingRecording => Action::Record,
        Stage::AwaitingSubmission => Action::Submit,
        Stage::AwaitingCompletion => Action::Wait { timeout: None },
        Stage::TimedOut => Action::Fail { error: GenerationError::TimeoutError },
        Stage::Complete => Action::Decode { width: size.width, height: size.height },
        Stage::Failed(error) => Action::Fail { error },
    }
}

/// The stage reached from `start` after the events were reported in order.
pub open spec fn run(kind: ImageKind, start: Stage, events: Seq<Event>) -> Stage
    decreases events.len(),
{
    if events.len() == 0 {
        start
    } else {
        next_stage(kind, run(kind, start, events.drop_last()), events.last())
    }
}

/// How far along a stage is. No event ever leads to a stage that is less
/// far along.
pub open spec fn progress(stage: Stage) -> nat {
    match stage {
        Stage::AwaitingImage => 0,
        Stage::AwaitingKernel => 1,
        Stage::AwaitingPipeline => 2,
        Stage::AwaitingDescriptor => 3,
        Stage::AwaitingStaging => 4,
        Stage::AwaitingRecording => 5,
        Stage::AwaitingSubmission => 6,
        Stage::AwaitingCompletion => 7,
        Stage::TimedOut => 8,
        Stage::Complete => 9,
        Stage::Failed(_) => 10,
    }
}

/// The stages that every successful generation of this kind passes through.
pub open spec fn on_path(kind: ImageKind, stage: Stage) -> bool {
    match stage {
        Stage::AwaitingKernel | Stage::AwaitingPipeline | Stage::AwaitingDescriptor => kind
            == ImageKind::MandelbrotSet,
        Stage::TimedOut | Stage::Failed(_) => false,
        _ => true,
    }
}

/// Whether `stage` can occur for an image of this kind and size: a
/// generation that has not failed has positive dimensions and a size that
/// was planned for, and only the kernel-drawn image passes through the
/// kernel stages.
pub open spec fn stage_is_sound(kind: ImageKind, size: ImageSizeInfo, stage: Stage) -> bool {
    &&& !(stage is Failed) ==> size.spec_is_positive() && size.spec_byte_len() <= usize::MAX
        && spec_record(kind, size) is Ok
    &&& kind == ImageKind::Simple ==> !(stage is AwaitingKernel || stage is AwaitingPipeline
        || stage is AwaitingDescriptor)
}

/// The state of one image generation.
#[derive(Clone, Copy, Debug)]
pub struct Generation {
    kind: ImageKind,
    size: ImageSizeInfo,
    byte_len: usize,
    stage: Stage,
}

impl Generation {
    /// The stage can occur for this kind and size, and the remembered byte
    /// count is that of the image.
    #[verifier::type_invariant]
    closed spec fn inv(&self) -> bool {
        &&& stage_is_sound(self.kind, self.size, self.stage)
        &&& !(self.stage is Failed) ==> self.byte_len == self.size.spec_byte_len()
    }

    /// Which image is generated.
    pub closed spec fn spec_kind(&self) -> ImageKind {
        self.kind
    }

    /// The size of the image.
    pub closed spec fn spec_size(&self) -> ImageSizeInfo {
        self.size
    }

    /// Where the generation stands.
    pub closed spec fn spec_stage(&self) -> Stage {
        self.stage
    }

    /// Starts a generation of an image of the given kind and size. A size
    /// that cannot be planned for gives a generation that has already
    /// failed.
    pub fn begin(kind: ImageKind, size: ImageSizeInfo) -> (r: Generation)
        ensures
            r.spec_kind() == kind,
            r.spec_size() == size,
            r.spec_stage() == first_stage(kind, size),
    {
        if !size.is_positive() {
            let error = match kind {
                ImageKind::MandelbrotSet => GenerationError::RecordingError,
                ImageKind::Simple => GenerationError::AllocationError,
            };
            return Generation { kind, size, byte_len: 0, stage: Stage::Failed(error) };
        }
        match size.byte_len() {
            None => Generation {
                kind,
                size,
                byte_len: 0,
                stage: Stage::Failed(GenerationError::AllocationError),
            },
            Some(byte_len) => Generation { kind, size, byte_len, stage: Stage::AwaitingImage },
        }
    }

    /// Which image is generated.
    #[verifier::when_used_as_spec(spec_kind)]
    pub fn kind(&self) -> (r: ImageKind)
        ensures
            r == self.spec_kind(),
    {
        self.kind
    }

    /// The size of the image.
    #[verifier::when_used_as_spec(spec_size)]
    pub fn size(&self) -> (r: ImageSizeInfo)
        ensures
            r == self.spec_size(),
    {
        self.size
    }

    /// Where the generation stands.
    #[verifier::when_used_as_spec(spec_stage)]
    pub fn stage(&self) -> (r: Stage)
        ensures
            r == self.spec_stage(),
            stage_is_sound(self.spec_kind(), self.spec_size(), r),
    {
        proof {
            use_type_invariant(self);
        }
        self.stage
    }

    /// The step that is due.
    pub fn pending(&self) -> (r: Action)
        ensures
            r == action_for(self.spec_kind(), self.spec_size(), self.spec_stage()),
            r matches Action::CreateDeviceImage { width, height, .. } ==> width > 0 && height > 0,
            r matches Action::CreateStagingBuffer { byte_len, .. } ==> byte_len > 0 && byte_len
                == self.spec_size().spec_byte_len(),
    {
        proof {
            use_type_invariant(self);
        }
        match self.stage {
            Stage::AwaitingImage => Action::CreateDeviceImage {
                width: self.size.width,
                height: self.size.height,
                format: PixelFormat::Rgba8Unorm,
                usage: usage_of(self.kind),
            },
            Stage::AwaitingKernel => Action::LoadKernel,
            Stage::AwaitingPipeline => Action::LinkPipeline,
            Stage::AwaitingDescriptor => Action::BindDescriptor {
                set: IMAGE_SET,
                binding: IMAGE_BINDING,
            },
            Stage::AwaitingStaging => {
                assert(self.size.spec_byte_len() > 0) by (nonlinear_arith)
                    requires
                        self.size.width > 0,
                        self.size.height > 0,
                        self.size.spec_byte_len() == self.size.width * self.size.height * 4,
                ;
                Action::CreateStagingBuffer {
                    byte_len: self.byte_len,
                    fill: 0,
                    transfer_destination: true,
                }
            },
            Stage::AwaitingRecording => Action::Record,
            Stage::AwaitingSubmission => Action::Submit,
            Stage::AwaitingCompletion => Action::Wait { timeout: None },
            Stage::TimedOut => Action::Fail { error: GenerationError::TimeoutError },
            Stage::Complete => Action::Decode { width: self.size.width, height: self.size.height },
            Stage::Failed(error) => Action::Fail { error },
        }
    }

    /// Takes in what came of the pending step and moves to the next stage.
    pub fn step(self, event: Event) -> (r: Generation)
        ensures
            r.spec_kind() == self.spec_kind(),
            r.spec_size() == self.spec_size(),
            r.spec_stage() == next_stage(self.spec_kind(), self.spec_stage(), event),
    {
        proof {
            use_type_invariant(&self);
        }
        let stage = match self.stage {
            Stage::Complete => Stage::Complete,
            Stage::Failed(e) => Stage::Failed(e),
            current => match event {
                Event::Succeeded => following(self.kind, current),
                Event::Failed => Stage::Failed(refusal(current)),
                Event::DeviceLost => Stage::Failed(GenerationError::DeviceLostError),
                Event::TimedOut => match current {
                    Stage::AwaitingCompletion | Stage::TimedOut => Stage::TimedOut,
                    _ => Stage::Failed(refusal(current)),
                },
            },
        };
        Generation { kind: self.kind, size: self.size, byte_len: self.byte_len, stage }
    }

    /// Takes in a whole series of reports, one after the other.
    pub fn advance(self, events: &[Event]) -> (r: Generation)
        ensures
            r.spec_kind() == self.spec_kind(),
            r.spec_size() == self.spec_size(),
            r.spec_stage() == run(self.spec_kind(), self.spec_stage(), events@),
    {
        let mut current = self;
        let mut done: usize = 0;
        while done < events.len()
            invariant
                done <= events@.len(),
                current.spec_kind() == self.spec_kind(),
                current.spec_size() == self.spec_size(),
                current.spec_stage() == run(
                    self.spec_kind(),
                    self.spec_stage(),
                    events@.take(done as int),
                ),
            decreases events@.len() - done,
        {
            let event = events[done];
            current = current.step(event);
            done = done + 1;
            assert(events@.take(done as int).drop_last() =~= events@.take(done - 1));
        }
        assert(events@.take(done as int) =~= events@);
        current
    }

    /// The commands to record for this image. A generation that has not
    /// failed always has them.
    pub fn commands(&self) -> (r: Result<CommandSequence, GenerationError>)
        ensures
            recorded(r) == spec_record(self.spec_kind(), self.spec_size()),
            !(self.spec_stage() is Failed) ==> r is Ok,
    {
        proof {
            use_type_invariant(self);
        }
        CommandSequence::record(self.kind, self.size)
    }
}

fn usage_of(kind: ImageKind) -> (r: DeviceImageUsage)
    ensures
        r == image_usage(kind),
{
    match kind {
        ImageKind::MandelbrotSet => DeviceImageUsage {
            storage: true,
            transfer_source: true,
            transfer_destination: false,
        },
        ImageKind::Simple => DeviceImageUsage {
            storage: false,
            transfer_source: true,
            transfer_destination: true,
        },
    }
}

fn following(kind: ImageKind, stage: Stage) -> (r: Stage)
    ensures
        r == stage_after(kind, stage),
{
    match stage {
        Stage::AwaitingImage => match kind {
            ImageKind::MandelbrotSet => Stage::AwaitingKernel,
            ImageKind::Simple => Stage::AwaitingStaging,
        },
        Stage::AwaitingKernel => Stage::AwaitingPipeline,
        Stage::AwaitingPipeline => Stage::AwaitingDescriptor,
        Stage::AwaitingDescriptor => Stage::AwaitingStaging,
        Stage::AwaitingStaging => Stage::AwaitingRecording,
        Stage::AwaitingRecording => Stage::AwaitingSubmission,
        Stage::AwaitingSubmission => Stage::AwaitingCompletion,
        Stage::AwaitingCompletion => Stage::Complete,
        Stage::TimedOut => Stage::Complete,
        Stage::Complete => Stage::Complete,
        Stage::Failed(e) => Stage::Failed(e),
    }
}

fn refusal(stage: Stage) -> (r: GenerationError)
    ensures
        r == failure_of(stage),
{
    match stage {
        Stage::AwaitingImage | Stage::AwaitingStaging => GenerationError::AllocationError,
        Stage::AwaitingKernel => GenerationError::KernelCompileError,
        Stage::AwaitingPipeline => GenerationError::PipelineLinkError,
        Stage::AwaitingDescriptor => GenerationError::LayoutMismatchError,
        Stage::AwaitingRecording => GenerationError::RecordingError,
        Stage::AwaitingSubmission | Stage::AwaitingCompletion | Stage::TimedOut | Stage::Complete =>
            GenerationError::DeviceLostError,
        Stage::Failed(e) => e,
    }
}

/// Starts the generation of the escape-time fractal image.
pub fn generate_mandelbrot_set_image(image_size_info: ImageSizeInfo) -> (r: Generation)
    ensures
        r.spec_kind() == ImageKind::MandelbrotSet,
        r.spec_size() == image_size_info,
        r.spec_stage() == first_stage(ImageKind::MandelbrotSet, image_size_info),
{
    Generation::begin(ImageKind::MandelbrotSet, image_size_info)
}

/// Starts the generation of the single-colour image.
pub fn generate_simple_image(image_size_info: ImageSizeInfo) -> (r: Generation)
    ensures
        r.spec_kind() == ImageKind::Simple,
        r.spec_size() == image_size_info,
        r.spec_stage() == first_stage(ImageKind::Simple, image_size_info),
{
    Generation::begin(ImageKind::Simple, image_size_info)
}

/// An end is final: whatever is reported after a failure or after
/// completion, the generation stays as it ended.
pub proof fn lemma_end_is_final(kind: ImageKind, end: Stage, events: Seq<Event>)
    requires
        is_terminal(end),
    ensures
        run(kind, end, events) == end,
    decreases events.len(),
{
    if events.len() > 0 {
        lemma_end_is_final(kind, end, events.drop_last());
    }
}

/// A generation only moves forward.
pub proof fn lemma_progress_never_falls(kind: ImageKind, start: Stage, events: Seq<Event>)
    ensures
        progress(run(kind, start, events)) >= progress(start),
    decreases events.len(),
{
    if events.len() > 0 {
        lemma_progress_never_falls(kind, start, events.drop_last());
    }
}

/// Running the events up to `middle` and then the rest is running them all.
pub proof fn lemma_run_splits(kind: ImageKind, start: Stage, events: Seq<Event>, middle: int)
    requires
        0 <= middle <= events.len(),
    ensures
        run(kind, start, events) == run(
            kind,
            run(kind, start, events.take(middle)),
            events.skip(middle),
        ),
    decreases events.len(),
{
    if middle == events.len() {
        assert(events.take(middle) =~= events);
        assert(events.skip(middle) =~= Seq::<Event>::empty());
    } else {
        let shorter = events.drop_last();
        lemma_run_splits(kind, start, shorter, middle);
        assert(shorter.take(middle) =~= events.take(middle));
        assert(shorter.skip(middle) =~= events.skip(middle).drop_last());
        assert(events.skip(middle).last() == events.last());
    }
}

/// The commands are submitted at most once: a generation that is due to
/// submit is never due to submit again at any later point.
pub proof fn lemma_submits_once(
    kind: ImageKind,
    start: Stage,
    events: Seq<Event>,
    earlier: int,
    later: int,
)
    requires
        0 <= earlier < later <= events.len(),
        run(kind, start, events.take(earlier)) is AwaitingSubmission,
    ensures
        !(run(kind, start, events.take(later)) is AwaitingSubmission),
{
    let upto = events.take(later);
    let at_earlier = run(kind, start, events.take(earlier));
    assert(upto.take(earlier) =~= events.take(earlier));
    lemma_run_splits(kind, start, upto, earlier + 1);
    let one_more = upto.take(earlier + 1);
    assert(one_more.drop_last() =~= events.take(earlier));
    assert(run(kind, start, one_more) == next_stage(kind, at_earlier, one_more.last()));
    assert(progress(run(kind, start, one_more)) > progress(at_earlier));
    lemma_progress_never_falls(kind, run(kind, start, one_more), upto.skip(earlier + 1));
}

/// Nothing is skipped: a generation that stands at a stage without having
/// failed has stood at every stage that lies on its way there, so an image
/// is asked to be decoded only after it was created, written by recorded
/// commands, submitted and waited for.
pub proof fn lemma_passes_every_stage(kind: ImageKind, events: Seq<Event>, stage: Stage)
    requires
        on_path(kind, stage),
        !(run(kind, Stage::AwaitingImage, events) is Failed),
        progress(stage) <= progress(run(kind, Stage::AwaitingImage, events)),
    ensures
        exists|count: int|
            0 <= count <= events.len() && #[trigger] run(
                kind,
                Stage::AwaitingImage,
                events.take(count),
            ) == stage,
    decreases events.len(),
{
    let start = Stage::AwaitingImage;
    if events.len() == 0 {
        assert(events.take(0) =~= events);
        assert(run(kind, start, events.take(0)) == stage);
    } else {
        let shorter = events.drop_last();
        let before = run(kind, start, shorter);
        lemma_reachable_is_on_path(kind, shorter);
        if progress(stage) <= progress(before) {
            lemma_passes_every_stage(kind, shorter, stage);
            let count = choose|count: int|
                0 <= count <= shorter.len() && #[trigger] run(kind, start, shorter.take(count))
                    == stage;
            assert(shorter.take(count) =~= events.take(count));
            assert(run(kind, start, events.take(count)) == stage);
        } else {
            assert(events.take(events.len() as int) =~= events);
            assert(run(kind, start, events.take(events.len() as int)) == stage);
        }
    }
}

/// From the first stage only stages on the way of the image's kind are
/// reached, besides a timeout and failures.
pub proof fn lemma_reachable_is_on_path(kind: ImageKind, events: Seq<Event>)
    ensures
        ({
            let reached = run(kind, Stage::AwaitingImage, events);
            on_path(kind, reached) || reached is TimedOut || reached is Failed
        }),
    decreases events.len(),
{
    if events.len() > 0 {
        lemma_reachable_is_on_path(kind, events.drop_last());
    }
}

/// An image without pixels is refused before the device is asked for
/// anything, and stays refused whatever is reported: no step is ever due but
/// to report the error.
pub proof fn lemma_empty_image_is_refused(
    kind: ImageKind,
    size: ImageSizeInfo,
    events: Seq<Event>,
)
    requires
        size.width == 0 || size.height == 0,
    ensures
        first_stage(kind, size) == Stage::Failed(empty_image_error(kind)),
        run(kind, first_stage(kind, size), events) == first_stage(kind, size),
        action_for(kind, size, run(kind, first_stage(kind, size), events)) == (Action::Fail {
            error: empty_image_error(kind),
        }),
{
    lemma_end_is_final(kind, first_stage(kind, size), events);
}

/// The staging buffer that a generation asks for is the one that it asks to
/// be decoded: whatever bytes the device leaves in a buffer of the planned
/// length, they decode to an image of the generation's dimensions with four
/// bytes for every pixel.
pub proof fn lemma_staging_buffer_decodes(kind: ImageKind, size: ImageSizeInfo, staging: Seq<u8>)
    requires
        size.spec_byte_len() <= usize::MAX,
        staging.len() == size.spec_byte_len(),
    ensures
        action_for(kind, size, Stage::AwaitingStaging) == (Action::CreateStagingBuffer {
            byte_len: staging.len() as usize,
            fill: 0,
            transfer_destination: true,
        }),
        action_for(kind, size, Stage::Complete) == (Action::Decode {
            width: size.width,
            height: size.height,
        }),
        spec_decode(staging, size.width, size.height) == Ok::<Raster, GenerationError>(
            Raster { width: size.width, height: size.height, bytes: staging },
        ),
        staging.len() == size.width * size.height * 4,
{
    assert(4 * size.width * size.height == size.width * size.height * 4) by (nonlinear_arith);
}

/// What the library decides depends on the kind and the dimensions alone:
/// two generations of equal kind and dimensions start alike, and after equal
/// reports stand at the same stage, ask for the same step and record the
/// same commands. Where the two devices then leave the same bytes in the
/// staging buffers, the decoded images are the same. That a device leaves
/// the same bytes for the same commands is the device's to keep.
pub proof fn lemma_generation_is_deterministic(
    kind: ImageKind,
    first: ImageSizeInfo,
    second: ImageSizeInfo,
    events: Seq<Event>,
    first_staging: Seq<u8>,
    second_staging: Seq<u8>,
)
    requires
        first.width == second.width,
        first.height == second.height,
        first_staging.len() == second_staging.len(),
        forall|i: int| 0 <= i < first_staging.len() ==> first_staging[i] == second_staging[i],
    ensures
        first_stage(kind, first) == first_stage(kind, second),
        run(kind, first_stage(kind, first), events) == run(
            kind,
            first_stage(kind, second),
            events,
        ),
        action_for(kind, first, run(kind, first_stage(kind, first), events)) == action_for(
            kind,
            second,
            run(kind, first_stage(kind, second), events),
        ),
        spec_record(kind, first) == spec_record(kind, second),
        spec_decode(first_staging, first.width, first.height) == spec_decode(
            second_staging,
            second.width,
            second.height,
        ),
{
    assert(first_staging =~= second_staging);
}

} // verus!
