//! Rendering one frame: acquire, submit, present, drain.
//!
//! The driver calls belong to the caller.  [`next`] takes the phase that the
//! frame is in and what the driver just reported, and answers with the next
//! phase and the next call to make.  Two semaphores order the work on the
//! device, and the frame ends with a wait for the present queue, so one frame
//! at most is in flight.
use vstd::prelude::*;
use crate::error::FatalError;
use crate::pipeline::PipelineStage;

verus! {

/// The two semaphores, shared by all frames.
#[derive(Clone, Copy, Debug, PartialEq, Eq, Structural)]
pub enum FrameSemaphore {
    /// Signalled when the acquired image may be written.
    ImageAvailable,
    /// Signalled when the commands of the frame have run.
    RenderFinished,
}

/// The semaphores in the order of their creation.
pub fn frame_semaphores() -> (r: Vec<FrameSemaphore>)
    ensures
        r@ == seq![FrameSemaphore::ImageAvailable, FrameSemaphore::RenderFinished],
{
    let r = vec![FrameSemaphore::ImageAvailable, FrameSemaphore::RenderFinished];
    assert(r@ =~= seq![FrameSemaphore::ImageAvailable, FrameSemaphore::RenderFinished]);
    r
}

/// The two queues of the logical device.
#[derive(Clone, Copy, Debug, PartialEq, Eq, Structural)]
pub enum QueueRole {
    /// The queue that runs the command buffers.
    Graphics,
    /// The queue that presents images.
    Present,
}

/// Where a frame stands.
#[derive(Clone, Copy, Debug, PartialEq, Eq, Structural)]
pub enum FramePhase {
    /// No frame is in flight.
    Ready,
    /// The next image was asked for.
    Acquiring,
    /// The commands for the image with this index were submitted.
    Submitting { image_index: u32 },
    /// The presentation of the image with this index was asked for.
    Presenting { image_index: u32 },
    /// The wait for the present queue is on.
    Draining,
    /// The frame failed; nothing more is rendered.
    Failed,
}

/// What the caller reports.
#[derive(Clone, Copy, Debug, PartialEq, Eq, Structural)]
pub enum FrameEvent {
    /// The event loop asks for a frame.
    Begin,
    /// The swapchain handed out the image with this index.
    ImageAcquired(u32),
    /// The call that was asked for returned with success.
    Completed,
    /// The call that was asked for failed with this result code.
    DriverError(i32),
}

/// The next call to make.
#[derive(Clone, Copy, Debug, PartialEq, Eq, Structural)]
pub enum FrameAction {
    /// Ask the swapchain for the next image, waiting at most `timeout`
    /// nanoseconds, and have `signal` signalled when the image is free.
    Acquire { timeout: u64, signal: FrameSemaphore },
    /// Submit the command buffer with this index to `queue`.  The work waits
    /// for `wait` at stage `wait_stage` and signals `signal` when it is done.
    Submit {
        queue: QueueRole,
        command_buffer: u32,
        wait: FrameSemaphore,
        wait_stage: PipelineStage,
        signal: FrameSemaphore,
    },
    /// Ask `queue` to present the image with this index once `wait` is
    /// signalled.
    Present { queue: QueueRole, image_index: u32, wait: FrameSemaphore },
    /// Block until `queue` is idle.
    WaitIdle { queue: QueueRole },
    /// The frame is done: hand control back to the event loop.
    Finish,
    /// Give up with this error.
    Abort(FatalError),
}

/// The next phase and the next call, for `command_buffers` recorded command
/// buffers.
pub open spec fn spec_next(phase: FramePhase, event: FrameEvent, command_buffers: nat) -> (
    FramePhase,
    FrameAction,
) {
    match (phase, event) {
        (_, FrameEvent::DriverError(code)) => (
            FramePhase::Failed,
            FrameAction::Abort(FatalError::DriverFailure(code)),
        ),
        (FramePhase::Ready, FrameEvent::Begin) => (
            FramePhase::Acquiring,
            FrameAction::Acquire { timeout: u64::MAX, signal: FrameSemaphore::ImageAvailable },
        ),
        (FramePhase::Acquiring, FrameEvent::ImageAcquired(image_index)) => if image_index
            < command_buffers {
            (
                FramePhase::Submitting { image_index },
                FrameAction::Submit {
                    queue: QueueRole::Graphics,
                    command_buffer: image_index,
                    wait: FrameSemaphore::ImageAvailable,
                    wait_stage: PipelineStage::ColorAttachmentOutput,
                    signal: FrameSemaphore::RenderFinished,
                },
            )
        } else {
            (FramePhase::Failed, FrameAction::Abort(FatalError::ImageIndexOutOfRange))
        },
        (FramePhase::Submitting { image_index }, FrameEvent::Completed) => (
            FramePhase::Presenting { image_index },
            FrameAction::Present {
                queue: QueueRole::Present,
                image_index,
                wait: FrameSemaphore::RenderFinished,
            },
        ),
        (FramePhase::Presenting { image_index }, FrameEvent::Completed) => (
            FramePhase::Draining,
            FrameAction::WaitIdle { queue: QueueRole::Present },
        ),
        (FramePhase::Draining, FrameEvent::Completed) => (FramePhase::Ready, FrameAction::Finish),
        _ => (FramePhase::Failed, FrameAction::Abort(FatalError::OutOfSequence)),
    }
}

/// Takes what the driver reported and says what to do next.
///
/// A frame runs through four calls in a fixed order: acquire the next image,
/// submit the command buffer recorded for that image, present the image, wait
/// for the present queue.  Any failure of a call, an image index without a
/// command buffer, and any event out of turn end in `Failed` with an `Abort`.
pub fn next(phase: FramePhase, event: FrameEvent, command_buffers: usize) -> (r: (
    FramePhase,
    FrameAction,
))
    ensures
        r == spec_next(phase, event, command_buffers as nat),
{
    match event {
        FrameEvent::DriverError(code) => (
            FramePhase::Failed,
            FrameAction::Abort(FatalError::DriverFailure(code)),
        ),
        FrameEvent::Begin => match phase {
            FramePhase::Ready => (
                FramePhase::Acquiring,
                FrameAction::Acquire { timeout: u64::MAX, signal: FrameSemaphore::ImageAvailable },
            ),
            _ => out_of_sequence(),
        },
        FrameEvent::ImageAcquired(image_index) => match phase {
            FramePhase::Acquiring => {
                if (image_index as usize) < command_buffers {
                    (
                        FramePhase::Submitting { image_index },
                        FrameAction::Submit {
                            queue: QueueRole::Graphics,
                            command_buffer: image_index,
                            wait: FrameSemaphore::ImageAvailable,
                            wait_stage: PipelineStage::ColorAttachmentOutput,
                            signal: FrameSemaphore::RenderFinished,
                        },
                    )
                } else {
                    (FramePhase::Failed, FrameAction::Abort(FatalError::ImageIndexOutOfRange))
                }
            },
            _ => out_of_sequence(),
        },
        FrameEvent::Completed => match phase {
            FramePhase::Submitting { image_index } => (
                FramePhase::Presenting { image_index },
                FrameAction::Present {
                    queue: QueueRole::Present,
                    image_index,
                    wait: FrameSemaphore::RenderFinished,
                },
            ),
            FramePhase::Presenting { image_index } => (
                FramePhase::Draining,
                FrameAction::WaitIdle { queue: QueueRole::Present },
            ),
            FramePhase::Draining => (FramePhase::Ready, FrameAction::Finish),
            _ => out_of_sequence(),
        },
    }
}

fn out_of_sequence() -> (r: (FramePhase, FrameAction))
    ensures
        r == (FramePhase::Failed, FrameAction::Abort(FatalError::OutOfSequence)),
{
    (FramePhase::Failed, FrameAction::Abort(FatalError::OutOfSequence))
}

/// A frame whose calls all succeed runs through acquire, submit, present and
/// drain, in this order, for the image that the swapchain handed out, and
/// ends where it began.
pub proof fn lemma_frame_runs_in_order(image_index: u32, command_buffers: nat)
    requires
        image_index < command_buffers,
    ensures
        spec_next(FramePhase::Ready, FrameEvent::Begin, command_buffers) == (
            FramePhase::Acquiring,
            FrameAction::Acquire { timeout: u64::MAX, signal: FrameSemaphore::ImageAvailable },
        ),
        spec_next(FramePhase::Acquiring, FrameEvent::ImageAcquired(image_index), command_buffers)
            == (
            FramePhase::Submitting { image_index },
            FrameAction::Submit {
                queue: QueueRole::Graphics,
                command_buffer: image_index,
                wait: FrameSemaphore::ImageAvailable,
                wait_stage: PipelineStage::ColorAttachmentOutput,
                signal: FrameSemaphore::RenderFinished,
            },
        ),
        spec_next(FramePhase::Submitting { image_index }, FrameEvent::Completed, command_buffers)
            == (
            FramePhase::Presenting { image_index },
            FrameAction::Present {
                queue: QueueRole::Present,
                image_index,
                wait: FrameSemaphore::RenderFinished,
            },
        ),
        spec_next(FramePhase::Presenting { image_index }, FrameEvent::Completed, command_buffers)
            == (FramePhase::Draining, FrameAction::WaitIdle { queue: QueueRole::Present }),
        spec_next(FramePhase::Draining, FrameEvent::Completed, command_buffers) == (
            FramePhase::Ready,
            FrameAction::Finish,
        ),
{
}

/// One frame at most is in flight, and no image is presented before its
/// commands were submitted.
///
/// An image is asked for only when no frame is in flight.  Commands are
/// submitted only for the image that was just acquired, and only if a command
/// buffer was recorded for it.  An image is presented only after the
/// submission for that same image returned, and the present waits for the
/// semaphore that the submission signals.  No frame is in flight again until
/// the wait for the present queue has returned.
pub proof fn lemma_frame_is_synchronised(
    phase: FramePhase,
    event: FrameEvent,
    command_buffers: nat,
)
    ensures
        ({
            let (after, action) = spec_next(phase, event, command_buffers);
            &&& action is Acquire ==> phase == FramePhase::Ready && event == FrameEvent::Begin
            &&& action matches FrameAction::Submit {
                queue,
                command_buffer,
                wait,
                wait_stage,
                signal,
            } ==> {
                &&& phase == FramePhase::Acquiring
                &&& event == FrameEvent::ImageAcquired(command_buffer)
                &&& command_buffer < command_buffers
                &&& queue == QueueRole::Graphics
                &&& wait == FrameSemaphore::ImageAvailable
                &&& signal == FrameSemaphore::RenderFinished
            }
            &&& action matches FrameAction::Present { queue, image_index, wait } ==> {
                &&& phase == (FramePhase::Submitting { image_index })
                &&& event == FrameEvent::Completed
                &&& queue == QueueRole::Present
                &&& wait == FrameSemaphore::RenderFinished
            }
            &&& action matches FrameAction::WaitIdle { queue } ==> {
                &&& phase is Presenting
                &&& event == FrameEvent::Completed
                &&& queue == QueueRole::Present
            }
            &&& after == FramePhase::Ready ==> phase == FramePhase::Draining && event
                == FrameEvent::Completed
            &&& phase == FramePhase::Failed ==> after == FramePhase::Failed && action is Abort
            &&& event is DriverError ==> after == FramePhase::Failed && action is Abort
        }),
{
}

} // verus!
