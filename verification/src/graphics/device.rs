//! The timeline of the device, as far as the picker value depends on it.
//!
//! The device runs behind the engine: command buffers that are submitted in
//! one frame are finished by the time the engine has waited for the device
//! in the next. This module states that timeline as a model, and what
//! follows from it for the value under the cursor.

use vstd::prelude::*;

use crate::graphics::engine::{frame_commands, frame_steps, frame_submission, submission_order, FrameStep};
use crate::graphics::frame::picker::{copies, lemma_frame_copies_texel_under_cursor};
use crate::graphics::frame::picker_texel;
use crate::graphics::instruction::RenderInstruction;
use crate::graphics::passes::{Command, CommandBufferKind, RecordedCommands};
use crate::graphics::settings::ScreenSize;

verus! {

/// A texel of the picker texture of one frame.
pub struct PickerQuery {
    /// The number of the frame, counted from zero in the order of
    /// submission.
    pub frame: nat,
    pub x: u32,
    pub y: u32,
}

/// What the device holds of the picker.
pub struct Device {
    /// The number of frames that were submitted.
    pub frames_submitted: nat,
    /// The texel whose copy was submitted and is not known to be finished.
    pub in_flight: Option<PickerQuery>,
    /// The texel that the picker value buffer holds.
    pub picker_buffer: Option<PickerQuery>,
    /// Whether a read of the picker value buffer is queued.
    pub read_queued: bool,
    /// The texel whose value the CPU has read.
    pub picker_value: Option<PickerQuery>,
}

/// The copies into the picker value buffer among the commands of a
/// submission, in the order in which the device runs them.
pub open spec fn submitted_copies(submission: Seq<RecordedCommands>) -> Seq<Command>
    decreases submission.len(),
{
    if submission.len() == 0 {
        Seq::empty()
    } else {
        submitted_copies(submission.drop_last()) + submission.last().commands.filter(copies())
    }
}

impl Device {
    /// A device that nothing was submitted to.
    pub open spec fn fresh() -> Device {
        Device { frames_submitted: 0, in_flight: None, picker_buffer: None, read_queued: false, picker_value: None }
    }

    /// Every texel that the device holds belongs to a frame that was
    /// submitted.
    pub open spec fn wf(self) -> bool {
        &&& self.in_flight.is_some() ==> self.in_flight.unwrap().frame < self.frames_submitted
        &&& self.picker_buffer.is_some() ==> self.picker_buffer.unwrap().frame < self.frames_submitted
        &&& self.picker_value.is_some() ==> self.picker_value.unwrap().frame < self.frames_submitted
    }

    /// What the picker value buffer holds once the device has finished all
    /// that was submitted.
    pub open spec fn finished_buffer(self) -> Option<PickerQuery> {
        if self.in_flight.is_some() {
            self.in_flight
        } else {
            self.picker_buffer
        }
    }

    /// The device after the engine has waited for it: what was submitted is
    /// finished, and a queued read has delivered what the buffer holds.
    pub open spec fn waited(self) -> Device {
        Device {
            in_flight: None,
            picker_buffer: self.finished_buffer(),
            read_queued: false,
            picker_value: if self.read_queued {
                self.finished_buffer()
            } else {
                self.picker_value
            },
            ..self
        }
    }

    /// The device after the command buffers of a frame were submitted. The
    /// device has not run them yet.
    pub open spec fn submitted(self, submission: Seq<RecordedCommands>) -> Device {
        let copied = submitted_copies(submission);
        Device {
            frames_submitted: self.frames_submitted + 1,
            in_flight: if copied.len() > 0 {
                match copied.last() {
                    Command::CopyPickerTexel { x, y } => Some(PickerQuery { frame: self.frames_submitted, x, y }),
                    _ => self.in_flight,
                }
            } else {
                self.in_flight
            },
            ..self
        }
    }

    /// The device after one step of a frame.
    pub open spec fn step(self, step: FrameStep, submission: Seq<RecordedCommands>) -> Device {
        match step {
            FrameStep::QueuePickerValue => Device { read_queued: true, ..self },
            FrameStep::WaitForDevice => self.waited(),
            FrameStep::Submit => self.submitted(submission),
            _ => self,
        }
    }

    /// The device after the steps of a frame, taken in their order.
    pub open spec fn run(self, steps: Seq<FrameStep>, submission: Seq<RecordedCommands>) -> Device
        decreases steps.len(),
    {
        if steps.len() == 0 {
            self
        } else {
            self.run(steps.drop_last(), submission).step(steps.last(), submission)
        }
    }

    /// The device after the engine rendered a frame for `instruction`.
    pub open spec fn rendered(
        self,
        instruction: RenderInstruction,
        picker_extent: ScreenSize,
        debug_overlays: bool,
    ) -> Device {
        self.run(frame_steps(), frame_submission(instruction, picker_extent, debug_overlays))
    }
}

/// The command that copies the texel under the cursor of `instruction`.
pub open spec fn cursor_copy(instruction: RenderInstruction, picker_extent: ScreenSize) -> Command {
    Command::CopyPickerTexel {
        x: picker_texel(picker_extent, instruction.picker_position).0,
        y: picker_texel(picker_extent, instruction.picker_position).1,
    }
}

/// The texel under the cursor of `instruction`, as a texel of the frame
/// with the given number.
pub open spec fn cursor_query(frame: nat, instruction: RenderInstruction, picker_extent: ScreenSize) -> PickerQuery {
    PickerQuery {
        frame,
        x: picker_texel(picker_extent, instruction.picker_position).0,
        y: picker_texel(picker_extent, instruction.picker_position).1,
    }
}

proof fn lemma_copies_of_seven(submission: Seq<RecordedCommands>, copy: Command)
    requires
        submission.len() == 7,
        submission[0].commands.filter(copies()) == Seq::<Command>::empty(),
        submission[1].commands.filter(copies()) == Seq::<Command>::empty(),
        submission[2].commands.filter(copies()) == seq![copy],
        submission[3].commands.filter(copies()) == Seq::<Command>::empty(),
        submission[4].commands.filter(copies()) == Seq::<Command>::empty(),
        submission[5].commands.filter(copies()) == Seq::<Command>::empty(),
        submission[6].commands.filter(copies()) == Seq::<Command>::empty(),
    ensures
        submitted_copies(submission) == seq![copy],
{
    let empty = Seq::<Command>::empty();
    let s6 = submission.drop_last();
    let s5 = s6.drop_last();
    let s4 = s5.drop_last();
    let s3 = s4.drop_last();
    let s2 = s3.drop_last();
    let s1 = s2.drop_last();
    let s0 = s1.drop_last();
    assert(submitted_copies(s0) == empty);
    assert(s1.last() == submission[0]);
    assert(submitted_copies(s1) =~= empty);
    assert(s2.last() == submission[1]);
    assert(submitted_copies(s2) =~= empty);
    assert(s3.last() == submission[2]);
    assert(submitted_copies(s3) =~= seq![copy]);
    assert(s4.last() == submission[3]);
    assert(submitted_copies(s4) =~= seq![copy]);
    assert(s5.last() == submission[4]);
    assert(submitted_copies(s5) =~= seq![copy]);
    assert(s6.last() == submission[5]);
    assert(submitted_copies(s6) =~= seq![copy]);
    assert(submission.last() == submission[6]);
    assert(submitted_copies(submission) =~= seq![copy]);
}

proof fn lemma_copies_of_kind(
    kind: CommandBufferKind,
    instruction: RenderInstruction,
    picker_extent: ScreenSize,
    debug_overlays: bool,
)
    ensures
        frame_commands(kind, instruction, picker_extent, debug_overlays).filter(copies()) == if kind
            == CommandBufferKind::Picker {
            seq![cursor_copy(instruction, picker_extent)]
        } else {
            Seq::<Command>::empty()
        },
{
    reveal(frame_commands);
    lemma_frame_copies_texel_under_cursor(instruction, picker_extent, debug_overlays);
}

proof fn lemma_frame_copies(instruction: RenderInstruction, picker_extent: ScreenSize, debug_overlays: bool)
    ensures
        submitted_copies(frame_submission(instruction, picker_extent, debug_overlays)) == seq![
            cursor_copy(instruction, picker_extent),
        ],
{
    let submission = frame_submission(instruction, picker_extent, debug_overlays);
    lemma_copies_of_kind(CommandBufferKind::Prepare, instruction, picker_extent, debug_overlays);
    lemma_copies_of_kind(CommandBufferKind::Interface, instruction, picker_extent, debug_overlays);
    lemma_copies_of_kind(CommandBufferKind::Picker, instruction, picker_extent, debug_overlays);
    lemma_copies_of_kind(CommandBufferKind::DirectionalShadow, instruction, picker_extent, debug_overlays);
    lemma_copies_of_kind(CommandBufferKind::PointShadow, instruction, picker_extent, debug_overlays);
    lemma_copies_of_kind(CommandBufferKind::Geometry, instruction, picker_extent, debug_overlays);
    lemma_copies_of_kind(CommandBufferKind::Screen, instruction, picker_extent, debug_overlays);
    assert(submission_order()[0] == CommandBufferKind::Prepare);
    assert(submission_order()[1] == CommandBufferKind::Interface);
    assert(submission_order()[2] == CommandBufferKind::Picker);
    assert(submission_order()[3] == CommandBufferKind::DirectionalShadow);
    assert(submission_order()[4] == CommandBufferKind::PointShadow);
    assert(submission_order()[5] == CommandBufferKind::Geometry);
    assert(submission_order()[6] == CommandBufferKind::Screen);
    lemma_copies_of_seven(submission, cursor_copy(instruction, picker_extent));
}

/// What one frame does to the device: the value that the CPU reads in a
/// frame is the one that the device had finished or was working on before
/// the frame, and the texel under the frame's own cursor is left in flight.
pub proof fn lemma_frame_reads_before_it_submits(
    device: Device,
    instruction: RenderInstruction,
    picker_extent: ScreenSize,
    debug_overlays: bool,
)
    ensures
        ({
            let after = device.rendered(instruction, picker_extent, debug_overlays);
            &&& after.frames_submitted == device.frames_submitted + 1
            &&& after.picker_value == device.finished_buffer()
            &&& after.picker_buffer == device.finished_buffer()
            &&& after.in_flight == Some(cursor_query(device.frames_submitted, instruction, picker_extent))
            &&& !after.read_queued
            &&& device.wf() ==> after.wf()
        }),
{
    let submission = frame_submission(instruction, picker_extent, debug_overlays);
    lemma_frame_copies(instruction, picker_extent, debug_overlays);
    let steps = frame_steps();
    let s9 = steps.drop_last();
    let s8 = s9.drop_last();
    let s7 = s8.drop_last();
    let s6 = s7.drop_last();
    let s5 = s6.drop_last();
    let s4 = s5.drop_last();
    let s3 = s4.drop_last();
    let s2 = s3.drop_last();
    let s1 = s2.drop_last();
    let s0 = s1.drop_last();
    assert(device.run(s0, submission) == device);
    assert(s1.last() == FrameStep::RecallStagingBelt);
    assert(device.run(s1, submission) == device);
    assert(s2.last() == FrameStep::Prepare);
    assert(device.run(s2, submission) == device);
    assert(s3.last() == FrameStep::Upload);
    assert(device.run(s3, submission) == device);
    assert(s4.last() == FrameStep::Draw);
    assert(device.run(s4, submission) == device);
    assert(s5.last() == FrameStep::FinishStagingBelt);
    assert(device.run(s5, submission) == device);
    assert(s6.last() == FrameStep::QueuePickerValue);
    let queued = Device { read_queued: true, ..device };
    assert(device.run(s6, submission) == queued);
    assert(s7.last() == FrameStep::WaitForDevice);
    assert(device.run(s7, submission) == queued.waited());
    assert(s8.last() == FrameStep::Submit);
    assert(device.run(s8, submission) == queued.waited().submitted(submission));
    assert(s9.last() == FrameStep::Present);
    assert(device.run(s9, submission) == queued.waited().submitted(submission));
    assert(steps.last() == FrameStep::EndFrameStage);
    assert(device.run(steps, submission) == queued.waited().submitted(submission));
}

/// The value under the cursor is one frame late: after two frames in a row,
/// the CPU has read the texel that lay under the cursor of the first frame,
/// as the first frame rendered it. The texel of the second frame is still
/// in flight, and is never the one that was read.
pub proof fn lemma_picker_value_is_one_frame_late(
    device: Device,
    first: RenderInstruction,
    second: RenderInstruction,
    picker_extent: ScreenSize,
    debug_overlays: bool,
)
    ensures
        ({
            let after_first = device.rendered(first, picker_extent, debug_overlays);
            let after_second = after_first.rendered(second, picker_extent, debug_overlays);
            &&& after_second.picker_value == Some(cursor_query(device.frames_submitted, first, picker_extent))
            &&& after_second.in_flight == Some(
                cursor_query(device.frames_submitted + 1, second, picker_extent),
            )
            &&& after_second.picker_value != after_second.in_flight
            &&& device.wf() ==> after_first.picker_value != after_first.in_flight
        }),
{
    lemma_frame_reads_before_it_submits(device, first, picker_extent, debug_overlays);
    lemma_frame_reads_before_it_submits(
        device.rendered(first, picker_extent, debug_overlays),
        second,
        picker_extent,
        debug_overlays,
    );
}

} // verus!
