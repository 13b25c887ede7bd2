use vstd::prelude::*;

verus! {

/// What the loop holds as the completion of the previous frame's GPU work.
#[derive(Clone, Copy, Debug, PartialEq, Eq, Structural)]
pub enum FrameEnd {
    /// A placeholder that is already signalled: there is nothing to wait for.
    Ready,
    /// The completion of the last submitted and presented frame.
    InFlight,
}

/// Where the loop stands within one frame.
#[derive(Clone, Copy, Debug, PartialEq, Eq, Structural)]
pub enum FramePhase {
    /// Between frames.
    Idle,
    /// The swapchain and its per-image resources are being rebuilt.
    Recreating,
    /// The next swapchain image is being acquired.
    Acquiring,
    /// The command buffer was submitted and the image handed to presentation.
    Presenting,
}

/// How acquiring the next swapchain image went.
#[derive(Clone, Copy, Debug, PartialEq, Eq, Structural)]
pub enum AcquireOutcome {
    /// The image at this index is ready to be drawn into.
    Acquired(usize),
    /// The surface no longer matches the swapchain.
    OutOfDate,
    /// Any other failure.
    Failed,
}

/// How submitting, presenting and flushing a frame went.
#[derive(Clone, Copy, Debug, PartialEq, Eq, Structural)]
pub enum FlushOutcome {
    Flushed,
    /// The surface no longer matches the swapchain.
    OutOfDate,
    /// Any other failure.
    Failed,
}

/// What the loop does first in a frame.
#[derive(Clone, Copy, Debug, PartialEq, Eq, Structural)]
pub enum FrameStart {
    RecreateSwapchain,
    AcquireImage,
}

/// What the loop does once an image was asked for.
#[derive(Clone, Copy, Debug, PartialEq, Eq, Structural)]
pub enum AcquireDecision {
    /// Join the previous frame's completion with the image's readiness, then submit the
    /// command buffer of this image and present it.
    Submit(usize),
    /// Submit nothing this frame.
    Skip,
    /// The failure cannot be recovered from.
    Abort,
}

/// What the loop does once a frame was flushed.
#[derive(Clone, Copy, Debug, PartialEq, Eq, Structural)]
pub enum FlushDecision {
    /// Keep the frame's completion as the previous frame's end.
    KeepCompletion,
    /// Replace the previous frame's end by a signalled placeholder.
    ResetToReady,
    /// Report the failure, then replace the previous frame's end by a signalled placeholder.
    ReportAndReset,
}

/// The decisions of the presentation loop: when to rebuild the swapchain, whether to
/// submit, and what to hold as the previous frame's end.
#[derive(Clone, Copy, Debug, PartialEq, Eq, Structural)]
pub struct FrameLoop {
    pub recreate_swap_chain: bool,
    pub previous_frame_end: FrameEnd,
    pub phase: FramePhase,
}

impl FrameLoop {
    /// Between frames, with a freshly built swapchain and no GPU work outstanding.
    pub fn new() -> (r: FrameLoop)
        ensures
            r.phase == FramePhase::Idle,
            !r.recreate_swap_chain,
            r.previous_frame_end == FrameEnd::Ready,
    {
        FrameLoop {
            recreate_swap_chain: false,
            previous_frame_end: FrameEnd::Ready,
            phase: FramePhase::Idle,
        }
    }

    /// Starts a frame: a pending rebuild of the swapchain comes before acquiring an image.
    pub fn begin_frame(&mut self) -> (r: FrameStart)
        requires
            old(self).phase == FramePhase::Idle,
        ensures
            r == (if old(self).recreate_swap_chain {
                FrameStart::RecreateSwapchain
            } else {
                FrameStart::AcquireImage
            }),
            final(self).phase == (if old(self).recreate_swap_chain {
                FramePhase::Recreating
            } else {
                FramePhase::Acquiring
            }),
            final(self).recreate_swap_chain == old(self).recreate_swap_chain,
            final(self).previous_frame_end == old(self).previous_frame_end,
    {
        if self.recreate_swap_chain {
            self.phase = FramePhase::Recreating;
            FrameStart::RecreateSwapchain
        } else {
            self.phase = FramePhase::Acquiring;
            FrameStart::AcquireImage
        }
    }

    /// The swapchain and all its per-image resources were rebuilt.
    pub fn swap_chain_recreated(&mut self)
        requires
            old(self).phase == FramePhase::Recreating,
        ensures
            final(self).phase == FramePhase::Acquiring,
            !final(self).recreate_swap_chain,
            final(self).previous_frame_end == old(self).previous_frame_end,
    {
        self.recreate_swap_chain = false;
        self.phase = FramePhase::Acquiring;
    }

    /// Decides on the outcome of acquiring an image from a swapchain of `image_count`
    /// images. An out-of-date surface submits nothing and asks for a rebuild before the
    /// next frame.
    pub fn image_acquired(&mut self, outcome: AcquireOutcome, image_count: usize) -> (r: AcquireDecision)
        requires
            old(self).phase == FramePhase::Acquiring,
        ensures
            final(self).previous_frame_end == old(self).previous_frame_end,
            match outcome {
                AcquireOutcome::Acquired(i) => if i < image_count {
                    &&& r == AcquireDecision::Submit(i)
                    &&& final(self).phase == FramePhase::Presenting
                    &&& final(self).recreate_swap_chain == old(self).recreate_swap_chain
                } else {
                    &&& r == AcquireDecision::Abort
                    &&& final(self).phase == FramePhase::Idle
                    &&& final(self).recreate_swap_chain == old(self).recreate_swap_chain
                },
                AcquireOutcome::OutOfDate => {
                    &&& r == AcquireDecision::Skip
                    &&& final(self).phase == FramePhase::Idle
                    &&& final(self).recreate_swap_chain
                },
                AcquireOutcome::Failed => {
                    &&& r == AcquireDecision::Abort
                    &&& final(self).phase == FramePhase::Idle
                    &&& final(self).recreate_swap_chain == old(self).recreate_swap_chain
                },
            },
    {
        match outcome {
            AcquireOutcome::Acquired(i) => {
                if i < image_count {
                    self.phase = FramePhase::Presenting;
                    AcquireDecision::Submit(i)
                } else {
                    self.phase = FramePhase::Idle;
                    AcquireDecision::Abort
                }
            },
            AcquireOutcome::OutOfDate => {
                self.recreate_swap_chain = true;
                self.phase = FramePhase::Idle;
                AcquireDecision::Skip
            },
            AcquireOutcome::Failed => {
                self.phase = FramePhase::Idle;
                AcquireDecision::Abort
            },
        }
    }

    /// Decides on the outcome of submitting, presenting and flushing a frame. Only a
    /// flushed frame is kept as the previous frame's end; after any failure the loop holds
    /// a signalled placeholder, so the next frame never waits on broken work.
    pub fn frame_flushed(&mut self, outcome: FlushOutcome) -> (r: FlushDecision)
        requires
            old(self).phase == FramePhase::Presenting,
        ensures
            final(self).phase == FramePhase::Idle,
            match outcome {
                FlushOutcome::Flushed => {
                    &&& r == FlushDecision::KeepCompletion
                    &&& final(self).previous_frame_end == FrameEnd::InFlight
                    &&& final(self).recreate_swap_chain == old(self).recreate_swap_chain
                },
                FlushOutcome::OutOfDate => {
                    &&& r == FlushDecision::ResetToReady
                    &&& final(self).previous_frame_end == FrameEnd::Ready
                    &&& final(self).recreate_swap_chain
                },
                FlushOutcome::Failed => {
                    &&& r == FlushDecision::ReportAndReset
                    &&& final(self).previous_frame_end == FrameEnd::Ready
                    &&& final(self).recreate_swap_chain == old(self).recreate_swap_chain
                },
            },
    {
        self.phase = FramePhase::Idle;
        match outcome {
            FlushOutcome::Flushed => {
                self.previous_frame_end = FrameEnd::InFlight;
                FlushDecision::KeepCompletion
            },
            FlushOutcome::OutOfDate => {
                self.recreate_swap_chain = true;
                self.previous_frame_end = FrameEnd::Ready;
                FlushDecision::ResetToReady
            },
            FlushOutcome::Failed => {
                self.previous_frame_end = FrameEnd::Ready;
                FlushDecision::ReportAndReset
            },
        }
    }
}

} // verus!
