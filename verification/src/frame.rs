use vstd::prelude::*;

verus! {

/// What acquiring the next frame from the presentation surface reported.
/// The unverified shell maps its surface API's error values onto these
/// cases one for one.
#[derive(Clone, Copy, Debug, PartialEq, Eq, Structural)]
pub enum SurfaceIssue {
    /// Acquiring the frame took too long.
    Timeout,
    /// The surface no longer matches the window and must be reconfigured.
    Outdated,
    /// The surface was lost and must be reconfigured.
    Lost,
    /// The device is out of memory; no further frame can be expected.
    OutOfMemory,
    /// Any other, unclassified per-frame error.
    Other,
}

/// What the frame loop does about a per-frame surface issue.
#[derive(Clone, Copy, Debug, PartialEq, Eq, Structural)]
pub enum FrameAction {
    /// Reconfigure the target at its current dimensions; retry next frame.
    Reconfigure,
    /// Log and drop the current frame; the process continues.
    SkipFrame,
    /// Unrecoverable; report upward for the caller to decide.
    Fatal,
}

/// The per-frame error discipline: a lost or outdated surface is transient
/// and answered by reconfiguring; running out of memory is unrecoverable
/// and reported upward; everything else drops the one frame and carries on.
pub open spec fn spec_issue_action(e: SurfaceIssue) -> FrameAction {
    match e {
        SurfaceIssue::Lost => FrameAction::Reconfigure,
        SurfaceIssue::Outdated => FrameAction::Reconfigure,
        SurfaceIssue::OutOfMemory => FrameAction::Fatal,
        SurfaceIssue::Timeout => FrameAction::SkipFrame,
        SurfaceIssue::Other => FrameAction::SkipFrame,
    }
}

/// Classifies a per-frame surface issue. Reconfiguration is demanded
/// exactly for a lost or outdated surface, and only running out of memory
/// is fatal; every other issue costs at most the current frame.
pub fn frame_error_action(e: &SurfaceIssue) -> (a: FrameAction)
    ensures
        a == spec_issue_action(*e),
        a is Reconfigure <==> (*e is Lost || *e is Outdated),
        a is Fatal <==> *e is OutOfMemory,
{
    match e {
        SurfaceIssue::Lost => FrameAction::Reconfigure,
        SurfaceIssue::Outdated => FrameAction::Reconfigure,
        SurfaceIssue::OutOfMemory => FrameAction::Fatal,
        SurfaceIssue::Timeout => FrameAction::SkipFrame,
        SurfaceIssue::Other => FrameAction::SkipFrame,
    }
}

/// One step of encoding a frame into its single command submission.
#[derive(Clone, Copy, Debug, PartialEq, Eq, Structural)]
pub enum FrameStep {
    /// Queue the uniform block upload.
    StageUniforms,
    /// Encode the instance-generation compute pass.
    EncodeGeneration,
    /// Encode the render pass that consumes the generated instances.
    EncodeDraw,
    /// Submit the one command sequence of this frame.
    Submit,
}

/// The only order in which a frame may be encoded: uniforms are staged
/// first, the generation pass is encoded before the render pass in the same
/// submission, and the submission closes the frame. The generated instance
/// data is visible to the draw solely because both passes sit in this one
/// submission in this order; no other synchronization exists.
pub open spec fn canonical_frame() -> Seq<FrameStep> {
    seq![
        FrameStep::StageUniforms,
        FrameStep::EncodeGeneration,
        FrameStep::EncodeDraw,
        FrameStep::Submit,
    ]
}

/// A witness that one frame is being encoded in the canonical order. The
/// unverified shell advances it alongside the real command encoder; its
/// methods only accept the canonical next step, so a shell that completes
/// one of these has encoded generation before the draw, within one
/// submission, with nothing in between.
#[derive(Clone, Debug)]
pub struct FrameEncoding {
    steps: Vec<FrameStep>,
}

impl FrameEncoding {
    /// The steps recorded so far, in order.
    pub closed spec fn recorded(self) -> Seq<FrameStep> {
        self.steps@
    }

    /// Every recorded prefix follows the canonical order.
    pub open spec fn wf(self) -> bool {
        self.recorded() == canonical_frame().take(self.recorded().len() as int)
    }

    /// The frame has been fully encoded and submitted.
    pub open spec fn complete(self) -> bool {
        self.recorded() == canonical_frame()
    }

    /// Starts an empty frame encoding.
    pub fn begin() -> (f: FrameEncoding)
        ensures
            f.wf(),
            f.recorded().len() == 0,
    {
        let f = FrameEncoding { steps: Vec::new() };
        proof {
            assert(f.recorded() =~= canonical_frame().take(0));
        }
        f
    }

    /// How many steps have been recorded.
    pub fn recorded_len(&self) -> (n: usize)
        ensures
            n == self.recorded().len(),
    {
        self.steps.len()
    }

    /// The step recorded at position `i`.
    pub fn step_at(&self, i: usize) -> (s: FrameStep)
        requires
            i < self.recorded().len(),
        ensures
            s == self.recorded()[i as int],
    {
        self.steps[i]
    }

    /// Records the uniform upload; only valid as the first step.
    pub fn stage_uniforms(&mut self)
        requires
            old(self).wf(),
            old(self).recorded().len() == 0,
        ensures
            final(self).wf(),
            final(self).recorded() == canonical_frame().take(1),
    {
        self.steps.push(FrameStep::StageUniforms);
        proof {
            assert(self.recorded() =~= canonical_frame().take(1));
        }
    }

    /// Records the generation compute pass; only valid right after the
    /// uniform upload, so generated data always precedes the draw that
    /// reads it.
    pub fn encode_generation(&mut self)
        requires
            old(self).wf(),
            old(self).recorded().len() == 1,
        ensures
            final(self).wf(),
            final(self).recorded() == canonical_frame().take(2),
    {
        self.steps.push(FrameStep::EncodeGeneration);
        proof {
            assert(self.recorded() =~= canonical_frame().take(2));
        }
    }

    /// Records the render pass; only valid right after the generation pass
    /// in the same, still unsubmitted, command sequence.
    pub fn encode_draw(&mut self)
        requires
            old(self).wf(),
            old(self).recorded().len() == 2,
        ensures
            final(self).wf(),
            final(self).recorded() == canonical_frame().take(3),
    {
        self.steps.push(FrameStep::EncodeDraw);
        proof {
            assert(self.recorded() =~= canonical_frame().take(3));
        }
    }

    /// Records the one submission that closes the frame.
    pub fn submit(&mut self)
        requires
            old(self).wf(),
            old(self).recorded().len() == 3,
        ensures
            final(self).wf(),
            final(self).complete(),
    {
        self.steps.push(FrameStep::Submit);
        proof {
            assert(self.recorded() =~= canonical_frame());
            assert(canonical_frame().take(4) =~= canonical_frame());
        }
    }
}

/// A completed frame encoding recorded exactly the canonical four steps:
/// the uniform upload first, then the generation pass, then the draw that
/// consumes its output, then the single submission — so the compute pass
/// is encoded before the render pass with no intervening submission, which
/// is the whole visibility contract between the two stages.
pub proof fn lemma_generation_precedes_draw(f: FrameEncoding)
    requires
        f.complete(),
    ensures
        f.recorded().len() == 4,
        f.recorded()[0] is StageUniforms,
        f.recorded()[1] is EncodeGeneration,
        f.recorded()[2] is EncodeDraw,
        f.recorded()[3] is Submit,
{
}

} // verus!
