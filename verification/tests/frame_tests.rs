use tube_strands::frame_error_action;
use tube_strands::FrameAction;
use tube_strands::FrameEncoding;
use tube_strands::FrameStep;
use tube_strands::SurfaceIssue;

#[test]
fn lost_and_outdated_surfaces_ask_for_reconfiguration() {
    assert_eq!(
        frame_error_action(&SurfaceIssue::Lost),
        FrameAction::Reconfigure
    );
    assert_eq!(
        frame_error_action(&SurfaceIssue::Outdated),
        FrameAction::Reconfigure
    );
}

#[test]
fn out_of_memory_is_fatal() {
    assert_eq!(
        frame_error_action(&SurfaceIssue::OutOfMemory),
        FrameAction::Fatal
    );
}

#[test]
fn unclassified_issues_cost_one_frame_only() {
    assert_eq!(
        frame_error_action(&SurfaceIssue::Timeout),
        FrameAction::SkipFrame
    );
    assert_eq!(
        frame_error_action(&SurfaceIssue::Other),
        FrameAction::SkipFrame
    );
}

#[test]
fn a_frame_encodes_in_the_canonical_order() {
    let mut f = FrameEncoding::begin();
    assert_eq!(f.recorded_len(), 0);
    f.stage_uniforms();
    f.encode_generation();
    f.encode_draw();
    f.submit();
    assert_eq!(f.recorded_len(), 4);
    assert_eq!(f.step_at(0), FrameStep::StageUniforms);
    assert_eq!(f.step_at(1), FrameStep::EncodeGeneration);
    assert_eq!(f.step_at(2), FrameStep::EncodeDraw);
    assert_eq!(f.step_at(3), FrameStep::Submit);
}
