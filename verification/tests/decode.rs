use mpv_wallpaper::decode::{
    check_setup_call, select_video_stream, DecodeAction, DecodeEvent, DecodeLoop, DecodePhase,
    DecoderSetupError, MediaKind, SetupCall,
};

#[test]
fn first_video_stream_is_chosen() {
    let kinds = vec![MediaKind::Audio, MediaKind::Video, MediaKind::Other, MediaKind::Video];
    assert_eq!(select_video_stream(&kinds), Some(1));
}

#[test]
fn no_video_stream() {
    assert_eq!(select_video_stream(&vec![MediaKind::Audio, MediaKind::Other]), None);
    assert_eq!(select_video_stream(&vec![]), None);
}

#[test]
fn open_input_fails_unless_zero() {
    assert!(check_setup_call(SetupCall::OpenInput, 0, "v.mp4").is_ok());
    let e = check_setup_call(SetupCall::OpenInput, 1, "v.mp4").unwrap_err();
    assert_eq!(e.message(), "avformat_open_input failed: v.mp4 1");
    let e = check_setup_call(SetupCall::OpenInput, -2, "/x/y.mkv").unwrap_err();
    assert_eq!(e.message(), "avformat_open_input failed: /x/y.mkv -2");
}

#[test]
fn other_calls_fail_when_negative() {
    assert!(check_setup_call(SetupCall::FindStreamInfo, 3, "v").is_ok());
    assert!(check_setup_call(SetupCall::OpenCodec, 0, "v").is_ok());
    let e = check_setup_call(SetupCall::FindStreamInfo, -1, "v").unwrap_err();
    assert_eq!(e.message(), "avformat_find_stream_info failed");
    let e = check_setup_call(SetupCall::ParametersToContext, -12, "v").unwrap_err();
    assert_eq!(e.message(), "avcodec_parameters_to_context failed");
    let e = check_setup_call(SetupCall::OpenCodec, -22, "v").unwrap_err();
    assert_eq!(e.message(), "avcodec_open2 failed");
}

#[test]
fn setup_messages() {
    assert_eq!(DecoderSetupError::NoVideoStream.message(), "No video stream found");
    assert_eq!(DecoderSetupError::NoDecoder { codec_id: 27 }.message(), "No decoder found for codec_id=27");
    assert_eq!(DecoderSetupError::AllocContext.message(), "avcodec_alloc_context3 failed");
}

#[test]
fn decode_loop_happy_path() {
    let mut l = DecodeLoop::new(0);
    assert_eq!(l.step(DecodeEvent::PacketAllocated { ok: true }), DecodeAction::CheckRunning);
    assert_eq!(l.step(DecodeEvent::RunningChecked { running: true }), DecodeAction::ReadPacket);
    assert_eq!(l.step(DecodeEvent::PacketRead { ret: 0, stream_index: 0 }), DecodeAction::SendPacket);
    assert_eq!(l.step(DecodeEvent::PacketSent { ret: 0 }), DecodeAction::ReceiveFrame);
    assert_eq!(l.step(DecodeEvent::FrameReceived { ret: 0 }), DecodeAction::CommitFrame);
    assert_eq!(l.step(DecodeEvent::RunningChecked { running: true }), DecodeAction::ReceiveFrame);
    assert_eq!(l.step(DecodeEvent::FrameReceived { ret: -11 }), DecodeAction::CheckRunning);
    assert_eq!(l.phase, DecodePhase::Top);
    assert_eq!(l.step(DecodeEvent::RunningChecked { running: false }), DecodeAction::Release);
    assert_eq!(l.phase, DecodePhase::Finished);
    assert_eq!(l.step(DecodeEvent::RunningChecked { running: true }), DecodeAction::Ignore);
    assert_eq!(l.phase, DecodePhase::Finished);
}

#[test]
fn decode_loop_skips_other_streams_and_rewinds() {
    let mut l = DecodeLoop::new(1);
    l.step(DecodeEvent::PacketAllocated { ok: true });
    l.step(DecodeEvent::RunningChecked { running: true });
    assert_eq!(l.step(DecodeEvent::PacketRead { ret: 0, stream_index: 0 }), DecodeAction::DiscardPacket);
    l.step(DecodeEvent::RunningChecked { running: true });
    assert_eq!(l.step(DecodeEvent::PacketRead { ret: -541478725, stream_index: 1 }), DecodeAction::RewindToStart);
    l.step(DecodeEvent::RunningChecked { running: true });
    assert_eq!(l.step(DecodeEvent::PacketRead { ret: 0, stream_index: 1 }), DecodeAction::SendPacket);
    assert_eq!(l.step(DecodeEvent::PacketSent { ret: -1 }), DecodeAction::CheckRunning);
}

#[test]
fn decode_loop_stop_after_commit() {
    let mut l = DecodeLoop::new(0);
    l.step(DecodeEvent::PacketAllocated { ok: true });
    l.step(DecodeEvent::RunningChecked { running: true });
    l.step(DecodeEvent::PacketRead { ret: 0, stream_index: 0 });
    l.step(DecodeEvent::PacketSent { ret: 0 });
    l.step(DecodeEvent::FrameReceived { ret: 0 });
    assert_eq!(l.step(DecodeEvent::RunningChecked { running: false }), DecodeAction::CheckRunning);
    assert_eq!(l.step(DecodeEvent::RunningChecked { running: false }), DecodeAction::Release);
}

#[test]
fn decode_loop_without_packet() {
    let mut l = DecodeLoop::new(0);
    assert_eq!(l.step(DecodeEvent::PacketAllocated { ok: false }), DecodeAction::Abandon);
    assert_eq!(l.phase, DecodePhase::Finished);
}

#[test]
fn decode_loop_ignores_out_of_order_events() {
    let mut l = DecodeLoop::new(0);
    assert_eq!(l.step(DecodeEvent::PacketSent { ret: 0 }), DecodeAction::Ignore);
    assert_eq!(l.phase, DecodePhase::Start);
}

use mpv_wallpaper::decode::{path_has_nul, DecoderSetup, SetupCleanup, SetupReport, SetupStage, SetupStep};

fn success_report(stage: SetupStage) -> SetupReport {
    match stage {
        SetupStage::CheckPath => SetupReport::PathChecked { has_nul: false },
        SetupStage::OpenInput => SetupReport::Returned { ret: 0 },
        SetupStage::FindStreamInfo | SetupStage::ParametersToContext | SetupStage::OpenCodec => {
            SetupReport::Returned { ret: 3 }
        }
        SetupStage::SelectStream => SetupReport::StreamChosen { found: true },
        SetupStage::FindDecoder | SetupStage::AllocContext => SetupReport::PointerReturned { is_null: false },
        _ => SetupReport::ThreadSpawned { ok: true },
    }
}

fn failure_report(stage: SetupStage) -> SetupReport {
    match stage {
        SetupStage::CheckPath => SetupReport::PathChecked { has_nul: true },
        SetupStage::OpenInput => SetupReport::Returned { ret: 1 },
        SetupStage::FindStreamInfo | SetupStage::ParametersToContext | SetupStage::OpenCodec => {
            SetupReport::Returned { ret: -22 }
        }
        SetupStage::SelectStream => SetupReport::StreamChosen { found: false },
        SetupStage::FindDecoder | SetupStage::AllocContext => SetupReport::PointerReturned { is_null: true },
        _ => SetupReport::ThreadSpawned { ok: false },
    }
}

const ORDER: [SetupStage; 9] = [
    SetupStage::CheckPath,
    SetupStage::OpenInput,
    SetupStage::FindStreamInfo,
    SetupStage::SelectStream,
    SetupStage::FindDecoder,
    SetupStage::AllocContext,
    SetupStage::ParametersToContext,
    SetupStage::OpenCodec,
    SetupStage::SpawnThread,
];

#[test]
fn setup_runs_stages_in_order() {
    let mut s = DecoderSetup::new();
    for i in 0..8 {
        assert_eq!(s.stage, ORDER[i]);
        assert_eq!(s.advance(success_report(ORDER[i])), SetupStep::Perform(ORDER[i + 1]));
    }
    assert_eq!(s.advance(success_report(SetupStage::SpawnThread)), SetupStep::Started);
    assert_eq!(s.stage, SetupStage::Running);
    assert_eq!(s.advance(failure_report(SetupStage::OpenInput)), SetupStep::Idle);
}

#[test]
fn open_input_succeeds_only_with_zero() {
    let mut s = DecoderSetup::new();
    s.advance(success_report(SetupStage::CheckPath));
    assert_eq!(s.advance(SetupReport::Returned { ret: 2 }), SetupStep::Abort(SetupCleanup::Nothing));
    let mut s = DecoderSetup::new();
    s.advance(success_report(SetupStage::CheckPath));
    s.advance(SetupReport::Returned { ret: 0 });
    assert_eq!(s.advance(SetupReport::Returned { ret: 2 }), SetupStep::Perform(SetupStage::SelectStream));
}

#[test]
fn report_of_another_stage_changes_nothing() {
    let mut s = DecoderSetup::new();
    assert_eq!(s.advance(SetupReport::Returned { ret: 0 }), SetupStep::Idle);
    assert_eq!(s.stage, SetupStage::CheckPath);
}

fn fail_at(stage_index: usize) -> SetupStep {
    let mut s = DecoderSetup::new();
    for i in 0..stage_index {
        s.advance(success_report(ORDER[i]));
    }
    let step = s.advance(failure_report(ORDER[stage_index]));
    assert_eq!(s.stage, SetupStage::Failed);
    assert_eq!(s.advance(success_report(ORDER[stage_index])), SetupStep::Idle);
    step
}

#[test]
fn setup_failures_release_what_was_set_up() {
    assert_eq!(fail_at(0), SetupStep::Abort(SetupCleanup::Nothing));
    assert_eq!(fail_at(1), SetupStep::Abort(SetupCleanup::Nothing));
    assert_eq!(fail_at(2), SetupStep::Abort(SetupCleanup::CloseInput));
    assert_eq!(fail_at(3), SetupStep::Abort(SetupCleanup::Nothing));
    assert_eq!(fail_at(4), SetupStep::Abort(SetupCleanup::Nothing));
    assert_eq!(fail_at(5), SetupStep::Abort(SetupCleanup::Nothing));
    assert_eq!(fail_at(6), SetupStep::Abort(SetupCleanup::FreeContext));
    assert_eq!(fail_at(7), SetupStep::Abort(SetupCleanup::FreeContext));
    assert_eq!(fail_at(8), SetupStep::Abort(SetupCleanup::Nothing));
}

#[test]
fn nul_in_path() {
    assert!(!path_has_nul("/home/user/wallpaper.mp4"));
    assert!(path_has_nul("a\0b"));
    assert!(path_has_nul("\0"));
    assert!(!path_has_nul(""));
    assert!(!path_has_nul("vídeo ñ.mkv"));
}

#[test]
fn stop_reaches_release_within_five_steps() {
    let mut l = DecodeLoop::new(0);
    l.step(DecodeEvent::PacketAllocated { ok: true });
    l.step(DecodeEvent::RunningChecked { running: true });
    // the flag is cleared while a packet is being read
    assert_eq!(l.step(DecodeEvent::PacketRead { ret: 0, stream_index: 0 }), DecodeAction::SendPacket);
    assert_eq!(l.step(DecodeEvent::PacketSent { ret: 0 }), DecodeAction::ReceiveFrame);
    assert_eq!(l.step(DecodeEvent::FrameReceived { ret: 0 }), DecodeAction::CommitFrame);
    assert_eq!(l.step(DecodeEvent::RunningChecked { running: false }), DecodeAction::CheckRunning);
    assert_eq!(l.step(DecodeEvent::RunningChecked { running: false }), DecodeAction::Release);
    assert_eq!(l.phase, DecodePhase::Finished);
}
