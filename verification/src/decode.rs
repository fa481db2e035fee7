//! Decisions of the video decoder: which stream it decodes, when opening the
//! input fails and with which message, and the decode loop as a state machine.
//!
//! The caller performs each action (a read, a send, a receive, a seek) and hands
//! back what came of it as the next event.

use vstd::prelude::*;
use vstd::string::*;
use crate::text::{append_decimal, decimal};

verus! {

/// What kind of data a stream of the input carries.
#[derive(PartialEq, Eq, Structural, Debug, Clone, Copy)]
pub enum MediaKind {
    Video,
    Audio,
    Other,
}

/// The index of the first video stream among the input's streams, if there is one.
pub fn select_video_stream(kinds: &Vec<MediaKind>) -> (r: Option<usize>)
    ensures
        match r {
            Some(i) => i < kinds@.len() && kinds@[i as int] == MediaKind::Video
                && forall|j: int| 0 <= j < i ==> kinds@[j] != MediaKind::Video,
            None => forall|j: int| 0 <= j < kinds@.len() ==> kinds@[j] != MediaKind::Video,
        },
{
    let mut i: usize = 0;
    while i < kinds.len()
        invariant
            i <= kinds@.len(),
            forall|j: int| 0 <= j < i ==> kinds@[j] != MediaKind::Video,
        decreases kinds@.len() - i,
    {
        if kinds[i] == MediaKind::Video {
            return Some(i);
        }
        i = i + 1;
    }
    None
}

/// The library calls that open the input and the codec, in the order they are made.
#[derive(PartialEq, Eq, Structural, Debug, Clone, Copy)]
pub enum SetupCall {
    /// `avformat_open_input`: succeeds only with 0.
    OpenInput,
    /// `avformat_find_stream_info`: fails with a negative code.
    FindStreamInfo,
    /// `avcodec_parameters_to_context`: fails with a negative code.
    ParametersToContext,
    /// `avcodec_open2`: fails with a negative code.
    OpenCodec,
}

/// Why the decoder could not be set up.
pub enum DecoderSetupError {
    /// The input at `path` could not be opened; `code` is what the call returned.
    OpenInput { path: String, code: i32 },
    StreamInfo,
    NoVideoStream,
    NoDecoder { codec_id: i32 },
    AllocContext,
    ParametersToContext,
    OpenCodec,
}

/// Whether the call returned an error code.
pub open spec fn setup_call_failed(call: SetupCall, ret: int) -> bool {
    match call {
        SetupCall::OpenInput => ret != 0,
        _ => ret < 0,
    }
}

/// The error of a failed call.
pub open spec fn setup_error_matches(call: SetupCall, e: DecoderSetupError, path: Seq<char>, ret: int) -> bool {
    match call {
        SetupCall::OpenInput => e matches DecoderSetupError::OpenInput { path: p, code } && p@ == path && code == ret,
        SetupCall::FindStreamInfo => e is StreamInfo,
        SetupCall::ParametersToContext => e is ParametersToContext,
        SetupCall::OpenCodec => e is OpenCodec,
    }
}

/// Judges the return code `ret` of a setup call made for the input at `path`.
pub fn check_setup_call(call: SetupCall, ret: i32, path: &str) -> (r: Result<(), DecoderSetupError>)
    ensures
        r is Ok <==> !setup_call_failed(call, ret as int),
        r matches Err(e) ==> setup_error_matches(call, e, path@, ret as int),
{
    match call {
        SetupCall::OpenInput => {
            if ret != 0 {
                Err(DecoderSetupError::OpenInput { path: String::from_str(path), code: ret })
            } else {
                Ok(())
            }
        },
        SetupCall::FindStreamInfo => if ret < 0 { Err(DecoderSetupError::StreamInfo) } else { Ok(()) },
        SetupCall::ParametersToContext => if ret < 0 { Err(DecoderSetupError::ParametersToContext) } else { Ok(()) },
        SetupCall::OpenCodec => if ret < 0 { Err(DecoderSetupError::OpenCodec) } else { Ok(()) },
    }
}

/// The text of a setup error.
pub open spec fn setup_error_text(e: DecoderSetupError) -> Seq<char> {
    match e {
        DecoderSetupError::OpenInput { path, code } => "avformat_open_input failed: "@ + path@ + " "@
            + decimal(code as int),
        DecoderSetupError::StreamInfo => "avformat_find_stream_info failed"@,
        DecoderSetupError::NoVideoStream => "No video stream found"@,
        DecoderSetupError::NoDecoder { codec_id } => "No decoder found for codec_id="@ + decimal(codec_id as int),
        DecoderSetupError::AllocContext => "avcodec_alloc_context3 failed"@,
        DecoderSetupError::ParametersToContext => "avcodec_parameters_to_context failed"@,
        DecoderSetupError::OpenCodec => "avcodec_open2 failed"@,
    }
}

impl DecoderSetupError {
    /// The message the error is reported with.
    pub fn message(&self) -> (r: String)
        ensures
            r@ == setup_error_text(*self),
    {
        match self {
            DecoderSetupError::OpenInput { path, code } => {
                let mut s = String::from_str("avformat_open_input failed: ");
                s.append(path.as_str());
                s.append(" ");
                append_decimal(&mut s, *code as i64);
                s
            },
            DecoderSetupError::StreamInfo => String::from_str("avformat_find_stream_info failed"),
            DecoderSetupError::NoVideoStream => String::from_str("No video stream found"),
            DecoderSetupError::NoDecoder { codec_id } => {
                let mut s = String::from_str("No decoder found for codec_id=");
                append_decimal(&mut s, *codec_id as i64);
                s
            },
            DecoderSetupError::AllocContext => String::from_str("avcodec_alloc_context3 failed"),
            DecoderSetupError::ParametersToContext => String::from_str("avcodec_parameters_to_context failed"),
            DecoderSetupError::OpenCodec => String::from_str("avcodec_open2 failed"),
        }
    }
}

/// The stages of opening the input and the codec, in the order they run.
#[derive(PartialEq, Eq, Structural, Debug, Clone, Copy)]
pub enum SetupStage {
    /// Turning the path into a C string: it must hold no NUL character.
    CheckPath,
    /// `avformat_open_input`.
    OpenInput,
    /// `avformat_find_stream_info`.
    FindStreamInfo,
    /// Choosing the first video stream.
    SelectStream,
    /// `avcodec_find_decoder` for the stream's codec.
    FindDecoder,
    /// `avcodec_alloc_context3`.
    AllocContext,
    /// `avcodec_parameters_to_context`.
    ParametersToContext,
    /// `avcodec_open2`.
    OpenCodec,
    /// Spawning the decode thread.
    SpawnThread,
    /// The decoder runs.
    Running,
    /// A stage failed; the decoder was not started.
    Failed,
}

/// What is released when a stage fails.
#[derive(PartialEq, Eq, Structural, Debug, Clone, Copy)]
pub enum SetupCleanup {
    Nothing,
    /// `avformat_close_input`.
    CloseInput,
    /// `avcodec_free_context`.
    FreeContext,
}

/// What the caller does after a stage.
#[derive(PartialEq, Eq, Structural, Debug, Clone, Copy)]
pub enum SetupStep {
    /// Run this stage next.
    Perform(SetupStage),
    /// Release this and give up, reporting the failed stage's error.
    Abort(SetupCleanup),
    /// The decoder runs.
    Started,
    /// Setup is over; nothing to do.
    Idle,
}

/// The stage that follows a successful one.
pub open spec fn next_stage(stage: SetupStage) -> SetupStage {
    match stage {
        SetupStage::CheckPath => SetupStage::OpenInput,
        SetupStage::OpenInput => SetupStage::FindStreamInfo,
        SetupStage::FindStreamInfo => SetupStage::SelectStream,
        SetupStage::SelectStream => SetupStage::FindDecoder,
        SetupStage::FindDecoder => SetupStage::AllocContext,
        SetupStage::AllocContext => SetupStage::ParametersToContext,
        SetupStage::ParametersToContext => SetupStage::OpenCodec,
        SetupStage::OpenCodec => SetupStage::SpawnThread,
        SetupStage::SpawnThread => SetupStage::Running,
        SetupStage::Running => SetupStage::Running,
        SetupStage::Failed => SetupStage::Failed,
    }
}

/// What a failure of `stage` releases: the input when stream probing fails, the codec
/// context when configuring or opening the codec fails, and nothing otherwise. A failure
/// after the input was opened (other than of stream probing) leaves the input open, and
/// one after the codec context was allocated leaves the input open too.
pub open spec fn cleanup_on_failure(stage: SetupStage) -> SetupCleanup {
    match stage {
        SetupStage::FindStreamInfo => SetupCleanup::CloseInput,
        SetupStage::ParametersToContext | SetupStage::OpenCodec => SetupCleanup::FreeContext,
        _ => SetupCleanup::Nothing,
    }
}

/// One transition of the setup: `stage` ran and succeeded (`ok`) or failed.
pub open spec fn setup_transition(stage: SetupStage, ok: bool) -> (SetupStage, SetupStep) {
    if stage == SetupStage::Running || stage == SetupStage::Failed {
        (stage, SetupStep::Idle)
    } else if !ok {
        (SetupStage::Failed, SetupStep::Abort(cleanup_on_failure(stage)))
    } else if next_stage(stage) == SetupStage::Running {
        (SetupStage::Running, SetupStep::Started)
    } else {
        (next_stage(stage), SetupStep::Perform(next_stage(stage)))
    }
}

/// What came of running a setup stage.
#[derive(PartialEq, Eq, Structural, Debug, Clone, Copy)]
pub enum SetupReport {
    /// The path was checked; `has_nul` says whether it holds a NUL character.
    PathChecked { has_nul: bool },
    /// A library call returned the code `ret`.
    Returned { ret: i32 },
    /// The streams were searched for a video stream; `found` says whether one was.
    StreamChosen { found: bool },
    /// A library call returned a pointer; `is_null` says whether it was null.
    PointerReturned { is_null: bool },
    /// The decode thread was spawned (`ok`) or not.
    ThreadSpawned { ok: bool },
}

/// Whether `report` is what running `stage` gives.
pub open spec fn report_fits(stage: SetupStage, report: SetupReport) -> bool {
    match stage {
        SetupStage::CheckPath => report is PathChecked,
        SetupStage::OpenInput | SetupStage::FindStreamInfo | SetupStage::ParametersToContext
        | SetupStage::OpenCodec => report is Returned,
        SetupStage::SelectStream => report is StreamChosen,
        SetupStage::FindDecoder | SetupStage::AllocContext => report is PointerReturned,
        SetupStage::SpawnThread => report is ThreadSpawned,
        _ => false,
    }
}

/// Whether the stage succeeded: the path holds no NUL, `avformat_open_input` returned 0,
/// the other calls returned a non-negative code, a video stream was found, the decoder
/// and the codec context are non-null, and the thread was spawned.
pub open spec fn report_ok(stage: SetupStage, report: SetupReport) -> bool {
    match report {
        SetupReport::PathChecked { has_nul } => !has_nul,
        SetupReport::Returned { ret } => !setup_call_failed(
            match stage {
                SetupStage::OpenInput => SetupCall::OpenInput,
                SetupStage::FindStreamInfo => SetupCall::FindStreamInfo,
                SetupStage::ParametersToContext => SetupCall::ParametersToContext,
                _ => SetupCall::OpenCodec,
            },
            ret as int,
        ),
        SetupReport::StreamChosen { found } => found,
        SetupReport::PointerReturned { is_null } => !is_null,
        SetupReport::ThreadSpawned { ok } => ok,
    }
}

/// One step of the setup on a report: a report that does not fit the stage changes
/// nothing.
pub open spec fn setup_step(stage: SetupStage, report: SetupReport) -> (SetupStage, SetupStep) {
    if report_fits(stage, report) {
        setup_transition(stage, report_ok(stage, report))
    } else {
        (stage, SetupStep::Idle)
    }
}

/// Whether the path holds a NUL character, which a C string cannot.
pub fn path_has_nul(path: &str) -> (r: bool)
    ensures
        r == path@.contains('\0'),
{
    let n = path.unicode_len();
    let mut i: usize = 0;
    while i < n
        invariant
            n == path@.len(),
            i <= n,
            forall|j: int| 0 <= j < i ==> path@[j] != '\0',
        decreases n - i,
    {
        if path.get_char(i) == '\0' {
            return true;
        }
        i = i + 1;
    }
    false
}

/// The setup of the decoder, stage by stage.
pub struct DecoderSetup {
    pub stage: SetupStage,
}

impl DecoderSetup {
    /// A setup about to check the path.
    pub fn new() -> (r: DecoderSetup)
        ensures
            r.stage == SetupStage::CheckPath,
    {
        DecoderSetup { stage: SetupStage::CheckPath }
    }

    /// Takes in what came of the current stage and says what to do next.
    pub fn advance(&mut self, report: SetupReport) -> (step: SetupStep)
        ensures
            (final(self).stage, step) == setup_step(old(self).stage, report),
    {
        let stage = self.stage;
        let fits = match stage {
            SetupStage::CheckPath => matches!(report, SetupReport::PathChecked { .. }),
            SetupStage::OpenInput | SetupStage::FindStreamInfo | SetupStage::ParametersToContext
            | SetupStage::OpenCodec => matches!(report, SetupReport::Returned { .. }),
            SetupStage::SelectStream => matches!(report, SetupReport::StreamChosen { .. }),
            SetupStage::FindDecoder | SetupStage::AllocContext => matches!(report, SetupReport::PointerReturned { .. }),
            SetupStage::SpawnThread => matches!(report, SetupReport::ThreadSpawned { .. }),
            _ => false,
        };
        if !fits {
            return SetupStep::Idle;
        }
        let ok = match report {
            SetupReport::PathChecked { has_nul } => !has_nul,
            SetupReport::Returned { ret } => if stage == SetupStage::OpenInput { ret == 0 } else { ret >= 0 },
            SetupReport::StreamChosen { found } => found,
            SetupReport::PointerReturned { is_null } => !is_null,
            SetupReport::ThreadSpawned { ok } => ok,
        };
        if !ok {
            self.stage = SetupStage::Failed;
            let cleanup = match stage {
                SetupStage::FindStreamInfo => SetupCleanup::CloseInput,
                SetupStage::ParametersToContext | SetupStage::OpenCodec => SetupCleanup::FreeContext,
                _ => SetupCleanup::Nothing,
            };
            return SetupStep::Abort(cleanup);
        }
        let next = match stage {
            SetupStage::CheckPath => SetupStage::OpenInput,
            SetupStage::OpenInput => SetupStage::FindStreamInfo,
            SetupStage::FindStreamInfo => SetupStage::SelectStream,
            SetupStage::SelectStream => SetupStage::FindDecoder,
            SetupStage::FindDecoder => SetupStage::AllocContext,
            SetupStage::AllocContext => SetupStage::ParametersToContext,
            SetupStage::ParametersToContext => SetupStage::OpenCodec,
            SetupStage::OpenCodec => SetupStage::SpawnThread,
            _ => SetupStage::Running,
        };
        self.stage = next;
        if next == SetupStage::Running {
            SetupStep::Started
        } else {
            SetupStep::Perform(next)
        }
    }
}

/// The stage reached after the given outcomes, one per stage run.
pub open spec fn stage_after(stage: SetupStage, outcomes: Seq<bool>) -> SetupStage
    decreases outcomes.len(),
{
    if outcomes.len() == 0 {
        stage
    } else {
        stage_after(setup_transition(stage, outcomes[0]).0, outcomes.drop_first())
    }
}

/// How many stages remain before the decoder runs.
pub open spec fn stages_left(stage: SetupStage) -> nat {
    match stage {
        SetupStage::CheckPath => 9,
        SetupStage::OpenInput => 8,
        SetupStage::FindStreamInfo => 7,
        SetupStage::SelectStream => 6,
        SetupStage::FindDecoder => 5,
        SetupStage::AllocContext => 4,
        SetupStage::ParametersToContext => 3,
        SetupStage::OpenCodec => 2,
        SetupStage::SpawnThread => 1,
        _ => 0,
    }
}

proof fn lemma_remaining_stages(stage: SetupStage, outcomes: Seq<bool>)
    requires
        stage != SetupStage::Failed,
        outcomes.len() == stages_left(stage),
    ensures
        stage_after(stage, outcomes) == SetupStage::Running <==> forall|i: int|
            0 <= i < outcomes.len() ==> outcomes[i],
        stage_after(stage, outcomes) == SetupStage::Running || stage_after(stage, outcomes)
            == SetupStage::Failed,
    decreases outcomes.len(),
{
    if outcomes.len() > 0 {
        let rest = outcomes.drop_first();
        if outcomes[0] {
            lemma_remaining_stages(next_stage(stage), rest);
            assert forall|i: int| 0 <= i < outcomes.len() && (forall|j: int| 0 <= j < rest.len() ==> rest[j]) implies outcomes[i] by {
                if i > 0 {
                    assert(outcomes[i] == rest[i - 1]);
                }
            }
        } else {
            lemma_terminal_stages_stay(SetupStage::Failed, rest);
        }
    }
}

/// The decoder runs after nine successful stages from checking the path, and only then:
/// any failure on the way ends the setup for good.
pub proof fn lemma_runs_only_after_every_stage(outcomes: Seq<bool>)
    requires
        outcomes.len() == 9,
    ensures
        stage_after(SetupStage::CheckPath, outcomes) == SetupStage::Running <==> forall|i: int|
            0 <= i < 9 ==> outcomes[i],
        stage_after(SetupStage::CheckPath, outcomes) == SetupStage::Running || stage_after(
            SetupStage::CheckPath,
            outcomes,
        ) == SetupStage::Failed,
{
    lemma_remaining_stages(SetupStage::CheckPath, outcomes);
}

/// The outcomes of the setup stages, judged by `report_ok` on the reports the given
/// results of the calls make, in stage order.
pub open spec fn start_outcomes(
    path: Seq<char>,
    open: i32,
    info: i32,
    kinds: Seq<MediaKind>,
    decoder_found: bool,
    context_allocated: bool,
    to_context: i32,
    open_codec: i32,
    spawned: bool,
) -> Seq<bool> {
    seq![
        report_ok(SetupStage::CheckPath, SetupReport::PathChecked { has_nul: path.contains('\0') }),
        report_ok(SetupStage::OpenInput, SetupReport::Returned { ret: open }),
        report_ok(SetupStage::FindStreamInfo, SetupReport::Returned { ret: info }),
        report_ok(SetupStage::SelectStream, SetupReport::StreamChosen {
            found: exists|i: int| 0 <= i < kinds.len() && kinds[i] == MediaKind::Video,
        }),
        report_ok(SetupStage::FindDecoder, SetupReport::PointerReturned { is_null: !decoder_found }),
        report_ok(SetupStage::AllocContext, SetupReport::PointerReturned { is_null: !context_allocated }),
        report_ok(SetupStage::ParametersToContext, SetupReport::Returned { ret: to_context }),
        report_ok(SetupStage::OpenCodec, SetupReport::Returned { ret: open_codec }),
        report_ok(SetupStage::SpawnThread, SetupReport::ThreadSpawned { ok: spawned }),
    ]
}

/// The decoder starts exactly when the path holds no NUL, `avformat_open_input` returns 0,
/// `avformat_find_stream_info` returns a non-negative code, some stream is a video stream,
/// a decoder is found, the codec context is allocated, `avcodec_parameters_to_context` and
/// `avcodec_open2` return non-negative codes and the thread is spawned; otherwise setup
/// fails.
pub proof fn lemma_start_succeeds_exactly_when(
    path: Seq<char>,
    open: i32,
    info: i32,
    kinds: Seq<MediaKind>,
    decoder_found: bool,
    context_allocated: bool,
    to_context: i32,
    open_codec: i32,
    spawned: bool,
)
    ensures
        ({
            let o = start_outcomes(path, open, info, kinds, decoder_found, context_allocated, to_context, open_codec, spawned);
            &&& stage_after(SetupStage::CheckPath, o) == SetupStage::Running <==> (!path.contains('\0') && open == 0
                && info >= 0 && (exists|i: int| 0 <= i < kinds.len() && kinds[i] == MediaKind::Video)
                && decoder_found && context_allocated && to_context >= 0 && open_codec >= 0 && spawned)
            &&& stage_after(SetupStage::CheckPath, o) != SetupStage::Running ==> stage_after(SetupStage::CheckPath, o)
                == SetupStage::Failed
        }),
{
    let o = start_outcomes(path, open, info, kinds, decoder_found, context_allocated, to_context, open_codec, spawned);
    lemma_runs_only_after_every_stage(o);
    if forall|i: int| 0 <= i < 9 ==> o[i] {
        assert(o[0] && o[1] && o[2] && o[3] && o[4] && o[5] && o[6] && o[7] && o[8]);
    }
}

/// Each stage's report is judged as stated: running a stage with a fitting report moves the
/// setup as if the stage succeeded exactly when `report_ok` holds.
pub proof fn lemma_reports_drive_stages(stage: SetupStage, report: SetupReport)
    requires
        report_fits(stage, report),
    ensures
        setup_step(stage, report) == setup_transition(stage, report_ok(stage, report)),
{
}

/// Once the setup has ended, further outcomes change nothing.
pub proof fn lemma_terminal_stages_stay(stage: SetupStage, outcomes: Seq<bool>)
    requires
        stage == SetupStage::Running || stage == SetupStage::Failed,
    ensures
        stage_after(stage, outcomes) == stage,
    decreases outcomes.len(),
{
    if outcomes.len() > 0 {
        lemma_terminal_stages_stay(stage, outcomes.drop_first());
    }
}

/// A failed stage releases what `cleanup_on_failure` names (the input when stream probing
/// fails, the codec context when configuring or opening the codec fails, nothing for the
/// other stages), and no stage runs after a failure.
pub proof fn lemma_failure_cleanup(stage: SetupStage)
    requires
        stage != SetupStage::Running,
        stage != SetupStage::Failed,
    ensures
        setup_transition(stage, false) == (SetupStage::Failed, SetupStep::Abort(cleanup_on_failure(stage))),
        setup_transition(SetupStage::Failed, true).1 == SetupStep::Idle,
{
}

/// Where the decode loop stands.
#[derive(PartialEq, Eq, Structural, Debug, Clone, Copy)]
pub enum DecodePhase {
    /// Waiting for the packet buffer to be allocated.
    Start,
    /// At the top of the loop, waiting for the running flag.
    Top,
    /// Waiting for the result of reading a packet.
    Reading,
    /// Waiting for the result of sending the packet to the codec.
    Sending,
    /// Waiting for the result of receiving a frame from the codec.
    Receiving,
    /// A frame was committed; waiting for the running flag.
    Committed,
    /// The loop has ended.
    Finished,
}

/// What came of the last action.
#[derive(PartialEq, Eq, Structural, Debug, Clone, Copy)]
pub enum DecodeEvent {
    /// The packet buffer was allocated (`ok`) or not.
    PacketAllocated { ok: bool },
    /// The running flag was read.
    RunningChecked { running: bool },
    /// `av_read_frame` returned `ret`; the packet belongs to stream `stream_index`.
    PacketRead { ret: i32, stream_index: i32 },
    /// `avcodec_send_packet` returned `ret`.
    PacketSent { ret: i32 },
    /// `avcodec_receive_frame` returned `ret`.
    FrameReceived { ret: i32 },
}

/// What the caller does next.
#[derive(PartialEq, Eq, Structural, Debug, Clone, Copy)]
pub enum DecodeAction {
    /// No packet buffer: stop at once, releasing nothing.
    Abandon,
    /// Read the running flag.
    CheckRunning,
    /// Read the next packet.
    ReadPacket,
    /// Seek back to the start of the video stream and flush the codec (the video loops),
    /// then read the running flag.
    RewindToStart,
    /// Release the packet, which belongs to another stream, then read the running flag.
    DiscardPacket,
    /// Send the packet to the codec, then release it.
    SendPacket,
    /// Receive a frame from the codec into the queue's write slot.
    ReceiveFrame,
    /// Commit the received frame to the queue and wake the consumer, then read the running flag.
    CommitFrame,
    /// Free the packet, the codec and the input, and stop.
    Release,
    /// The event does not fit the phase: nothing to do.
    Ignore,
}

/// One transition of the decode loop for the video stream `video`.
pub open spec fn decode_transition(phase: DecodePhase, video: i32, event: DecodeEvent) -> (DecodePhase, DecodeAction) {
    match (phase, event) {
        (DecodePhase::Start, DecodeEvent::PacketAllocated { ok }) =>
            if ok { (DecodePhase::Top, DecodeAction::CheckRunning) } else { (DecodePhase::Finished, DecodeAction::Abandon) },
        (DecodePhase::Top, DecodeEvent::RunningChecked { running }) =>
            if running { (DecodePhase::Reading, DecodeAction::ReadPacket) } else { (DecodePhase::Finished, DecodeAction::Release) },
        (DecodePhase::Reading, DecodeEvent::PacketRead { ret, stream_index }) =>
            if ret < 0 {
                (DecodePhase::Top, DecodeAction::RewindToStart)
            } else if stream_index != video {
                (DecodePhase::Top, DecodeAction::DiscardPacket)
            } else {
                (DecodePhase::Sending, DecodeAction::SendPacket)
            },
        (DecodePhase::Sending, DecodeEvent::PacketSent { ret }) =>
            if ret < 0 { (DecodePhase::Top, DecodeAction::CheckRunning) } else { (DecodePhase::Receiving, DecodeAction::ReceiveFrame) },
        (DecodePhase::Receiving, DecodeEvent::FrameReceived { ret }) =>
            if ret >= 0 { (DecodePhase::Committed, DecodeAction::CommitFrame) } else { (DecodePhase::Top, DecodeAction::CheckRunning) },
        (DecodePhase::Committed, DecodeEvent::RunningChecked { running }) =>
            if running { (DecodePhase::Receiving, DecodeAction::ReceiveFrame) } else { (DecodePhase::Top, DecodeAction::CheckRunning) },
        _ => (phase, DecodeAction::Ignore),
    }
}

/// Once the loop has ended it stays ended and asks for nothing more.
pub proof fn lemma_finished_is_final(video: i32, event: DecodeEvent)
    ensures
        decode_transition(DecodePhase::Finished, video, event) == (DecodePhase::Finished, DecodeAction::Ignore),
{
}

/// A packet is sent to the codec only when it was read successfully and belongs to the
/// decoded video stream.
pub proof fn lemma_only_video_packets_are_sent(phase: DecodePhase, video: i32, event: DecodeEvent)
    ensures
        decode_transition(phase, video, event).1 == DecodeAction::SendPacket ==> (phase == DecodePhase::Reading
            && (event matches DecodeEvent::PacketRead { ret, stream_index } && ret >= 0 && stream_index == video)),
{
}

/// A frame is committed to the queue only right after the codec handed one over.
pub proof fn lemma_frames_committed_only_when_received(phase: DecodePhase, video: i32, event: DecodeEvent)
    ensures
        decode_transition(phase, video, event).1 == DecodeAction::CommitFrame ==> (phase == DecodePhase::Receiving
            && (event matches DecodeEvent::FrameReceived { ret } && ret >= 0)),
{
}

/// The loop releases its resources and ends exactly when, at the top of the loop, the
/// running flag is found cleared.
pub proof fn lemma_release_when_stopped(phase: DecodePhase, video: i32, event: DecodeEvent)
    ensures
        decode_transition(phase, video, event).1 == DecodeAction::Release <==> (phase == DecodePhase::Top
            && event == DecodeEvent::RunningChecked { running: false }),
{
}

/// Reaching the end of the input (or any read error) rewinds to the start: the video loops.
pub proof fn lemma_end_of_input_rewinds(video: i32, ret: i32, stream_index: i32)
    requires
        ret < 0,
    ensures
        decode_transition(DecodePhase::Reading, video, DecodeEvent::PacketRead { ret, stream_index })
            == (DecodePhase::Top, DecodeAction::RewindToStart),
{
}

/// While the running flag stays set, a committed frame is followed by another receive:
/// the codec is drained before the next packet is read.
pub proof fn lemma_codec_drained_while_running(video: i32)
    ensures
        decode_transition(DecodePhase::Committed, video, DecodeEvent::RunningChecked { running: true })
            == (DecodePhase::Receiving, DecodeAction::ReceiveFrame),
{
}

/// Whether `event` is the kind of event the loop waits for in `phase`, with the running
/// flag, wherever it is read, found cleared.
pub open spec fn fits_after_stop(phase: DecodePhase, event: DecodeEvent) -> bool {
    match phase {
        DecodePhase::Top | DecodePhase::Committed => event == DecodeEvent::RunningChecked { running: false },
        DecodePhase::Reading => event is PacketRead,
        DecodePhase::Sending => event is PacketSent,
        DecodePhase::Receiving => event is FrameReceived,
        DecodePhase::Start => event is PacketAllocated,
        DecodePhase::Finished => true,
    }
}

/// Whether each of `events` fits the phase the loop is in when it arrives, after a stop.
pub open spec fn fed_after_stop(phase: DecodePhase, video: i32, events: Seq<DecodeEvent>) -> bool
    decreases events.len(),
{
    events.len() == 0 || (fits_after_stop(phase, events[0]) && fed_after_stop(
        decode_transition(phase, video, events[0]).0,
        video,
        events.drop_first(),
    ))
}

/// The phase after the loop took in `events`.
pub open spec fn phase_after(phase: DecodePhase, video: i32, events: Seq<DecodeEvent>) -> DecodePhase
    decreases events.len(),
{
    if events.len() == 0 {
        phase
    } else {
        phase_after(decode_transition(phase, video, events[0]).0, video, events.drop_first())
    }
}

/// The most steps a phase is from the end once the running flag is cleared.
pub open spec fn steps_to_end(phase: DecodePhase) -> nat {
    match phase {
        DecodePhase::Finished => 0,
        DecodePhase::Top => 1,
        DecodePhase::Committed => 2,
        DecodePhase::Receiving => 3,
        DecodePhase::Sending => 4,
        DecodePhase::Reading => 5,
        DecodePhase::Start => 2,
    }
}

/// Once the running flag is cleared, the loop ends within five more steps from any phase
/// after allocation (two from the start), whatever the reads, sends and receives return.
pub proof fn lemma_stop_ends_loop_within_bound(phase: DecodePhase, video: i32, events: Seq<DecodeEvent>)
    requires
        fed_after_stop(phase, video, events),
        events.len() >= steps_to_end(phase),
    ensures
        phase_after(phase, video, events) == DecodePhase::Finished,
    decreases events.len(),
{
    if events.len() > 0 {
        let next = decode_transition(phase, video, events[0]).0;
        assert(steps_to_end(next) + 1 <= steps_to_end(phase) || next == DecodePhase::Finished);
        lemma_stop_ends_loop_within_bound(next, video, events.drop_first());
    }
}

/// After the packet buffer was allocated, the loop can only end by releasing its
/// resources: the only step into the end is the release.
pub proof fn lemma_end_only_by_release(phase: DecodePhase, video: i32, event: DecodeEvent)
    requires
        phase != DecodePhase::Start,
        phase != DecodePhase::Finished,
        decode_transition(phase, video, event).0 == DecodePhase::Finished,
    ensures
        decode_transition(phase, video, event).1 == DecodeAction::Release,
{
}

/// A packet read successfully from any stream other than the decoded one is dropped and
/// reading goes on; the loop rewinds to the start only when a read fails.
pub proof fn lemma_other_streams_are_skipped(phase: DecodePhase, video: i32, event: DecodeEvent)
    ensures
        (phase == DecodePhase::Reading && (event matches DecodeEvent::PacketRead { ret, stream_index } && ret
            >= 0 && stream_index != video)) ==> decode_transition(phase, video, event) == (
            DecodePhase::Top,
            DecodeAction::DiscardPacket,
        ),
        decode_transition(phase, video, event).1 == DecodeAction::RewindToStart ==> (phase == DecodePhase::Reading
            && (event matches DecodeEvent::PacketRead { ret, .. } && ret < 0)),
        decode_transition(phase, video, event).1 == DecodeAction::DiscardPacket ==> (phase == DecodePhase::Reading
            && (event matches DecodeEvent::PacketRead { ret, stream_index } && ret >= 0 && stream_index != video)),
{
}

/// The decode loop of one video stream.
pub struct DecodeLoop {
    pub phase: DecodePhase,
    pub video_stream: i32,
}

impl DecodeLoop {
    /// A loop that decodes the stream `video_stream` and has not allocated its packet yet.
    pub fn new(video_stream: i32) -> (r: DecodeLoop)
        ensures
            r.phase == DecodePhase::Start,
            r.video_stream == video_stream,
    {
        DecodeLoop { phase: DecodePhase::Start, video_stream }
    }

    /// Takes in what came of the last action and says what to do next.
    pub fn step(&mut self, event: DecodeEvent) -> (action: DecodeAction)
        ensures
            (final(self).phase, action) == decode_transition(old(self).phase, old(self).video_stream, event),
            final(self).video_stream == old(self).video_stream,
    {
        let (phase, action) = match (self.phase, event) {
            (DecodePhase::Start, DecodeEvent::PacketAllocated { ok }) =>
                if ok { (DecodePhase::Top, DecodeAction::CheckRunning) } else { (DecodePhase::Finished, DecodeAction::Abandon) },
            (DecodePhase::Top, DecodeEvent::RunningChecked { running }) =>
                if running { (DecodePhase::Reading, DecodeAction::ReadPacket) } else { (DecodePhase::Finished, DecodeAction::Release) },
            (DecodePhase::Reading, DecodeEvent::PacketRead { ret, stream_index }) =>
                if ret < 0 {
                    (DecodePhase::Top, DecodeAction::RewindToStart)
                } else if stream_index != self.video_stream {
                    (DecodePhase::Top, DecodeAction::DiscardPacket)
                } else {
                    (DecodePhase::Sending, DecodeAction::SendPacket)
                },
            (DecodePhase::Sending, DecodeEvent::PacketSent { ret }) =>
                if ret < 0 { (DecodePhase::Top, DecodeAction::CheckRunning) } else { (DecodePhase::Receiving, DecodeAction::ReceiveFrame) },
            (DecodePhase::Receiving, DecodeEvent::FrameReceived { ret }) =>
                if ret >= 0 { (DecodePhase::Committed, DecodeAction::CommitFrame) } else { (DecodePhase::Top, DecodeAction::CheckRunning) },
            (DecodePhase::Committed, DecodeEvent::RunningChecked { running }) =>
                if running { (DecodePhase::Receiving, DecodeAction::ReceiveFrame) } else { (DecodePhase::Top, DecodeAction::CheckRunning) },
            (p, _) => (p, DecodeAction::Ignore),
        };
        self.phase = phase;
        action
    }
}

} // verus!
