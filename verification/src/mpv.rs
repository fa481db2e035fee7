//! The mpv side: the options mpv is created with, how each polled mpv event is
//! answered, and how mpv error codes are described.

use vstd::prelude::*;
use crate::text::{append_decimal, decimal};

verus! {

/// The value of an mpv option.
pub enum OptionValue {
    Text(String),
    Flag(bool),
    Integer(i64),
}

/// The value of an mpv option, over the view of its text.
pub enum OptionValueModel {
    Text(Seq<char>),
    Flag(bool),
    Integer(int),
}

impl View for OptionValue {
    type V = OptionValueModel;

    open spec fn view(&self) -> OptionValueModel {
        match self {
            OptionValue::Text(s) => OptionValueModel::Text(s@),
            OptionValue::Flag(b) => OptionValueModel::Flag(*b),
            OptionValue::Integer(i) => OptionValueModel::Integer(*i as int),
        }
    }
}

/// An option set on mpv before it is initialized.
pub struct MpvOption {
    pub name: String,
    pub value: OptionValue,
}

impl View for MpvOption {
    type V = (Seq<char>, OptionValueModel);

    open spec fn view(&self) -> (Seq<char>, OptionValueModel) {
        (self.name@, self.value@)
    }
}

pub open spec fn text_option(name: Seq<char>, value: Seq<char>) -> (Seq<char>, OptionValueModel) {
    (name, OptionValueModel::Text(value))
}

pub open spec fn flag_option(name: Seq<char>, value: bool) -> (Seq<char>, OptionValueModel) {
    (name, OptionValueModel::Flag(value))
}

/// The options a wallpaper player is created with, in the order they are set: quiet,
/// looping forever, muted and without audio, without on-screen controls or input, with
/// hardware decoding where it is safe, rendering through the render API (`vo=libmpv`)
/// with OpenGL whatever GPU API was asked for on the command line, timed by audio, and
/// without frame dropping.
pub open spec fn init_options_model() -> Seq<(Seq<char>, OptionValueModel)> {
    seq![
        text_option("terminal"@, "no"@),
        text_option("msg-level"@, "all=warn,vd=info"@),
        text_option("loop-file"@, "inf"@),
        text_option("loop"@, "inf"@),
        flag_option("mute"@, true),
        flag_option("audio"@, false),
        flag_option("osc"@, false),
        ("osd-level"@, OptionValueModel::Integer(0)),
        flag_option("pause"@, false),
        text_option("hwdec"@, "auto-safe"@),
        flag_option("keepaspect"@, false),
        flag_option("input-default-bindings"@, false),
        flag_option("input-vo-keyboard"@, false),
        flag_option("input-cursor"@, false),
        text_option("vo"@, "libmpv"@),
        text_option("gpu-api"@, "opengl"@),
        text_option("video-sync"@, "audio"@),
        text_option("framedrop"@, "no"@),
    ]
}

fn text(name: &str, value: &str) -> (o: MpvOption)
    ensures
        o@ == text_option(name@, value@),
{
    MpvOption { name: String::from_str(name), value: OptionValue::Text(String::from_str(value)) }
}

fn flag(name: &str, value: bool) -> (o: MpvOption)
    ensures
        o@ == flag_option(name@, value),
{
    MpvOption { name: String::from_str(name), value: OptionValue::Flag(value) }
}

/// The options mpv is created with, in the order they are set.
pub fn init_options() -> (opts: Vec<MpvOption>)
    ensures
        opts@.map_values(|o: MpvOption| o@) == init_options_model(),
{
    let mut v: Vec<MpvOption> = Vec::new();
    v.push(text("terminal", "no"));
    v.push(text("msg-level", "all=warn,vd=info"));
    v.push(text("loop-file", "inf"));
    v.push(text("loop", "inf"));
    v.push(flag("mute", true));
    v.push(flag("audio", false));
    v.push(flag("osc", false));
    v.push(MpvOption { name: String::from_str("osd-level"), value: OptionValue::Integer(0) });
    v.push(flag("pause", false));
    v.push(text("hwdec", "auto-safe"));
    v.push(flag("keepaspect", false));
    v.push(flag("input-default-bindings", false));
    v.push(flag("input-vo-keyboard", false));
    v.push(flag("input-cursor", false));
    v.push(text("vo", "libmpv"));
    v.push(text("gpu-api", "opengl"));
    v.push(text("video-sync", "audio"));
    v.push(text("framedrop", "no"));
    assert(v@.map_values(|o: MpvOption| o@) =~= init_options_model());
    v
}

/// Every option is set once: no later entry overrides an earlier one.
pub proof fn lemma_options_set_once()
    ensures
        forall|i: int, j: int|
            0 <= i < j < init_options_model().len() ==> init_options_model()[i].0 != init_options_model()[j].0,
{
    let m = init_options_model();
    reveal_strlit("terminal");
    reveal_strlit("msg-level");
    reveal_strlit("loop-file");
    reveal_strlit("loop");
    reveal_strlit("mute");
    reveal_strlit("audio");
    reveal_strlit("osc");
    reveal_strlit("osd-level");
    reveal_strlit("pause");
    reveal_strlit("hwdec");
    reveal_strlit("keepaspect");
    reveal_strlit("input-default-bindings");
    reveal_strlit("input-vo-keyboard");
    reveal_strlit("input-cursor");
    reveal_strlit("vo");
    reveal_strlit("gpu-api");
    reveal_strlit("video-sync");
    reveal_strlit("framedrop");
    assert forall|i: int, j: int| 0 <= i < j < m.len() implies m[i].0 != m[j].0 by {
        if m[i].0 == m[j].0 {
            assert(m[i].0.len() == m[j].0.len());
            assert(m[i].0[0] == m[j].0[0]);
            assert(m[i].0[m[i].0.len() - 1] == m[j].0[m[j].0.len() - 1]);
            assert(m[i].0[1] == m[j].0[1]);
        }
    }
}

/// mpv renders through the render API with OpenGL, whatever GPU API the command line
/// named: the options hold `vo=libmpv` and `gpu-api=opengl`.
pub proof fn lemma_renders_with_opengl_through_render_api()
    ensures
        init_options_model().contains(text_option("gpu-api"@, "opengl"@)),
        init_options_model().contains(text_option("vo"@, "libmpv"@)),
{
    assert(init_options_model()[15] == text_option("gpu-api"@, "opengl"@));
    assert(init_options_model()[14] == text_option("vo"@, "libmpv"@));
}

/// The wallpaper loops forever, silently: `loop-file=inf`, `mute`, no audio.
pub proof fn lemma_loops_forever_without_sound()
    ensures
        init_options_model().contains(text_option("loop-file"@, "inf"@)),
        init_options_model().contains(flag_option("mute"@, true)),
        init_options_model().contains(flag_option("audio"@, false)),
{
    assert(init_options_model()[2] == text_option("loop-file"@, "inf"@));
    assert(init_options_model()[4] == flag_option("mute"@, true));
    assert(init_options_model()[5] == flag_option("audio"@, false));
}

/// Polling goes on exactly for end-of-file, log and other ordinary events; the
/// application's loop is stopped only on shutdown, and always on shutdown when it can be.
pub proof fn lemma_event_answers(kind: MpvEventKind, has_loop_signal: bool)
    ensures
        (event_response(kind, has_loop_signal) == EventResponse::KeepPolling) <==> (kind == MpvEventKind::EndFile
            || kind == MpvEventKind::LogMessage || kind == MpvEventKind::Other),
        (event_response(kind, has_loop_signal) == EventResponse::StopLoopAndFinish) <==> (kind
            == MpvEventKind::Shutdown && has_loop_signal),
{
}

/// The value each option is given: mpv is quiet (terminal off, warnings only), loops,
/// plays (not paused) muted without audio, shows no on-screen controls, takes no input,
/// decodes in hardware where safe, fills the surface, renders through `vo=libmpv` with
/// OpenGL, syncs video to audio and never drops frames. As every option is set once,
/// these are the values in effect.
pub proof fn lemma_option_values()
    ensures
        init_options_model().contains(text_option("terminal"@, "no"@)),
        init_options_model().contains(text_option("msg-level"@, "all=warn,vd=info"@)),
        init_options_model().contains(text_option("loop-file"@, "inf"@)),
        init_options_model().contains(text_option("loop"@, "inf"@)),
        init_options_model().contains(flag_option("mute"@, true)),
        init_options_model().contains(flag_option("audio"@, false)),
        init_options_model().contains(flag_option("osc"@, false)),
        init_options_model().contains(("osd-level"@, OptionValueModel::Integer(0))),
        init_options_model().contains(flag_option("pause"@, false)),
        init_options_model().contains(text_option("hwdec"@, "auto-safe"@)),
        init_options_model().contains(flag_option("keepaspect"@, false)),
        init_options_model().contains(flag_option("input-default-bindings"@, false)),
        init_options_model().contains(flag_option("input-vo-keyboard"@, false)),
        init_options_model().contains(flag_option("input-cursor"@, false)),
        init_options_model().contains(text_option("vo"@, "libmpv"@)),
        init_options_model().contains(text_option("gpu-api"@, "opengl"@)),
        init_options_model().contains(text_option("video-sync"@, "audio"@)),
        init_options_model().contains(text_option("framedrop"@, "no"@)),
        init_options_model().len() == 18,
{
    let m = init_options_model();
    assert(m[0] == text_option("terminal"@, "no"@));
    assert(m[1] == text_option("msg-level"@, "all=warn,vd=info"@));
    assert(m[2] == text_option("loop-file"@, "inf"@));
    assert(m[3] == text_option("loop"@, "inf"@));
    assert(m[4] == flag_option("mute"@, true));
    assert(m[5] == flag_option("audio"@, false));
    assert(m[6] == flag_option("osc"@, false));
    assert(m[7] == ("osd-level"@, OptionValueModel::Integer(0)));
    assert(m[8] == flag_option("pause"@, false));
    assert(m[9] == text_option("hwdec"@, "auto-safe"@));
    assert(m[10] == flag_option("keepaspect"@, false));
    assert(m[11] == flag_option("input-default-bindings"@, false));
    assert(m[12] == flag_option("input-vo-keyboard"@, false));
    assert(m[13] == flag_option("input-cursor"@, false));
    assert(m[14] == text_option("vo"@, "libmpv"@));
    assert(m[15] == text_option("gpu-api"@, "opengl"@));
    assert(m[16] == text_option("video-sync"@, "audio"@));
    assert(m[17] == text_option("framedrop"@, "no"@));
}

/// Because every option is set once, an option's name fixes its value: no second entry
/// for `pause` (or any other name) can give it another value.
pub proof fn lemma_option_name_fixes_value(i: int, j: int)
    requires
        0 <= i < init_options_model().len(),
        0 <= j < init_options_model().len(),
        init_options_model()[i].0 == init_options_model()[j].0,
    ensures
        init_options_model()[i] == init_options_model()[j],
{
    lemma_options_set_once();
    if i < j {
        assert(init_options_model()[i].0 != init_options_model()[j].0);
    } else if j < i {
        assert(init_options_model()[j].0 != init_options_model()[i].0);
    }
}

/// The kind of one result of polling mpv for an event.
#[derive(PartialEq, Eq, Structural, Debug, Clone, Copy)]
pub enum MpvEventKind {
    /// A file ended; mpv restarts it, as it loops.
    EndFile,
    /// mpv shut down.
    Shutdown,
    /// A log message.
    LogMessage,
    /// Any other event.
    Other,
    /// mpv reported an error for the event.
    Failed,
    /// No event was pending.
    NoEvent,
}

/// How the event loop answers one polled mpv event.
#[derive(PartialEq, Eq, Structural, Debug, Clone, Copy)]
pub enum EventResponse {
    /// Poll for the next event.
    KeepPolling,
    /// Stop the application's event loop, and stop polling.
    StopLoopAndFinish,
    /// Stop polling.
    Finish,
}

pub open spec fn event_response(kind: MpvEventKind, has_loop_signal: bool) -> EventResponse {
    match kind {
        MpvEventKind::Shutdown => if has_loop_signal { EventResponse::StopLoopAndFinish } else { EventResponse::Finish },
        MpvEventKind::Failed | MpvEventKind::NoEvent => EventResponse::Finish,
        _ => EventResponse::KeepPolling,
    }
}

/// The answer to a polled event; `has_loop_signal` says whether the application's event
/// loop can be stopped.
pub fn respond_to_event(kind: MpvEventKind, has_loop_signal: bool) -> (r: EventResponse)
    ensures
        r == event_response(kind, has_loop_signal),
{
    match kind {
        MpvEventKind::Shutdown => if has_loop_signal { EventResponse::StopLoopAndFinish } else { EventResponse::Finish },
        MpvEventKind::Failed | MpvEventKind::NoEvent => EventResponse::Finish,
        _ => EventResponse::KeepPolling,
    }
}

/// The description of the raw mpv error `code`, given the text mpv has for it, if any.
pub open spec fn raw_error_text(code: int, description: Option<Seq<char>>) -> Seq<char> {
    match description {
        Some(d) => "Raw("@ + decimal(code) + "): "@ + d,
        None => "Raw("@ + decimal(code) + ") (unknown)"@,
    }
}

/// Describes the raw mpv error `code`; `description` is the text mpv gives for it.
pub fn describe_raw_error(code: i32, description: Option<&str>) -> (r: String)
    ensures
        r@ == raw_error_text(code as int, match description { Some(d) => Some(d@), None => None }),
{
    let mut s = String::from_str("Raw(");
    append_decimal(&mut s, code as i64);
    match description {
        Some(d) => {
            s.append("): ");
            s.append(d);
        },
        None => {
            s.append(") (unknown)");
        },
    }
    s
}

} // verus!
