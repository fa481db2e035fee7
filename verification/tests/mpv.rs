use mpv_wallpaper::mpv::{describe_raw_error, init_options, respond_to_event, EventResponse, MpvEventKind, OptionValue};

fn text_value(name: &str) -> Option<String> {
    init_options().into_iter().find(|o| o.name == name).and_then(|o| match o.value {
        OptionValue::Text(s) => Some(s),
        _ => None,
    })
}

#[test]
fn options_render_with_opengl_through_libmpv() {
    assert_eq!(text_value("vo").as_deref(), Some("libmpv"));
    assert_eq!(text_value("gpu-api").as_deref(), Some("opengl"));
    assert_eq!(text_value("framedrop").as_deref(), Some("no"));
    assert_eq!(text_value("video-sync").as_deref(), Some("audio"));
    assert_eq!(text_value("loop-file").as_deref(), Some("inf"));
}

#[test]
fn options_order_and_count() {
    let names: Vec<String> = init_options().into_iter().map(|o| o.name).collect();
    assert_eq!(names.len(), 18);
    assert_eq!(names[0], "terminal");
    assert_eq!(names[17], "framedrop");
    let mut sorted = names.clone();
    sorted.sort();
    sorted.dedup();
    assert_eq!(sorted.len(), 18);
}

#[test]
fn options_flags() {
    let opts = init_options();
    let mute = opts.iter().find(|o| o.name == "mute").unwrap();
    assert!(matches!(mute.value, OptionValue::Flag(true)));
    let osd = opts.iter().find(|o| o.name == "osd-level").unwrap();
    assert!(matches!(osd.value, OptionValue::Integer(0)));
}

#[test]
fn event_answers() {
    assert_eq!(respond_to_event(MpvEventKind::EndFile, true), EventResponse::KeepPolling);
    assert_eq!(respond_to_event(MpvEventKind::LogMessage, false), EventResponse::KeepPolling);
    assert_eq!(respond_to_event(MpvEventKind::Other, true), EventResponse::KeepPolling);
    assert_eq!(respond_to_event(MpvEventKind::Shutdown, true), EventResponse::StopLoopAndFinish);
    assert_eq!(respond_to_event(MpvEventKind::Shutdown, false), EventResponse::Finish);
    assert_eq!(respond_to_event(MpvEventKind::Failed, true), EventResponse::Finish);
    assert_eq!(respond_to_event(MpvEventKind::NoEvent, true), EventResponse::Finish);
}

#[test]
fn raw_error_descriptions() {
    assert_eq!(describe_raw_error(-13, Some("invalid parameter")), "Raw(-13): invalid parameter");
    assert_eq!(describe_raw_error(-99, None), "Raw(-99) (unknown)");
    assert_eq!(describe_raw_error(0, Some("success")), "Raw(0): success");
}
