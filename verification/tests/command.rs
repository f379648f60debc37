use ws_live_server::command::{arguments, PROGRAM};

#[test]
fn program_is_ffmpeg() {
    assert_eq!(PROGRAM, "ffmpeg");
}

#[test]
fn arguments_are_the_template_with_the_source() {
    let expected: Vec<String> = [
        "-thread_queue_size",
        "1024",
        "-rtsp_flags",
        "prefer_tcp",
        "-max_delay",
        "500000",
        "-stimeout",
        "5000000",
        "-i",
        "rtsp://192.168.1.10:554/live",
        "-c:v",
        "copy",
        "-c:a",
        "libmp3lame",
        "-q:a",
        "2",
        "-loglevel",
        "quiet",
        "-f",
        "flv",
        "-ar",
        "22050",
        "-crf",
        "50",
        "-r",
        "15",
        "-",
    ]
    .iter()
    .map(|text| text.to_string())
    .collect();
    assert_eq!(arguments("rtsp://192.168.1.10:554/live"), expected);
}

#[test]
fn arguments_pass_the_source_verbatim() {
    let source = "  -i evil \"quoted\" \u{e9}\n";
    let list = arguments(source);
    assert_eq!(list.len(), 27);
    assert_eq!(list[9], source);
    assert_eq!(arguments("")[9], "");
}
