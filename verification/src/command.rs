//! How the transcoding process is invoked.

use vstd::prelude::*;
use vstd::string::StringExecFns;

verus! {

/// The program that transcodes.
pub const PROGRAM: &'static str = "ffmpeg";

/// The views of a list of strings, in order.
pub open spec fn texts(list: Seq<String>) -> Seq<Seq<char>> {
    list.map_values(|text: String| text@)
}

/// The argument list for transcoding `source`: a fixed template with the
/// source locator, unchanged, as the input. The process reads the source
/// over TCP, copies the video, encodes the audio as MP3 and writes an FLV
/// stream to its standard output, without logging.
pub open spec fn transcoder_arguments(source: Seq<char>) -> Seq<Seq<char>> {
    seq![
        "-thread_queue_size"@,
        "1024"@,
        "-rtsp_flags"@,
        "prefer_tcp"@,
        "-max_delay"@,
        "500000"@,
        "-stimeout"@,
        "5000000"@,
        "-i"@,
        source,
        "-c:v"@,
        "copy"@,
        "-c:a"@,
        "libmp3lame"@,
        "-q:a"@,
        "2"@,
        "-loglevel"@,
        "quiet"@,
        "-f"@,
        "flv"@,
        "-ar"@,
        "22050"@,
        "-crf"@,
        "50"@,
        "-r"@,
        "15"@,
        "-"@,
    ]
}

fn push_text(list: &mut Vec<String>, text: &str)
    ensures
        texts(final(list)@) == texts(old(list)@).push(text@),
{
    list.push(String::from_str(text));
}

/// Builds the argument list for transcoding `source`.
pub fn arguments(source: &str) -> (list: Vec<String>)
    ensures
        texts(list@) == transcoder_arguments(source@),
{
    let mut list: Vec<String> = Vec::new();
    push_text(&mut list, "-thread_queue_size");
    push_text(&mut list, "1024");
    push_text(&mut list, "-rtsp_flags");
    push_text(&mut list, "prefer_tcp");
    push_text(&mut list, "-max_delay");
    push_text(&mut list, "500000");
    push_text(&mut list, "-stimeout");
    push_text(&mut list, "5000000");
    push_text(&mut list, "-i");
    push_text(&mut list, source);
    push_text(&mut list, "-c:v");
    push_text(&mut list, "copy");
    push_text(&mut list, "-c:a");
    push_text(&mut list, "libmp3lame");
    push_text(&mut list, "-q:a");
    push_text(&mut list, "2");
    push_text(&mut list, "-loglevel");
    push_text(&mut list, "quiet");
    push_text(&mut list, "-f");
    push_text(&mut list, "flv");
    push_text(&mut list, "-ar");
    push_text(&mut list, "22050");
    push_text(&mut list, "-crf");
    push_text(&mut list, "50");
    push_text(&mut list, "-r");
    push_text(&mut list, "15");
    push_text(&mut list, "-");
    list
}

} // verus!
