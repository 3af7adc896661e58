//! The probe of a media file: what the probing tool's JSON report says of
//! the file's duration, bit rate, and video and audio streams.

use crate::fixed::{clamp_i64, clamp_to_i64, nearest, nearest_quotient};
use crate::json::{
    as_items, as_text, as_unsigned, error_text, json_document, json_tree, member, parse_json,
    JsonTree,
};
use crate::parse::{
    find_char, micros_of, parse_decimal, parse_u32, parse_u64, position_of, u32_of, u64_of,
};
use crate::text::{chars_of, same_text, views};
use vstd::prelude::*;
use vstd::string::*;

verus! {

/// What a probe tells of a file. `duration` is in millionths of a second
/// and `fps` in millionths of a frame per second.
#[derive(Debug, Clone)]
pub struct MediaProbeResult {
    pub duration: i64,
    pub width: Option<u32>,
    pub height: Option<u32>,
    pub codec: Option<String>,
    pub fps: Option<i64>,
    pub audio_codec: Option<String>,
    pub sample_rate: Option<u32>,
    pub bit_rate: Option<u64>,
}

/// A probe result over plain text.
pub struct ProbeView {
    pub duration: i64,
    pub width: Option<u32>,
    pub height: Option<u32>,
    pub codec: Option<Seq<char>>,
    pub fps: Option<i64>,
    pub audio_codec: Option<Seq<char>>,
    pub sample_rate: Option<u32>,
    pub bit_rate: Option<u64>,
}

/// The contents of an optional string.
pub open spec fn text_of(s: Option<String>) -> Option<Seq<char>> {
    match s {
        Some(t) => Some(t@),
        None => None,
    }
}

impl View for MediaProbeResult {
    type V = ProbeView;

    open spec fn view(&self) -> ProbeView {
        ProbeView {
            duration: self.duration,
            width: self.width,
            height: self.height,
            codec: text_of(self.codec),
            fps: self.fps,
            audio_codec: text_of(self.audio_codec),
            sample_rate: self.sample_rate,
            bit_rate: self.bit_rate,
        }
    }
}

/// The fields that are read of one stream of the report.
#[derive(Debug, Clone)]
pub struct ProbeStream {
    /// `codec_type`; empty where the report has none.
    pub codec_type: String,
    pub width: Option<u64>,
    pub height: Option<u64>,
    pub codec_name: Option<String>,
    pub r_frame_rate: Option<String>,
    pub sample_rate: Option<String>,
}

/// A stream over plain text.
pub struct StreamView {
    pub codec_type: Seq<char>,
    pub width: Option<u64>,
    pub height: Option<u64>,
    pub codec_name: Option<Seq<char>>,
    pub r_frame_rate: Option<Seq<char>>,
    pub sample_rate: Option<Seq<char>>,
}

impl View for ProbeStream {
    type V = StreamView;

    open spec fn view(&self) -> StreamView {
        StreamView {
            codec_type: self.codec_type@,
            width: self.width,
            height: self.height,
            codec_name: text_of(self.codec_name),
            r_frame_rate: text_of(self.r_frame_rate),
            sample_rate: text_of(self.sample_rate),
        }
    }
}

/// The fields that are read of a report: two of its format block, and its
/// streams in order.
#[derive(Debug, Clone)]
pub struct ProbeDocument {
    pub duration: Option<String>,
    pub bit_rate: Option<String>,
    pub streams: Vec<ProbeStream>,
}

/// A report over plain text.
pub struct DocumentView {
    pub duration: Option<Seq<char>>,
    pub bit_rate: Option<Seq<char>>,
    pub streams: Seq<StreamView>,
}

impl View for ProbeDocument {
    type V = DocumentView;

    open spec fn view(&self) -> DocumentView {
        DocumentView {
            duration: text_of(self.duration),
            bit_rate: text_of(self.bit_rate),
            streams: views(self.streams@),
        }
    }
}

/// Why a probe failed.
#[derive(Debug, Clone, PartialEq, Eq)]
pub enum ProbeError {
    /// There is no file at the path.
    FileNotFound(String),
    /// The probing tool could not be started; the cause is the system's.
    NotStarted(String),
    /// The probing tool ended with a failure; its error output is kept.
    ToolFailed(String),
    /// The report is no JSON document; the parser's words are kept.
    Malformed(String),
}

/// A probe error over plain text.
pub enum ProbeErrorView {
    FileNotFound(Seq<char>),
    NotStarted(Seq<char>),
    ToolFailed(Seq<char>),
    Malformed(Seq<char>),
}

impl View for ProbeError {
    type V = ProbeErrorView;

    open spec fn view(&self) -> ProbeErrorView {
        match *self {
            ProbeError::FileNotFound(path) => ProbeErrorView::FileNotFound(path@),
            ProbeError::NotStarted(cause) => ProbeErrorView::NotStarted(cause@),
            ProbeError::ToolFailed(output) => ProbeErrorView::ToolFailed(output@),
            ProbeError::Malformed(cause) => ProbeErrorView::Malformed(cause@),
        }
    }
}

/// The message that a probe error shows to the caller.
pub open spec fn probe_message(e: ProbeErrorView) -> Seq<char> {
    match e {
        ProbeErrorView::FileNotFound(path) => "File not found: "@ + path,
        ProbeErrorView::NotStarted(cause) => "Failed to run ffprobe: "@ + cause
            + ". Make sure FFmpeg is installed."@,
        ProbeErrorView::ToolFailed(output) => "ffprobe failed: "@ + output,
        ProbeErrorView::Malformed(cause) => "Failed to parse ffprobe output: "@ + cause,
    }
}

impl ProbeError {
    /// The message shown to the caller.
    pub fn message(&self) -> (r: String)
        ensures
            r@ == probe_message(self@),
    {
        match self {
            ProbeError::FileNotFound(path) => {
                let mut r = String::from_str("File not found: ");
                r.append(path.as_str());
                r
            },
            ProbeError::NotStarted(cause) => {
                let mut r = String::from_str("Failed to run ffprobe: ");
                r.append(cause.as_str());
                r.append(". Make sure FFmpeg is installed.");
                r
            },
            ProbeError::ToolFailed(output) => {
                let mut r = String::from_str("ffprobe failed: ");
                r.append(output.as_str());
                r
            },
            ProbeError::Malformed(cause) => {
                let mut r = String::from_str("Failed to parse ffprobe output: ");
                r.append(cause.as_str());
                r
            },
        }
    }
}

/// The frame rate that a ratio such as `24000/1001` writes, in millionths
/// of a frame per second: a numerator and a denominator, each a decimal
/// number, around the text's one slash, with the denominator above zero.
pub open spec fn frame_rate_of(s: Seq<char>) -> Option<i64> {
    let p = position_of(s, '/');
    if p < s.len() && position_of(s.skip(p + 1), '/') == s.len() - p - 1 {
        match (micros_of(s.take(p)), micros_of(s.skip(p + 1))) {
            (Some(num), Some(den)) => if den > 0 {
                Some(clamp_i64(nearest(num * 1_000_000, den as int)) as i64)
            } else {
                None
            },
            _ => None,
        }
    } else {
        None
    }
}

/// A 64-bit number cut to its low 32 bits.
pub open spec fn low_32(v: Option<u64>) -> Option<u32> {
    match v {
        Some(n) => Some((n % 0x1_0000_0000) as u32),
        None => None,
    }
}

/// The duration of a report in millionths of a second: zero where the
/// report has none or has one that is no decimal number.
pub open spec fn duration_of(text: Option<Seq<char>>) -> i64 {
    match text {
        Some(t) => match micros_of(t) {
            Some(v) => v,
            None => 0,
        },
        None => 0,
    }
}

/// The probe result before any stream is read.
pub open spec fn format_summary(doc: DocumentView) -> ProbeView {
    ProbeView {
        duration: duration_of(doc.duration),
        width: None,
        height: None,
        codec: None,
        fps: None,
        audio_codec: None,
        sample_rate: None,
        bit_rate: match doc.bit_rate {
            Some(t) => u64_of(t),
            None => None,
        },
    }
}

/// The probe result after one more stream. A video stream sets the
/// picture's width, height and codec, and the frame rate where it has a
/// valid one. An audio stream sets the audio codec, and the sample rate
/// where it has one in text. A stream of another type sets nothing.
pub open spec fn with_stream(r: ProbeView, s: StreamView) -> ProbeView {
    if s.codec_type == "video"@ {
        ProbeView {
            duration: r.duration,
            width: low_32(s.width),
            height: low_32(s.height),
            codec: s.codec_name,
            fps: match s.r_frame_rate {
                Some(t) => match frame_rate_of(t) {
                    Some(f) => Some(f),
                    None => r.fps,
                },
                None => r.fps,
            },
            audio_codec: r.audio_codec,
            sample_rate: r.sample_rate,
            bit_rate: r.bit_rate,
        }
    } else if s.codec_type == "audio"@ {
        ProbeView {
            duration: r.duration,
            width: r.width,
            height: r.height,
            codec: r.codec,
            fps: r.fps,
            audio_codec: s.codec_name,
            sample_rate: match s.sample_rate {
                Some(t) => u32_of(t),
                None => r.sample_rate,
            },
            bit_rate: r.bit_rate,
        }
    } else {
        r
    }
}

/// The probe result after the given streams, taken in order.
pub open spec fn with_streams(r: ProbeView, streams: Seq<StreamView>) -> ProbeView
    decreases streams.len(),
{
    if streams.len() == 0 {
        r
    } else {
        with_stream(with_streams(r, streams.drop_last()), streams.last())
    }
}

/// What a report tells of the file.
pub open spec fn summary_of(doc: DocumentView) -> ProbeView {
    with_streams(format_summary(doc), doc.streams)
}

/// A report without an audio stream leaves the audio codec and the sample
/// rate absent.
pub proof fn no_audio_stream_no_audio_fields(doc: DocumentView)
    requires
        forall|i: int| 0 <= i < doc.streams.len() ==> (#[trigger] doc.streams[i]).codec_type
            != "audio"@,
    ensures
        summary_of(doc).audio_codec is None,
        summary_of(doc).sample_rate is None,
{
    audio_fields_kept(format_summary(doc), doc.streams);
}

/// Streams that are no audio streams leave the audio fields as they were.
proof fn audio_fields_kept(r: ProbeView, streams: Seq<StreamView>)
    requires
        forall|i: int| 0 <= i < streams.len() ==> (#[trigger] streams[i]).codec_type != "audio"@,
    ensures
        with_streams(r, streams).audio_codec == r.audio_codec,
        with_streams(r, streams).sample_rate == r.sample_rate,
    decreases streams.len(),
{
    if streams.len() > 0 {
        let rest = streams.drop_last();
        assert forall|i: int| 0 <= i < rest.len() implies (#[trigger] rest[i]).codec_type
            != "audio"@ by {
            assert(rest[i] == streams[i]);
        }
        audio_fields_kept(r, rest);
        assert(streams.last() == streams[streams.len() - 1]);
    }
}

/// The streams change neither the duration nor the bit rate: the duration
/// is that of the format block, and zero where the block has none that is
/// a decimal number.
pub proof fn duration_comes_from_format(doc: DocumentView)
    ensures
        summary_of(doc).duration == duration_of(doc.duration),
        (doc.duration is None || micros_of(doc.duration->0) is None) ==> summary_of(doc).duration
            == 0,
        summary_of(doc).bit_rate == format_summary(doc).bit_rate,
{
    format_fields_kept(format_summary(doc), doc.streams);
}

/// No stream changes the duration or the bit rate.
proof fn format_fields_kept(r: ProbeView, streams: Seq<StreamView>)
    ensures
        with_streams(r, streams).duration == r.duration,
        with_streams(r, streams).bit_rate == r.bit_rate,
    decreases streams.len(),
{
    if streams.len() > 0 {
        format_fields_kept(r, streams.drop_last());
    }
}

/// Reads a ratio as a frame rate.
pub fn parse_frame_rate(text: &str) -> (r: Option<i64>)
    ensures
        r == frame_rate_of(text@),
{
    let chars = chars_of(text);
    let n: usize = chars.len();
    assert(chars@.subrange(0, n as int) =~= text@);
    let p: usize = find_char(&chars, 0, n, '/');
    if p == n {
        return None;
    }
    assert(chars@.subrange(p + 1, n as int) =~= text@.skip(p + 1));
    assert(chars@.subrange(0, p as int) =~= text@.take(p as int));
    let q: usize = find_char(&chars, p + 1, n, '/');
    if q != n {
        return None;
    }
    match (parse_decimal(&chars, 0, p), parse_decimal(&chars, p + 1, n)) {
        (Some(num), Some(den)) => {
            if den > 0 {
                assert(-0x8000_0000_0000_0000 * 1_000_000 <= num * 1_000_000
                    <= 0x8000_0000_0000_0000 * 1_000_000);
                Some(clamp_to_i64(nearest_quotient(num as i128 * 1_000_000, den as i128)))
            } else {
                None
            }
        },
        _ => None,
    }
}

/// Reads a decimal number of seconds; zero where the text is none.
pub fn parse_duration(text: &Option<String>) -> (r: i64)
    ensures
        r == duration_of(text_of(*text)),
{
    match text {
        Some(t) => {
            let chars = chars_of(t.as_str());
            assert(chars@.subrange(0, chars@.len() as int) =~= t@);
            match parse_decimal(&chars, 0, chars.len()) {
                Some(v) => v,
                None => 0,
            }
        },
        None => 0,
    }
}

/// Reads an unsigned integer of 64 bits.
pub fn parse_count(text: &str) -> (r: Option<u64>)
    ensures
        r == u64_of(text@),
{
    let chars = chars_of(text);
    assert(chars@.subrange(0, chars@.len() as int) =~= text@);
    parse_u64(&chars, 0, chars.len())
}

/// Reads an unsigned integer of 32 bits.
pub fn parse_small_count(text: &str) -> (r: Option<u32>)
    ensures
        r == u32_of(text@),
{
    let chars = chars_of(text);
    assert(chars@.subrange(0, chars@.len() as int) =~= text@);
    parse_u32(&chars, 0, chars.len())
}

/// A copy of an optional string.
fn copy_text(s: &Option<String>) -> (r: Option<String>)
    ensures
        text_of(r) == text_of(*s),
{
    match s {
        Some(t) => Some(t.clone()),
        None => None,
    }
}

/// Cuts a 64-bit number to its low 32 bits.
fn cut_to_32(v: Option<u64>) -> (r: Option<u32>)
    ensures
        r == low_32(v),
{
    match v {
        Some(n) => Some((n % 0x1_0000_0000) as u32),
        None => None,
    }
}

impl MediaProbeResult {
    /// Takes one more stream into the result.
    pub fn add_stream(&mut self, stream: &ProbeStream)
        ensures
            final(self)@ == with_stream(old(self)@, stream@),
    {
        if same_text(stream.codec_type.as_str(), "video") {
            self.width = cut_to_32(stream.width);
            self.height = cut_to_32(stream.height);
            self.codec = copy_text(&stream.codec_name);
            if let Some(t) = &stream.r_frame_rate {
                if let Some(f) = parse_frame_rate(t.as_str()) {
                    self.fps = Some(f);
                }
            }
        } else if same_text(stream.codec_type.as_str(), "audio") {
            self.audio_codec = copy_text(&stream.codec_name);
            if let Some(t) = &stream.sample_rate {
                self.sample_rate = parse_small_count(t.as_str());
            }
        }
    }
}

/// Works out what a report tells of the file.
pub fn summarize(doc: &ProbeDocument) -> (r: MediaProbeResult)
    ensures
        r@ == summary_of(doc@),
{
    let mut r = MediaProbeResult {
        duration: parse_duration(&doc.duration),
        width: None,
        height: None,
        codec: None,
        fps: None,
        audio_codec: None,
        sample_rate: None,
        bit_rate: match &doc.bit_rate {
            Some(t) => parse_count(t.as_str()),
            None => None,
        },
    };
    let ghost streams = doc@.streams;
    let mut i: usize = 0;
    assert(streams.take(0) =~= Seq::<StreamView>::empty());
    while i < doc.streams.len()
        invariant
            i <= doc.streams.len(),
            streams == doc@.streams,
            r@ == with_streams(format_summary(doc@), streams.take(i as int)),
        decreases doc.streams.len() - i,
    {
        proof {
            assert(streams.take(i + 1).drop_last() =~= streams.take(i as int));
            assert(streams.take(i + 1).last() == doc.streams@[i as int]@);
        }
        r.add_stream(&doc.streams[i]);
        i += 1;
    }
    assert(streams.take(i as int) =~= streams);
    r
}

/// The member of an object under the key; nothing for a missing key or for
/// a value that is no object.
pub open spec fn member_of(tree: JsonTree, key: Seq<char>) -> Option<JsonTree> {
    match tree {
        JsonTree::Object(members) => if members.contains_key(key) {
            Some(members[key])
        } else {
            None
        },
        _ => None,
    }
}

/// The string that a member of the value holds.
pub open spec fn member_text(tree: JsonTree, key: Seq<char>) -> Option<Seq<char>> {
    match member_of(tree, key) {
        Some(JsonTree::Text(t)) => Some(t),
        _ => None,
    }
}

/// The unsigned integer that a member of the value holds.
pub open spec fn member_unsigned(tree: JsonTree, key: Seq<char>) -> Option<u64> {
    match member_of(tree, key) {
        Some(JsonTree::Number(n)) => n,
        _ => None,
    }
}

/// The fields that are read of one element of `streams`.
pub open spec fn stream_of(tree: JsonTree) -> StreamView {
    StreamView {
        codec_type: match member_text(tree, "codec_type"@) {
            Some(t) => t,
            None => ""@,
        },
        width: member_unsigned(tree, "width"@),
        height: member_unsigned(tree, "height"@),
        codec_name: member_text(tree, "codec_name"@),
        r_frame_rate: member_text(tree, "r_frame_rate"@),
        sample_rate: member_text(tree, "sample_rate"@),
    }
}

/// The elements of the member `streams`, where it is an array; none
/// otherwise.
pub open spec fn stream_trees(tree: JsonTree) -> Seq<JsonTree> {
    match member_of(tree, "streams"@) {
        Some(JsonTree::Array(items)) => items,
        _ => Seq::<JsonTree>::empty(),
    }
}

/// The fields that are read of a report. A field that is missing or of
/// another type is absent.
pub open spec fn document_of(tree: JsonTree) -> DocumentView {
    DocumentView {
        duration: match member_of(tree, "format"@) {
            Some(f) => member_text(f, "duration"@),
            None => None,
        },
        bit_rate: match member_of(tree, "format"@) {
            Some(f) => member_text(f, "bit_rate"@),
            None => None,
        },
        streams: Seq::new(stream_trees(tree).len(), |i: int| stream_of(stream_trees(tree)[i])),
    }
}

/// Reads the string that a member holds.
fn read_text(value: &serde_json::Value, key: &str) -> (r: Option<String>)
    ensures
        text_of(r) == member_text(json_tree(*value), key@),
{
    match member(value, key) {
        Some(m) => match as_text(m) {
            Some(t) => Some(String::from_str(t)),
            None => None,
        },
        None => None,
    }
}

/// Reads the unsigned integer that a member holds.
fn read_unsigned(value: &serde_json::Value, key: &str) -> (r: Option<u64>)
    ensures
        r == member_unsigned(json_tree(*value), key@),
{
    match member(value, key) {
        Some(m) => as_unsigned(m),
        None => None,
    }
}

/// Reads the fields of one element of `streams`.
fn read_stream(value: &serde_json::Value) -> (r: ProbeStream)
    ensures
        r@ == stream_of(json_tree(*value)),
{
    ProbeStream {
        codec_type: match read_text(value, "codec_type") {
            Some(t) => t,
            None => String::from_str(""),
        },
        width: read_unsigned(value, "width"),
        height: read_unsigned(value, "height"),
        codec_name: read_text(value, "codec_name"),
        r_frame_rate: read_text(value, "r_frame_rate"),
        sample_rate: read_text(value, "sample_rate"),
    }
}

/// Reads the streams of a report.
fn read_streams(value: &serde_json::Value) -> (r: Vec<ProbeStream>)
    ensures
        r@.len() == stream_trees(json_tree(*value)).len(),
        forall|i: int|
            0 <= i < r@.len() ==> (#[trigger] r@[i])@ == stream_of(
                stream_trees(json_tree(*value))[i],
            ),
{
    let mut r: Vec<ProbeStream> = Vec::new();
    if let Some(m) = member(value, "streams") {
        if let Some(items) = as_items(m) {
            let ghost trees = stream_trees(json_tree(*value));
            let mut i: usize = 0;
            while i < items.len()
                invariant
                    i <= items.len(),
                    items@.len() == trees.len(),
                    forall|k: int| 0 <= k < trees.len() ==> json_tree(#[trigger] items@[k]) == trees[k],
                    r@.len() == i,
                    forall|k: int| 0 <= k < i ==> (#[trigger] r@[k])@ == stream_of(trees[k]),
                decreases items.len() - i,
            {
                r.push(read_stream(&items[i]));
                i += 1;
            }
        }
    }
    r
}

/// Reads the fields of a report that the probe uses.
pub fn read_document(value: &serde_json::Value) -> (r: ProbeDocument)
    ensures
        r@ == document_of(json_tree(*value)),
{
    let format = member(value, "format");
    let r = ProbeDocument {
        duration: match format {
            Some(f) => read_text(f, "duration"),
            None => None,
        },
        bit_rate: match format {
            Some(f) => read_text(f, "bit_rate"),
            None => None,
        },
        streams: read_streams(value),
    };
    assert(r@.streams =~= document_of(json_tree(*value)).streams);
    r
}

/// Probes from the tool's report: parses the JSON text and works out the
/// result. Only a text that the parser refuses fails; a field that is
/// missing or unreadable is left absent.
pub fn probe_media(report: &str) -> (r: Result<MediaProbeResult, ProbeError>)
    ensures
        match json_document(report@) {
            Some(tree) => r matches Ok(p) && p@ == summary_of(document_of(tree)),
            None => r matches Err(e) && e is Malformed,
        },
{
    match parse_json(report) {
        Ok(value) => Ok(summarize(&read_document(&value))),
        Err(e) => Err(ProbeError::Malformed(error_text(&e))),
    }
}

} // verus!
