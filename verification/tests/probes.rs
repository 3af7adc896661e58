use timeline_export::media::{
    audio_extension, check_ffmpeg, describe_file, get_file_metadata, is_listed, list_media_files,
    media_extension, picture_extension, read_first_line, video_extension, FileEntry, MediaError,
    VersionQuery,
};
use timeline_export::probe::{
    parse_count, parse_duration, parse_frame_rate, parse_small_count, probe_media, read_document,
    summarize, MediaProbeResult, ProbeDocument, ProbeError, ProbeStream,
};

fn video_stream() -> ProbeStream {
    ProbeStream {
        codec_type: "video".to_string(),
        width: Some(1920),
        height: Some(1080),
        codec_name: Some("h264".to_string()),
        r_frame_rate: Some("30/1".to_string()),
        sample_rate: None,
    }
}

fn audio_stream() -> ProbeStream {
    ProbeStream {
        codec_type: "audio".to_string(),
        width: None,
        height: None,
        codec_name: Some("aac".to_string()),
        r_frame_rate: Some("0/0".to_string()),
        sample_rate: Some("48000".to_string()),
    }
}

fn document(duration: Option<&str>, bit_rate: Option<&str>, streams: Vec<ProbeStream>) -> ProbeDocument {
    ProbeDocument {
        duration: duration.map(|s| s.to_string()),
        bit_rate: bit_rate.map(|s| s.to_string()),
        streams,
    }
}

fn probe(report: &str) -> MediaProbeResult {
    probe_media(report).unwrap()
}

#[test]
fn frame_rates() {
    assert_eq!(parse_frame_rate("30/1"), Some(30_000_000));
    assert_eq!(parse_frame_rate("24000/1001"), Some(23_976_024));
    assert_eq!(parse_frame_rate("30000/1001"), Some(29_970_030));
    assert_eq!(parse_frame_rate("25/2"), Some(12_500_000));
    assert_eq!(parse_frame_rate("1/3"), Some(333_333));
    assert_eq!(parse_frame_rate("2/3"), Some(666_667));
    assert_eq!(parse_frame_rate("-30/1"), Some(-30_000_000));
    assert_eq!(parse_frame_rate("7.5/0.5"), Some(15_000_000));
}

#[test]
fn frame_rates_that_are_not_valid() {
    assert_eq!(parse_frame_rate("0/0"), None);
    assert_eq!(parse_frame_rate("30/0"), None);
    assert_eq!(parse_frame_rate("30/-1"), None);
    assert_eq!(parse_frame_rate("30"), None);
    assert_eq!(parse_frame_rate("30/1/1"), None);
    assert_eq!(parse_frame_rate("/"), None);
    assert_eq!(parse_frame_rate("30/"), None);
    assert_eq!(parse_frame_rate("/30"), None);
    assert_eq!(parse_frame_rate("a/b"), None);
    assert_eq!(parse_frame_rate(""), None);
    assert_eq!(parse_frame_rate("30 / 1"), None);
}

#[test]
fn frame_rate_is_limited_to_64_bits() {
    assert_eq!(parse_frame_rate("9000000000000/0.000001"), Some(i64::MAX));
    assert_eq!(parse_frame_rate("-9000000000000/0.000001"), Some(i64::MIN));
}

#[test]
fn durations_and_counts() {
    assert_eq!(parse_duration(&Some("12.345000".to_string())), 12_345_000);
    assert_eq!(parse_duration(&Some("N/A".to_string())), 0);
    assert_eq!(parse_duration(&Some("".to_string())), 0);
    assert_eq!(parse_duration(&None), 0);
    assert_eq!(parse_count("128000"), Some(128_000));
    assert_eq!(parse_count("128k"), None);
    assert_eq!(parse_small_count("48000"), Some(48_000));
    assert_eq!(parse_small_count("4294967296"), None);
}

#[test]
fn summary_of_a_video_and_an_audio_stream() {
    let r = summarize(&document(Some("10.500000"), Some("1500000"), vec![video_stream(), audio_stream()]));
    assert_eq!(r.duration, 10_500_000);
    assert_eq!(r.bit_rate, Some(1_500_000));
    assert_eq!(r.width, Some(1920));
    assert_eq!(r.height, Some(1080));
    assert_eq!(r.codec, Some("h264".to_string()));
    assert_eq!(r.fps, Some(30_000_000));
    assert_eq!(r.audio_codec, Some("aac".to_string()));
    assert_eq!(r.sample_rate, Some(48_000));
}

#[test]
fn video_only_leaves_the_audio_fields_absent() {
    let r = summarize(&document(Some("3.2"), None, vec![video_stream()]));
    assert_eq!(r.audio_codec, None);
    assert_eq!(r.sample_rate, None);
    assert_eq!(r.width, Some(1920));
    assert_eq!(r.duration, 3_200_000);
    assert_eq!(r.bit_rate, None);
}

#[test]
fn duration_defaults_to_zero() {
    assert_eq!(summarize(&document(None, None, vec![video_stream()])).duration, 0);
    assert_eq!(summarize(&document(Some("N/A"), None, vec![])).duration, 0);
    assert_eq!(summarize(&document(Some("1e3"), None, vec![])).duration, 0);
}

#[test]
fn empty_report_gives_an_empty_result() {
    let r = summarize(&document(None, None, vec![]));
    assert_eq!(r.duration, 0);
    assert_eq!(r.width, None);
    assert_eq!(r.height, None);
    assert_eq!(r.codec, None);
    assert_eq!(r.fps, None);
    assert_eq!(r.audio_codec, None);
    assert_eq!(r.sample_rate, None);
    assert_eq!(r.bit_rate, None);
}

#[test]
fn later_streams_overwrite_earlier_ones() {
    let mut second = video_stream();
    second.width = None;
    second.height = Some(720);
    second.codec_name = None;
    second.r_frame_rate = Some("bad".to_string());
    let mut silent = audio_stream();
    silent.codec_name = None;
    silent.sample_rate = None;
    let r = summarize(&document(None, None, vec![video_stream(), audio_stream(), second, silent]));
    assert_eq!(r.width, None);
    assert_eq!(r.height, Some(720));
    assert_eq!(r.codec, None);
    assert_eq!(r.fps, Some(30_000_000));
    assert_eq!(r.audio_codec, None);
    assert_eq!(r.sample_rate, Some(48_000));
}

#[test]
fn unreadable_sample_rate_is_absent() {
    let mut broken = audio_stream();
    broken.sample_rate = Some("48k".to_string());
    let r = summarize(&document(None, None, vec![audio_stream(), broken]));
    assert_eq!(r.sample_rate, None);
    assert_eq!(r.audio_codec, Some("aac".to_string()));
}

#[test]
fn streams_of_other_types_are_passed_over() {
    let mut subtitle = video_stream();
    subtitle.codec_type = "subtitle".to_string();
    let mut untyped = audio_stream();
    untyped.codec_type = String::new();
    let r = summarize(&document(None, None, vec![subtitle, untyped]));
    assert_eq!(r.width, None);
    assert_eq!(r.codec, None);
    assert_eq!(r.audio_codec, None);
    assert_eq!(r.sample_rate, None);
}

#[test]
fn width_is_cut_to_32_bits() {
    let mut wide = video_stream();
    wide.width = Some(4_294_967_296 + 7);
    wide.height = Some(u64::MAX);
    let r = summarize(&document(None, None, vec![wide]));
    assert_eq!(r.width, Some(7));
    assert_eq!(r.height, Some(u32::MAX));
}

#[test]
fn probe_of_a_full_report() {
    let r = probe(
        r#"{
            "streams": [
                {"index": 0, "codec_name": "h264", "codec_type": "video", "width": 1280,
                 "height": 720, "r_frame_rate": "24000/1001", "avg_frame_rate": "24000/1001"},
                {"index": 1, "codec_name": "aac", "codec_type": "audio", "sample_rate": "44100",
                 "channels": 2, "r_frame_rate": "0/0"}
            ],
            "format": {"filename": "a.mp4", "duration": "12.345000", "bit_rate": "1205959"}
        }"#,
    );
    assert_eq!(r.duration, 12_345_000);
    assert_eq!(r.bit_rate, Some(1_205_959));
    assert_eq!(r.width, Some(1280));
    assert_eq!(r.height, Some(720));
    assert_eq!(r.codec, Some("h264".to_string()));
    assert_eq!(r.fps, Some(23_976_024));
    assert_eq!(r.audio_codec, Some("aac".to_string()));
    assert_eq!(r.sample_rate, Some(44_100));
}

#[test]
fn probe_of_a_file_with_only_a_video_stream() {
    let r = probe(
        r#"{"streams":[{"codec_type":"video","codec_name":"vp9","width":640,"height":360,"r_frame_rate":"30/1"}],"format":{}}"#,
    );
    assert_eq!(r.audio_codec, None);
    assert_eq!(r.sample_rate, None);
    assert_eq!(r.duration, 0);
    assert_eq!(r.bit_rate, None);
    assert_eq!(r.codec, Some("vp9".to_string()));
    assert_eq!(r.fps, Some(30_000_000));
}

#[test]
fn probe_tolerates_missing_and_mistyped_fields() {
    let r = probe(
        r#"{"format":{"duration":12.5,"bit_rate":1000},
            "streams":[{"codec_type":"video","width":"1920","height":-1,"codec_name":7,"r_frame_rate":30},
                       {"codec_type":"audio","sample_rate":48000},
                       {"codec_type":null}, 5, "x", null]}"#,
    );
    assert_eq!(r.duration, 0);
    assert_eq!(r.bit_rate, None);
    assert_eq!(r.width, None);
    assert_eq!(r.height, None);
    assert_eq!(r.codec, None);
    assert_eq!(r.fps, None);
    assert_eq!(r.audio_codec, None);
    assert_eq!(r.sample_rate, None);
}

#[test]
fn probe_of_documents_of_other_shapes() {
    for report in ["{}", "[]", "null", "3", r#""text""#, r#"{"streams":{},"format":[]}"#] {
        let r = probe(report);
        assert_eq!(r.duration, 0);
        assert_eq!(r.width, None);
        assert_eq!(r.audio_codec, None);
    }
}

#[test]
fn probe_of_a_number_with_a_fraction_is_no_width() {
    let r = probe(r#"{"streams":[{"codec_type":"video","width":1920.0,"height":1080}]}"#);
    assert_eq!(r.width, None);
    assert_eq!(r.height, Some(1080));
}

#[test]
fn probe_of_malformed_output_fails() {
    for report in ["", "{", "not json", r#"{"format": }"#, "{} {}"] {
        match probe_media(report) {
            Err(ProbeError::Malformed(cause)) => assert!(!cause.is_empty()),
            other => panic!("unexpected result {:?}", other),
        }
    }
}

#[test]
fn probe_error_message() {
    let e = probe_media("{").unwrap_err();
    let text = e.message();
    assert!(text.starts_with("Failed to parse ffprobe output: "));
    assert!(text.len() > "Failed to parse ffprobe output: ".len());
    assert_eq!(ProbeError::Malformed("x".to_string()).message(), "Failed to parse ffprobe output: x");
}

#[test]
fn document_is_read_field_by_field() {
    let value: serde_json::Value = serde_json::from_str(
        r#"{"format":{"duration":"1.5","bit_rate":"9"},
            "streams":[{"codec_type":"audio","codec_name":"opus","sample_rate":"48000"},
                       {"width":4,"height":3,"r_frame_rate":"25/1"}]}"#,
    )
    .unwrap();
    let doc = read_document(&value);
    assert_eq!(doc.duration, Some("1.5".to_string()));
    assert_eq!(doc.bit_rate, Some("9".to_string()));
    assert_eq!(doc.streams.len(), 2);
    assert_eq!(doc.streams[0].codec_type, "audio");
    assert_eq!(doc.streams[0].codec_name, Some("opus".to_string()));
    assert_eq!(doc.streams[0].sample_rate, Some("48000".to_string()));
    assert_eq!(doc.streams[0].width, None);
    assert_eq!(doc.streams[1].codec_type, "");
    assert_eq!(doc.streams[1].width, Some(4));
    assert_eq!(doc.streams[1].height, Some(3));
    assert_eq!(doc.streams[1].r_frame_rate, Some("25/1".to_string()));
}

#[test]
fn extensions_by_kind() {
    for e in ["mp4", "mov", "avi", "mkv", "webm", "m4v", "flv", "wmv"] {
        assert!(video_extension(e) && !audio_extension(e) && !picture_extension(e));
        assert!(media_extension(e));
    }
    for e in ["mp3", "wav", "aac", "flac", "ogg", "m4a", "wma"] {
        assert!(audio_extension(e) && !video_extension(e) && !picture_extension(e));
        assert!(media_extension(e));
    }
    for e in ["png", "jpg", "jpeg", "gif", "bmp", "tiff", "webp"] {
        assert!(picture_extension(e) && !video_extension(e) && !audio_extension(e));
        assert!(media_extension(e));
    }
    for e in ["", "txt", "MP4", "mp", "mp44", ".mp4", "pdf"] {
        assert!(!media_extension(e));
    }
}

#[test]
fn metadata_of_a_file() {
    let m = get_file_metadata("Clip.MP4", "/media/Clip.MP4", 1234, "MP4");
    assert_eq!(m.name, "Clip.MP4");
    assert_eq!(m.path, "/media/Clip.MP4");
    assert_eq!(m.size_bytes, 1234);
    assert_eq!(m.extension, "mp4");
    assert!(m.is_video);
    assert!(!m.is_audio);
    let a = get_file_metadata("song.Flac", "song.Flac", 0, "Flac");
    assert_eq!(a.extension, "flac");
    assert!(a.is_audio && !a.is_video);
    let p = get_file_metadata("shot.png", "shot.png", 9, "png");
    assert!(!p.is_audio && !p.is_video);
    let n = get_file_metadata("README", "README", 9, "");
    assert_eq!(n.extension, "");
    assert!(!n.is_audio && !n.is_video);
}

#[test]
fn lower_case_follows_unicode() {
    let m = get_file_metadata("a.M\u{212a}V", "a.M\u{212a}V", 1, "M\u{212a}V");
    assert_eq!(m.extension, "mkv");
    assert!(m.is_video);
    assert!(is_listed("M\u{212a}V"));
}

#[test]
fn described_file_keeps_the_given_extension() {
    let m = describe_file("a", "b", 7, "MP4".to_string());
    assert_eq!(m.extension, "MP4");
    assert!(!m.is_video);
}

#[test]
fn listing_keeps_media_files_in_order() {
    let entry = |name: &str, ext: &str, size: u64| FileEntry {
        name: name.to_string(),
        path: format!("/d/{}", name),
        size_bytes: size,
        extension: ext.to_string(),
    };
    let files = list_media_files(&vec![
        entry("b.MOV", "MOV", 2),
        entry("notes.txt", "txt", 3),
        entry("a.png", "png", 4),
        entry("noext", "", 5),
        entry("c.Mp3", "Mp3", 6),
    ]);
    let names: Vec<&str> = files.iter().map(|f| f.name.as_str()).collect();
    assert_eq!(names, vec!["b.MOV", "a.png", "c.Mp3"]);
    assert_eq!(files[0].extension, "mov");
    assert_eq!(files[0].path, "/d/b.MOV");
    assert_eq!(files[0].size_bytes, 2);
    assert!(files[0].is_video && !files[0].is_audio);
    assert!(!files[1].is_video && !files[1].is_audio);
    assert!(files[2].is_audio);
    assert!(list_media_files(&Vec::new()).is_empty());
    assert!(is_listed("JPEG"));
    assert!(!is_listed("rs"));
}

#[test]
fn first_line_of_text() {
    assert_eq!(read_first_line("ffmpeg version 6.0\nbuilt with gcc"), Some("ffmpeg version 6.0".to_string()));
    assert_eq!(read_first_line("one\r\ntwo"), Some("one".to_string()));
    assert_eq!(read_first_line("only"), Some("only".to_string()));
    assert_eq!(read_first_line("bare\r"), Some("bare\r".to_string()));
    assert_eq!(read_first_line("\nsecond"), Some(String::new()));
    assert_eq!(read_first_line("\r\n"), Some(String::new()));
    assert_eq!(read_first_line(""), None);
    for text in ["a\nb", "a\r\nb", "a\r", "\n", "\r\n", "", "\r", "x\r\r\ny"] {
        assert_eq!(read_first_line(text), text.lines().next().map(|s| s.to_string()));
    }
}

#[test]
fn version_query() {
    let ran = |success: bool, output: &str| VersionQuery::Finished { success, output: output.to_string() };
    assert_eq!(
        check_ffmpeg(&ran(true, "ffmpeg version 6.0 Copyright\nbuilt with gcc\n")),
        Ok("ffmpeg version 6.0 Copyright".to_string())
    );
    assert_eq!(check_ffmpeg(&ran(true, "")), Ok("FFmpeg found".to_string()));
    assert_eq!(
        check_ffmpeg(&ran(false, "ffmpeg version 6.0")),
        Err("FFmpeg found but returned an error.".to_string())
    );
    assert_eq!(
        check_ffmpeg(&VersionQuery::NotStarted),
        Err("FFmpeg not found. Please install FFmpeg to enable video export.".to_string())
    );
}

#[test]
fn probe_errors_read_as_messages() {
    assert_eq!(
        ProbeError::FileNotFound("/no/such.mp4".to_string()).message(),
        "File not found: /no/such.mp4"
    );
    assert_eq!(
        ProbeError::NotStarted("No such file or directory (os error 2)".to_string()).message(),
        "Failed to run ffprobe: No such file or directory (os error 2). Make sure FFmpeg is installed."
    );
    assert_eq!(
        ProbeError::ToolFailed("moov atom not found\n".to_string()).message(),
        "ffprobe failed: moov atom not found\n"
    );
}

#[test]
fn media_errors_read_as_messages() {
    assert_eq!(
        MediaError::FileNotFound("a b.mp4".to_string()).message(),
        "File not found: a b.mp4"
    );
    assert_eq!(MediaError::NotADirectory("/x".to_string()).message(), "Not a directory: /x");
    assert_eq!(MediaError::NotADirectory(String::new()).message(), "Not a directory: ");
}
