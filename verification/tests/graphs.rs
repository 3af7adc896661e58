use timeline_export::effect::{AppliedEffect, EffectParam};
use timeline_export::export::{
    build_engine_args, estimate_frames, plan_export, sum_durations, ExportError, ExportSettings,
};
use timeline_export::graph::{
    build_audio_chain, build_concat_node, build_filter_complex, build_video_chain, join,
    ExportClip,
};

fn effect(kind: &str, name: &str, value: i64) -> AppliedEffect {
    AppliedEffect {
        id: "e".to_string(),
        effect_id: kind.to_string(),
        parameters: vec![EffectParam { name: name.to_string(), value }],
        enabled: true,
    }
}

fn clip(path: &str, start: i64, end: i64, effects: Vec<AppliedEffect>) -> ExportClip {
    ExportClip {
        source_path: path.to_string(),
        source_start: start,
        source_end: end,
        timeline_start: 0,
        effects,
    }
}

fn settings() -> ExportSettings {
    ExportSettings {
        output_path: "/tmp/out.mp4".to_string(),
        format: "mp4".to_string(),
        codec: "h264".to_string(),
        width: 1920,
        height: 1080,
        fps: 30_000_000,
        quality: "high".to_string(),
        audio_codec: "aac".to_string(),
        audio_bitrate: "192k".to_string(),
    }
}

const FIT: &str =
    ",scale=1920:1080:force_original_aspect_ratio=decrease,pad=1920:1080:(ow-iw)/2:(oh-ih)/2:black";

#[test]
fn video_chain_of_a_plain_clip() {
    let c = clip("a.mp4", 0, 5_000_000, vec![]);
    assert_eq!(
        build_video_chain(&c, 0, 1920, 1080),
        format!("[0:v]trim=start=0.000000:end=5.000000,setpts=PTS-STARTPTS{}[v0]", FIT)
    );
}

#[test]
fn audio_chain_of_a_plain_clip() {
    let c = clip("a.mp4", 1_250_000, 5_000_000, vec![]);
    assert_eq!(
        build_audio_chain(&c, 3),
        "[3:a]atrim=start=1.250000:end=5.000000,asetpts=PTS-STARTPTS[a3]"
    );
}

#[test]
fn chains_hold_the_effects_in_order() {
    let c = clip(
        "a.mp4",
        2_000_000,
        4_500_000,
        vec![
            effect("scale", "scale", 2_000_000),
            effect("playback_speed", "rate", 250_000),
            effect("gaussian_blur", "sigma", 1_500_000),
        ],
    );
    assert_eq!(
        build_video_chain(&c, 12, 1280, 720),
        "[12:v]trim=start=2.000000:end=4.500000,setpts=PTS-STARTPTS,\
scale=iw*2.000000:ih*2.000000,setpts=4.000000*PTS,gblur=sigma=1.500000,\
scale=1280:720:force_original_aspect_ratio=decrease,pad=1280:720:(ow-iw)/2:(oh-ih)/2:black[v12]"
    );
    assert_eq!(
        build_audio_chain(&c, 12),
        "[12:a]atrim=start=2.000000:end=4.500000,asetpts=PTS-STARTPTS,atempo=0.5,atempo=0.500000[a12]"
    );
}

#[test]
fn single_clip_has_no_concatenation_node() {
    let clips = vec![clip("a.mp4", 0, 5_000_000, vec![])];
    let graph = build_filter_complex(&clips, 1920, 1080);
    assert_eq!(
        graph,
        format!(
            "[0:v]trim=start=0.000000:end=5.000000,setpts=PTS-STARTPTS{}[v0];\
[0:a]atrim=start=0.000000:end=5.000000,asetpts=PTS-STARTPTS[a0]",
            FIT
        )
    );
    assert!(!graph.contains("concat"));
}

#[test]
fn two_clips_end_in_one_concatenation_node() {
    let clips = vec![
        clip("a.mp4", 0, 5_000_000, vec![]),
        clip("b.mp4", 1_000_000, 2_000_000, vec![effect("fade_in", "duration", 500_000)]),
    ];
    let graph = build_filter_complex(&clips, 1920, 1080);
    assert_eq!(
        graph,
        format!(
            "[0:v]trim=start=0.000000:end=5.000000,setpts=PTS-STARTPTS{fit}[v0];\
[0:a]atrim=start=0.000000:end=5.000000,asetpts=PTS-STARTPTS[a0];\
[1:v]trim=start=1.000000:end=2.000000,setpts=PTS-STARTPTS,fade=t=in:d=0.500000{fit}[v1];\
[1:a]atrim=start=1.000000:end=2.000000,asetpts=PTS-STARTPTS[a1];\
[v0][a0][v1][a1]concat=n=2:v=1:a=1[vout][aout]",
            fit = FIT
        )
    );
    assert_eq!(graph.matches("concat=").count(), 1);
}

#[test]
fn concatenation_names_every_port_in_list_order() {
    assert_eq!(build_concat_node(2), "[v0][a0][v1][a1]concat=n=2:v=1:a=1[vout][aout]");
    assert_eq!(
        build_concat_node(11),
        "[v0][a0][v1][a1][v2][a2][v3][a3][v4][a4][v5][a5][v6][a6][v7][a7][v8][a8][v9][a9][v10][a10]\
concat=n=11:v=1:a=1[vout][aout]"
    );
}

#[test]
fn clips_are_not_sorted_by_their_place_on_the_timeline() {
    let mut late = clip("late.mp4", 0, 1_000_000, vec![]);
    late.timeline_start = 9_000_000;
    let mut early = clip("early.mp4", 3_000_000, 4_000_000, vec![]);
    early.timeline_start = 0;
    let graph = build_filter_complex(&[late, early], 640, 360);
    let first = graph.find("[0:v]trim=start=0.000000").unwrap();
    let second = graph.find("[1:v]trim=start=3.000000").unwrap();
    assert!(first < second);
    assert!(graph.ends_with("[v0][a0][v1][a1]concat=n=2:v=1:a=1[vout][aout]"));
}

#[test]
fn no_clip_gives_an_empty_graph() {
    assert_eq!(build_filter_complex(&[], 1920, 1080), "");
}

#[test]
fn join_puts_the_separator_between_parts() {
    let parts: Vec<String> = vec!["a".to_string(), "".to_string(), "c".to_string()];
    assert_eq!(join(&parts, ";"), "a;;c");
    assert_eq!(join(&parts[..1].to_vec(), ";"), "a");
    assert_eq!(join(&Vec::new(), ";"), "");
    assert_eq!(join(&parts, ""), "ac");
}

#[test]
fn durations_add_up() {
    let clips = vec![
        clip("a", 0, 5_000_000, vec![]),
        clip("b", 1_000_000, 2_500_000, vec![]),
        clip("c", -1_000_000, 0, vec![]),
    ];
    assert_eq!(sum_durations(&clips), 7_500_000);
    assert_eq!(sum_durations(&[]), 0);
    assert_eq!(sum_durations(&[clip("r", 3, 1, vec![])]), -2);
}

#[test]
fn durations_are_limited_to_64_bits() {
    let long = clip("a", i64::MIN, i64::MAX, vec![]);
    assert_eq!(sum_durations(&[long.clone()]), i64::MAX);
    let back = clip("b", i64::MAX, i64::MIN, vec![]);
    assert_eq!(sum_durations(&[back.clone()]), i64::MIN);
    assert_eq!(sum_durations(&[long.clone(), back.clone()]), 0);
    assert_eq!(sum_durations(&[long.clone(), long, back]), i64::MAX);
    assert_eq!(sum_durations(&[clip("c", 0, i64::MAX, vec![]), clip("d", 0, 1, vec![])]), i64::MAX);
    assert_eq!(sum_durations(&[clip("c", 1, i64::MIN, vec![])]), i64::MIN);
}

#[test]
fn frames_are_rounded_up() {
    assert_eq!(estimate_frames(5_000_000, 30_000_000), 150);
    assert_eq!(estimate_frames(2_500_000, 29_970_000), 75);
    assert_eq!(estimate_frames(1, 1), 1);
    assert_eq!(estimate_frames(1_000_000, 1_000_000), 1);
    assert_eq!(estimate_frames(1_000_001, 1_000_000), 2);
    assert_eq!(estimate_frames(0, 30_000_000), 0);
}

#[test]
fn frames_are_never_negative_and_limited() {
    assert_eq!(estimate_frames(-5_000_000, 30_000_000), 0);
    assert_eq!(estimate_frames(5_000_000, -30_000_000), 0);
    assert_eq!(estimate_frames(i64::MAX, i64::MAX), u64::MAX);
    assert_eq!(estimate_frames(i64::MIN, i64::MIN), u64::MAX);
    assert_eq!(estimate_frames(i64::MIN, i64::MAX), 0);
}

#[test]
fn arguments_of_a_single_clip() {
    let clips = vec![clip("/media/a.mp4", 0, 5_000_000, vec![])];
    let args = build_engine_args(&clips, &settings());
    let graph = build_filter_complex(&clips, 1920, 1080);
    assert_eq!(
        args,
        vec![
            "-y", "-i", "/media/a.mp4", "-filter_complex", graph.as_str(), "-map", "[v0]", "-map",
            "[a0]", "-c:v", "libx264", "-crf", "18", "-preset", "medium", "-pix_fmt", "yuv420p",
            "-c:a", "aac", "-b:a", "192k", "-r", "30", "-progress", "pipe:1", "-stats_period",
            "0.5", "/tmp/out.mp4"
        ]
    );
}

#[test]
fn arguments_of_several_clips() {
    let clips = vec![
        clip("a.mp4", 0, 1_000_000, vec![]),
        clip("b b.mov", 0, 1_000_000, vec![]),
        clip("a.mp4", 2_000_000, 3_000_000, vec![]),
    ];
    let mut s = settings();
    s.codec = "prores".to_string();
    s.quality = "lossless".to_string();
    s.audio_codec = "pcm".to_string();
    s.fps = 23_976_000;
    s.output_path = "out.mov".to_string();
    let args = build_engine_args(&clips, &s);
    let graph = build_filter_complex(&clips, 1920, 1080);
    assert_eq!(
        args,
        vec![
            "-y", "-i", "a.mp4", "-i", "b b.mov", "-i", "a.mp4", "-filter_complex",
            graph.as_str(), "-map", "[vout]", "-map", "[aout]", "-c:v", "prores_ks",
            "-profile:v", "4", "-pix_fmt", "yuva444p10le", "-c:a", "pcm_s16le", "-r", "23.976",
            "-progress", "pipe:1", "-stats_period", "0.5", "out.mov"
        ]
    );
}

#[test]
fn arguments_without_clips_have_no_graph() {
    let args = build_engine_args(&[], &settings());
    assert_eq!(
        args,
        vec![
            "-y", "-c:v", "libx264", "-crf", "18", "-preset", "medium", "-pix_fmt", "yuv420p",
            "-c:a", "aac", "-b:a", "192k", "-r", "30", "-progress", "pipe:1", "-stats_period",
            "0.5", "/tmp/out.mp4"
        ]
    );
}

#[test]
fn plan_of_an_empty_timeline_is_refused() {
    let r = plan_export(&[], &settings());
    assert_eq!(r.err(), Some(ExportError::NoClips));
}

#[test]
fn plan_holds_arguments_duration_and_frames() {
    let clips = vec![clip("a.mp4", 0, 5_000_000, vec![]), clip("b.mp4", 500_000, 3_000_000, vec![])];
    let plan = plan_export(&clips, &settings()).unwrap();
    assert_eq!(plan.args, build_engine_args(&clips, &settings()));
    assert_eq!(plan.total_duration, 7_500_000);
    assert_eq!(plan.total_frames, 225);
}

#[test]
fn error_messages() {
    assert_eq!(ExportError::NoClips.message(), "No clips to export");
    assert_eq!(
        ExportError::SpawnFailed("No such file or directory (os error 2)".to_string()).message(),
        "Failed to start FFmpeg: No such file or directory (os error 2). Make sure FFmpeg is installed."
    );
    assert_eq!(
        ExportError::CancelFailed("gone".to_string()).message(),
        "Failed to cancel export: gone"
    );
}
