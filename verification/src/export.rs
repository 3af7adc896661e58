//! The plan of an export: the engine's argument list for a timeline, and
//! the duration and frame count by which progress is measured.

use crate::codec::{
    audio_codec_args, codec_args, get_audio_codec_args, get_codec_args, push_text,
};
use crate::fixed::{ceiling, ceiling_quotient, clamp_i64, push_shortest, shortest};
use crate::graph::{
    audio_port, build_filter_complex, filter_graph, video_port, ClipView, ExportClip,
};
use crate::text::{texts, texts_empty, views};
use vstd::prelude::*;
use vstd::string::*;

verus! {

/// What the export writes: the output file, the codecs, the picture size,
/// the frame rate in millionths of a frame per second, and the quality tier.
#[derive(Debug, Clone)]
pub struct ExportSettings {
    pub output_path: String,
    pub format: String,
    pub codec: String,
    pub width: u32,
    pub height: u32,
    pub fps: i64,
    pub quality: String,
    pub audio_codec: String,
    pub audio_bitrate: String,
}

/// Export settings over plain text.
pub struct SettingsView {
    pub output_path: Seq<char>,
    pub format: Seq<char>,
    pub codec: Seq<char>,
    pub width: u32,
    pub height: u32,
    pub fps: i64,
    pub quality: Seq<char>,
    pub audio_codec: Seq<char>,
    pub audio_bitrate: Seq<char>,
}

impl View for ExportSettings {
    type V = SettingsView;

    open spec fn view(&self) -> SettingsView {
        SettingsView {
            output_path: self.output_path@,
            format: self.format@,
            codec: self.codec@,
            width: self.width,
            height: self.height,
            fps: self.fps,
            quality: self.quality@,
            audio_codec: self.audio_codec@,
            audio_bitrate: self.audio_bitrate@,
        }
    }
}

/// Why an export did not start or a cancellation did not go through.
#[derive(Debug, Clone, PartialEq, Eq)]
pub enum ExportError {
    /// The timeline holds no clip.
    NoClips,
    /// The engine could not be started; the cause is the system's.
    SpawnFailed(String),
    /// The engine could not be stopped; the cause is the system's.
    CancelFailed(String),
}

/// An export error over plain text.
pub enum ErrorView {
    NoClips,
    SpawnFailed(Seq<char>),
    CancelFailed(Seq<char>),
}

impl View for ExportError {
    type V = ErrorView;

    open spec fn view(&self) -> ErrorView {
        match *self {
            ExportError::NoClips => ErrorView::NoClips,
            ExportError::SpawnFailed(cause) => ErrorView::SpawnFailed(cause@),
            ExportError::CancelFailed(cause) => ErrorView::CancelFailed(cause@),
        }
    }
}

/// What is needed to start the engine and to follow it.
#[derive(Debug, Clone)]
pub struct ExportPlan {
    /// The engine's arguments, in order.
    pub args: Vec<String>,
    /// The sum of the clips' durations, in millionths of a second.
    pub total_duration: i64,
    /// The estimated number of frames.
    pub total_frames: u64,
}

/// A plan over plain text.
pub struct PlanView {
    pub args: Seq<Seq<char>>,
    pub total_duration: i64,
    pub total_frames: u64,
}

impl View for ExportPlan {
    type V = PlanView;

    open spec fn view(&self) -> PlanView {
        PlanView {
            args: texts(self.args@),
            total_duration: self.total_duration,
            total_frames: self.total_frames,
        }
    }
}

/// The message that an error shows to the caller. A failure to start the
/// engine says that the engine has to be installed.
pub open spec fn message_text(e: ErrorView) -> Seq<char> {
    match e {
        ErrorView::NoClips => "No clips to export"@,
        ErrorView::SpawnFailed(cause) => "Failed to start FFmpeg: "@ + cause
            + ". Make sure FFmpeg is installed."@,
        ErrorView::CancelFailed(cause) => "Failed to cancel export: "@ + cause,
    }
}

impl ExportError {
    /// The message shown to the caller.
    pub fn message(&self) -> (r: String)
        ensures
            r@ == message_text(self@),
    {
        match self {
            ExportError::NoClips => String::from_str("No clips to export"),
            ExportError::SpawnFailed(cause) => {
                let mut r = String::from_str("Failed to start FFmpeg: ");
                r.append(cause.as_str());
                r.append(". Make sure FFmpeg is installed.");
                r
            },
            ExportError::CancelFailed(cause) => {
                let mut r = String::from_str("Failed to cancel export: ");
                r.append(cause.as_str());
                r
            },
        }
    }
}

/// The sum of the clips' durations, each the end less the start of its
/// source range.
pub open spec fn duration_sum(clips: Seq<ClipView>) -> int
    decreases clips.len(),
{
    if clips.len() == 0 {
        0
    } else {
        duration_sum(clips.drop_last()) + (clips.last().source_end - clips.last().source_start)
    }
}

/// The total duration of the timeline in millionths of a second, limited to
/// what 64 bits hold.
pub open spec fn total_duration(clips: Seq<ClipView>) -> int {
    clamp_i64(duration_sum(clips))
}

/// The estimated number of frames: duration times frame rate, rounded up,
/// not below zero and limited to what 64 bits hold.
pub open spec fn frame_estimate(duration: int, fps: int) -> int {
    let frames = ceiling(duration * fps, 1_000_000_000_000);
    if frames < 0 {
        0
    } else if frames > u64::MAX {
        u64::MAX as int
    } else {
        frames
    }
}

/// One input argument pair for each clip's source file, in order.
pub open spec fn input_args(clips: Seq<ClipView>) -> Seq<Seq<char>>
    decreases clips.len(),
{
    if clips.len() == 0 {
        Seq::<Seq<char>>::empty()
    } else {
        input_args(clips.drop_last()).push("-i"@).push(clips.last().source_path)
    }
}

/// The ports that are mapped to the output: those of the one clip, or those
/// of the concatenation node.
pub open spec fn map_args(count: nat) -> Seq<Seq<char>> {
    if count == 1 {
        seq!["-map"@, video_port(0), "-map"@, audio_port(0)]
    } else {
        seq!["-map"@, "[vout]"@, "-map"@, "[aout]"@]
    }
}

/// The filter graph and the mapping of its output ports; nothing where
/// there is no clip.
pub open spec fn graph_args(clips: Seq<ClipView>, width: nat, height: nat) -> Seq<Seq<char>> {
    if clips.len() == 0 {
        Seq::<Seq<char>>::empty()
    } else {
        seq!["-filter_complex"@, filter_graph(clips, width, height)] + map_args(clips.len())
    }
}

/// The frame rate and the request for progress lines on standard output
/// every half second.
pub open spec fn rate_and_progress_args(fps: int) -> Seq<Seq<char>> {
    seq!["-r"@, shortest(fps), "-progress"@, "pipe:1"@, "-stats_period"@, "0.5"@]
}

/// The engine's arguments: overwrite, the inputs, the graph with its
/// mapping, the video codec, the audio codec, the frame rate, the progress
/// request, and the output path.
pub open spec fn engine_args(clips: Seq<ClipView>, settings: SettingsView) -> Seq<Seq<char>> {
    seq!["-y"@] + input_args(clips) + graph_args(
        clips,
        settings.width as nat,
        settings.height as nat,
    ) + codec_args(settings.codec, settings.quality) + audio_codec_args(
        settings.audio_codec,
        settings.audio_bitrate,
    ) + rate_and_progress_args(settings.fps as int) + seq![settings.output_path]
}

/// The plan of a timeline under the settings: the engine's arguments, the
/// total duration, and the frame estimate for that duration at the
/// settings' frame rate.
pub open spec fn plan_of(clips: Seq<ClipView>, settings: SettingsView) -> PlanView {
    PlanView {
        args: engine_args(clips, settings),
        total_duration: total_duration(clips) as i64,
        total_frames: frame_estimate(total_duration(clips), settings.fps as int) as u64,
    }
}

/// Whether each clip ends after it starts.
pub open spec fn ranges_are_valid(clips: Seq<ClipView>) -> bool {
    forall|i: int|
        0 <= i < clips.len() ==> (#[trigger] clips[i]).source_end > clips[i].source_start
}

/// A timeline of one clip or more, each ending after it starts, has a total
/// duration above zero, and with a frame rate above zero its frame estimate
/// is above zero too.
pub proof fn valid_timeline_has_duration(clips: Seq<ClipView>, fps: int)
    requires
        clips.len() > 0,
        ranges_are_valid(clips),
    ensures
        duration_sum(clips) >= clips.len(),
        total_duration(clips) > 0,
        fps > 0 ==> frame_estimate(total_duration(clips), fps) > 0,
    decreases clips.len(),
{
    let rest = clips.drop_last();
    assert(clips[clips.len() - 1].source_end > clips[clips.len() - 1].source_start);
    assert(duration_sum(clips) == duration_sum(rest) + (clips.last().source_end
        - clips.last().source_start));
    if rest.len() == 0 {
        assert(duration_sum(rest) == 0);
    } else {
        assert forall|i: int| 0 <= i < rest.len() implies (#[trigger] rest[i]).source_end
            > rest[i].source_start by {
            assert(rest[i] == clips[i]);
        }
        valid_timeline_has_duration(rest, fps);
    }
    if fps > 0 {
        let d = total_duration(clips);
        assert(d * fps > 0) by (nonlinear_arith)
            requires
                d > 0,
                fps > 0,
        ;
        let n = d * fps;
        assert(n / 1_000_000_000_000 >= 0 && (n % 1_000_000_000_000 == 0 ==> n
            / 1_000_000_000_000 >= 1)) by (nonlinear_arith)
            requires
                n > 0,
        ;
    }
}

/// Adds up the durations of the clips.
pub fn sum_durations(clips: &[ExportClip]) -> (r: i64)
    ensures
        r == total_duration(views(clips@)),
{
    // Gains and losses are added up apart, so that neither sum can leave
    // 128 unsigned bits however long the list is.
    let mut gain: u128 = 0;
    let mut loss: u128 = 0;
    let ghost all = views(clips@);
    let mut i: usize = 0;
    assert(all.take(0) =~= Seq::<ClipView>::empty());
    while i < clips.len()
        invariant
            i <= clips.len(),
            all == views(clips@),
            gain - loss == duration_sum(all.take(i as int)),
            gain <= i * 0xffff_ffff_ffff_ffff,
            loss <= i * 0xffff_ffff_ffff_ffff,
        decreases clips.len() - i,
    {
        proof {
            assert(all.take(i + 1).drop_last() =~= all.take(i as int));
            assert(all.take(i + 1).last() == clips@[i as int]@);
            assert((i + 1) * 0xffff_ffff_ffff_ffff <= 0xffff_ffff_ffff_ffff * 0xffff_ffff_ffff_ffff)
                by (nonlinear_arith)
                requires
                    i + 1 <= 0xffff_ffff_ffff_ffff,
            ;
            assert((i + 1) * 0xffff_ffff_ffff_ffff == i * 0xffff_ffff_ffff_ffff
                + 0xffff_ffff_ffff_ffff) by (nonlinear_arith);
        }
        let d: i128 = clips[i].source_end as i128 - clips[i].source_start as i128;
        if d >= 0 {
            gain = gain + d as u128;
        } else {
            loss = loss + (-d) as u128;
        }
        i += 1;
    }
    assert(all.take(i as int) =~= all);
    if gain >= loss {
        let total: u128 = gain - loss;
        if total > i64::MAX as u128 {
            i64::MAX
        } else {
            total as i64
        }
    } else {
        let total: u128 = loss - gain;
        if total > 0x8000_0000_0000_0000u128 {
            i64::MIN
        } else {
            (-(total as i128)) as i64
        }
    }
}

/// Estimates the number of frames of an export.
pub fn estimate_frames(duration: i64, fps: i64) -> (r: u64)
    ensures
        r == frame_estimate(duration as int, fps as int),
{
    assert(-0x8000_0000_0000_0000 * 0x8000_0000_0000_0000 <= duration * fps
        <= 0x8000_0000_0000_0000 * 0x8000_0000_0000_0000) by (nonlinear_arith)
        requires
            -0x8000_0000_0000_0000 <= duration < 0x8000_0000_0000_0000,
            -0x8000_0000_0000_0000 <= fps < 0x8000_0000_0000_0000,
    ;
    let frames: i128 = ceiling_quotient(duration as i128 * fps as i128, 1_000_000_000_000);
    if frames < 0 {
        0
    } else if frames > u64::MAX as i128 {
        u64::MAX
    } else {
        frames as u64
    }
}

/// Appends the input arguments of the clips.
fn push_inputs(args: &mut Vec<String>, clips: &[ExportClip])
    ensures
        texts(final(args)@) == texts(old(args)@) + input_args(views(clips@)),
{
    let ghost before = texts(args@);
    let ghost all = views(clips@);
    let mut i: usize = 0;
    assert(all.take(0) =~= Seq::<ClipView>::empty());
    assert(texts(args@) =~= before + input_args(all.take(0)));
    while i < clips.len()
        invariant
            i <= clips.len(),
            all == views(clips@),
            texts(args@) == before + input_args(all.take(i as int)),
        decreases clips.len() - i,
    {
        proof {
            assert(all.take(i + 1).drop_last() =~= all.take(i as int));
            assert(all.take(i + 1).last() == clips@[i as int]@);
        }
        push_text(args, "-i");
        push_text(args, clips[i].source_path.as_str());
        assert(texts(args@) =~= before + input_args(all.take(i + 1)));
        i += 1;
    }
    assert(all.take(i as int) =~= all);
}

/// Appends the graph and the mapping of its output ports.
fn push_graph(args: &mut Vec<String>, clips: &[ExportClip], width: u32, height: u32)
    ensures
        texts(final(args)@) == texts(old(args)@) + graph_args(
            views(clips@),
            width as nat,
            height as nat,
        ),
{
    let ghost before = texts(args@);
    let ghost all = views(clips@);
    if clips.len() == 0 {
        assert(texts(args@) =~= before + graph_args(all, width as nat, height as nat));
        return ;
    }
    let graph = build_filter_complex(clips, width, height);
    push_text(args, "-filter_complex");
    push_text(args, graph.as_str());
    push_text(args, "-map");
    if clips.len() == 1 {
        proof {
            reveal_strlit("[v0]");
            reveal_strlit("[a0]");
            reveal_strlit("[v");
            reveal_strlit("[a");
            reveal_strlit("]");
            reveal_strlit("0");
            assert("[v0]"@ =~= video_port(0));
            assert("[a0]"@ =~= audio_port(0));
        }
        push_text(args, "[v0]");
        push_text(args, "-map");
        push_text(args, "[a0]");
    } else {
        push_text(args, "[vout]");
        push_text(args, "-map");
        push_text(args, "[aout]");
    }
    assert(texts(args@) =~= before + graph_args(all, width as nat, height as nat));
}

/// Appends the strings of `more` to `args`.
fn push_all(args: &mut Vec<String>, more: Vec<String>)
    ensures
        texts(final(args)@) == texts(old(args)@) + texts(more@),
{
    let ghost before = args@;
    let mut more = more;
    let ghost added = more@;
    args.append(&mut more);
    assert(texts(args@) =~= texts(before) + texts(added));
}

/// Appends the frame rate and the progress request.
fn push_rate_and_progress(args: &mut Vec<String>, fps: i64)
    ensures
        texts(final(args)@) == texts(old(args)@) + rate_and_progress_args(fps as int),
{
    let ghost before = texts(args@);
    push_text(args, "-r");
    let mut rate = String::new();
    push_shortest(&mut rate, fps as i128);
    assert(rate@ =~= shortest(fps as int));
    push_text(args, rate.as_str());
    push_text(args, "-progress");
    push_text(args, "pipe:1");
    push_text(args, "-stats_period");
    push_text(args, "0.5");
    assert(texts(args@) =~= before + rate_and_progress_args(fps as int));
}

/// Assembles the engine's arguments for the timeline.
pub fn build_engine_args(clips: &[ExportClip], settings: &ExportSettings) -> (args: Vec<String>)
    ensures
        texts(args@) == engine_args(views(clips@), settings@),
{
    let mut args: Vec<String> = Vec::new();
    proof {
        texts_empty();
    }
    push_text(&mut args, "-y");
    assert(texts(args@) =~= seq!["-y"@]);
    push_inputs(&mut args, clips);
    push_graph(&mut args, clips, settings.width, settings.height);
    push_all(&mut args, get_codec_args(settings.codec.as_str(), settings.quality.as_str()));
    push_all(
        &mut args,
        get_audio_codec_args(settings.audio_codec.as_str(), settings.audio_bitrate.as_str()),
    );
    push_rate_and_progress(&mut args, settings.fps);
    let ghost so_far = texts(args@);
    push_text(&mut args, settings.output_path.as_str());
    assert(texts(args@) =~= so_far + seq![settings.output_path@]);
    args
}

/// Plans the export of a timeline. A timeline without clips is refused;
/// every other timeline gets its plan.
pub fn plan_export(clips: &[ExportClip], settings: &ExportSettings) -> (r: Result<
    ExportPlan,
    ExportError,
>)
    ensures
        match r {
            Ok(plan) => clips@.len() > 0 && plan@ == plan_of(views(clips@), settings@),
            Err(e) => clips@.len() == 0 && e@ == ErrorView::NoClips,
        },
{
    if clips.len() == 0 {
        return Err(ExportError::NoClips);
    }
    let duration = sum_durations(clips);
    Ok(
        ExportPlan {
            args: build_engine_args(clips, settings),
            total_duration: duration,
            total_frames: estimate_frames(duration, settings.fps),
        },
    )
}

} // verus!
