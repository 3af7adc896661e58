//! The filter graph of a timeline: a video chain and an audio chain for each
//! clip, and one concatenation node where there are several clips.

use crate::effect::{AppliedEffect, EffectView};
use crate::fixed::{push_six_decimals, six_decimals};
use crate::stack::{audio_filters, build_audio_filters, build_effect_filters, video_filters};
use crate::text::{digits_of, push_number, texts, texts_empty, texts_push, views};
use vstd::prelude::*;
use vstd::string::*;

verus! {

/// A clip of the timeline: a range of a source file, in millionths of a
/// second, with its effect stack. `timeline_start` places the clip and is
/// not read here: the clips are taken in the order of their list.
#[derive(Debug, Clone)]
pub struct ExportClip {
    pub source_path: String,
    pub source_start: i64,
    pub source_end: i64,
    pub timeline_start: i64,
    pub effects: Vec<AppliedEffect>,
}

/// A clip over plain text.
pub struct ClipView {
    pub source_path: Seq<char>,
    pub source_start: i64,
    pub source_end: i64,
    pub timeline_start: i64,
    pub effects: Seq<EffectView>,
}

impl View for ExportClip {
    type V = ClipView;

    open spec fn view(&self) -> ClipView {
        ClipView {
            source_path: self.source_path@,
            source_start: self.source_start,
            source_end: self.source_end,
            timeline_start: self.timeline_start,
            effects: views(self.effects@),
        }
    }
}

/// The port on which the video of clip `index` leaves its chain.
pub open spec fn video_port(index: nat) -> Seq<char> {
    "[v"@ + digits_of(index) + "]"@
}

/// The port on which the audio of clip `index` leaves its chain.
pub open spec fn audio_port(index: nat) -> Seq<char> {
    "[a"@ + digits_of(index) + "]"@
}

/// The start of a video chain: input `index`, cut to the source range, with
/// time counted from zero.
pub open spec fn video_trim(index: nat, start: int, end: int) -> Seq<char> {
    "["@ + digits_of(index) + ":v]trim=start="@ + six_decimals(start) + ":end="@ + six_decimals(end)
        + ",setpts=PTS-STARTPTS"@
}

/// The start of an audio chain: input `index`, cut to the source range,
/// with time counted from zero.
pub open spec fn audio_trim(index: nat, start: int, end: int) -> Seq<char> {
    "["@ + digits_of(index) + ":a]atrim=start="@ + six_decimals(start) + ":end="@ + six_decimals(
        end,
    ) + ",asetpts=PTS-STARTPTS"@
}

/// A chain with each of the filters added behind a comma, in order.
pub open spec fn with_filters(chain: Seq<char>, filters: Seq<Seq<char>>) -> Seq<char>
    decreases filters.len(),
{
    if filters.len() == 0 {
        chain
    } else {
        with_filters(chain, filters.drop_last()) + ","@ + filters.last()
    }
}

/// The end of every video chain: scale down into the output size, keeping
/// the aspect ratio, and pad with black around the centered picture.
pub open spec fn fit(width: nat, height: nat) -> Seq<char> {
    ",scale="@ + digits_of(width) + ":"@ + digits_of(height)
        + ":force_original_aspect_ratio=decrease,pad="@ + digits_of(width) + ":"@ + digits_of(
        height,
    ) + ":(ow-iw)/2:(oh-ih)/2:black"@
}

/// The video chain of the clip at position `index`: the trim, the video
/// expressions of the effect stack, the fit into the output size, and the
/// clip's video port.
pub open spec fn video_chain(clip: ClipView, index: nat, width: nat, height: nat) -> Seq<char> {
    with_filters(
        video_trim(index, clip.source_start as int, clip.source_end as int),
        video_filters(clip.effects),
    ) + fit(width, height) + video_port(index)
}

/// The audio chain of the clip at position `index`: the trim, the audio
/// expressions of the effect stack, and the clip's audio port.
pub open spec fn audio_chain(clip: ClipView, index: nat) -> Seq<char> {
    with_filters(
        audio_trim(index, clip.source_start as int, clip.source_end as int),
        audio_filters(clip.effects),
    ) + audio_port(index)
}

/// The chains of all clips: for each clip in order, its video chain and
/// then its audio chain.
pub open spec fn clip_segments(clips: Seq<ClipView>, width: nat, height: nat) -> Seq<Seq<char>>
    decreases clips.len(),
{
    if clips.len() == 0 {
        Seq::<Seq<char>>::empty()
    } else {
        let index = (clips.len() - 1) as nat;
        clip_segments(clips.drop_last(), width, height).push(
            video_chain(clips.last(), index, width, height),
        ).push(audio_chain(clips.last(), index))
    }
}

/// The video port and the audio port of each of the first `count` clips, in
/// order.
pub open spec fn port_pairs(count: nat) -> Seq<char>
    decreases count,
{
    if count == 0 {
        Seq::<char>::empty()
    } else {
        let index = (count - 1) as nat;
        port_pairs(index) + video_port(index) + audio_port(index)
    }
}

/// The node that joins `count` clips into one video and one audio output.
pub open spec fn concat_node(count: nat) -> Seq<char> {
    port_pairs(count) + "concat=n="@ + digits_of(count) + ":v=1:a=1[vout][aout]"@
}

/// The segments of the graph: the chains of all clips and, where there are
/// two clips or more, the concatenation node behind them.
pub open spec fn graph_segments(clips: Seq<ClipView>, width: nat, height: nat) -> Seq<Seq<char>> {
    if clips.len() >= 2 {
        clip_segments(clips, width, height).push(concat_node(clips.len()))
    } else {
        clip_segments(clips, width, height)
    }
}

/// The parts with `separator` between each two of them.
pub open spec fn joined(parts: Seq<Seq<char>>, separator: Seq<char>) -> Seq<char>
    decreases parts.len(),
{
    if parts.len() == 0 {
        Seq::<char>::empty()
    } else if parts.len() == 1 {
        parts[0]
    } else {
        joined(parts.drop_last(), separator) + separator + parts.last()
    }
}

/// The whole program: the segments of the graph with semicolons between
/// them. It is empty where there is no clip.
pub open spec fn filter_graph(clips: Seq<ClipView>, width: nat, height: nat) -> Seq<char> {
    joined(graph_segments(clips, width, height), ";"@)
}

/// With one clip the graph is the clip's two chains and nothing else.
pub proof fn single_clip_graph(clips: Seq<ClipView>, width: nat, height: nat)
    requires
        clips.len() == 1,
    ensures
        graph_segments(clips, width, height) == seq![
            video_chain(clips[0], 0, width, height),
            audio_chain(clips[0], 0),
        ],
        filter_graph(clips, width, height) == video_chain(clips[0], 0, width, height) + ";"@
            + audio_chain(clips[0], 0),
{
    let segments = graph_segments(clips, width, height);
    assert(clips.drop_last().len() == 0);
    assert(clip_segments(clips.drop_last(), width, height) =~= Seq::<Seq<char>>::empty());
    assert(segments =~= seq![video_chain(clips[0], 0, width, height), audio_chain(clips[0], 0)]);
    assert(segments.drop_last() =~= seq![video_chain(clips[0], 0, width, height)]);
    assert(joined(segments.drop_last(), ";"@) == video_chain(clips[0], 0, width, height));
}

/// The chains of the clips stand at their places: the video chain of clip
/// `i` at `2 * i` and its audio chain behind it.
pub proof fn clip_segments_layout(clips: Seq<ClipView>, width: nat, height: nat)
    ensures
        clip_segments(clips, width, height).len() == 2 * clips.len(),
        forall|i: int|
            0 <= i < clips.len() ==> {
                &&& #[trigger] clip_segments(clips, width, height)[2 * i] == video_chain(
                    clips[i],
                    i as nat,
                    width,
                    height,
                )
                &&& clip_segments(clips, width, height)[2 * i + 1] == audio_chain(
                    clips[i],
                    i as nat,
                )
            },
    decreases clips.len(),
{
    if clips.len() > 0 {
        let rest = clips.drop_last();
        clip_segments_layout(rest, width, height);
        let all = clip_segments(clips, width, height);
        let before = clip_segments(rest, width, height);
        assert forall|i: int| 0 <= i < clips.len() implies {
            &&& #[trigger] all[2 * i] == video_chain(clips[i], i as nat, width, height)
            &&& all[2 * i + 1] == audio_chain(clips[i], i as nat)
        } by {
            if i < rest.len() {
                assert(all[2 * i] == before[2 * i]);
                assert(all[2 * i + 1] == before[2 * i + 1]);
                assert(rest[i] == clips[i]);
            }
        }
    }
}

/// With two clips or more the graph is the chains of all clips, in the
/// order of the list, and then exactly one concatenation node, which names
/// the ports of every clip in that order.
pub proof fn several_clips_graph(clips: Seq<ClipView>, width: nat, height: nat)
    requires
        clips.len() >= 2,
    ensures
        graph_segments(clips, width, height).len() == 2 * clips.len() + 1,
        graph_segments(clips, width, height).last() == concat_node(clips.len()),
        graph_segments(clips, width, height).drop_last() == clip_segments(clips, width, height),
        forall|i: int|
            0 <= i < clips.len() ==> {
                &&& #[trigger] graph_segments(clips, width, height)[2 * i] == video_chain(
                    clips[i],
                    i as nat,
                    width,
                    height,
                )
                &&& graph_segments(clips, width, height)[2 * i + 1] == audio_chain(
                    clips[i],
                    i as nat,
                )
            },
{
    clip_segments_layout(clips, width, height);
    let chains = clip_segments(clips, width, height);
    let all = graph_segments(clips, width, height);
    assert(all.drop_last() =~= chains);
    assert forall|i: int| 0 <= i < clips.len() implies {
        &&& #[trigger] all[2 * i] == video_chain(clips[i], i as nat, width, height)
        &&& all[2 * i + 1] == audio_chain(clips[i], i as nat)
    } by {
        assert(all[2 * i] == chains[2 * i]);
        assert(all[2 * i + 1] == chains[2 * i + 1]);
    }
}

/// Appends each filter to the chain, behind a comma.
fn push_filters(chain: &mut String, filters: &Vec<String>)
    ensures
        final(chain)@ == with_filters(old(chain)@, texts(filters@)),
{
    let ghost all = texts(filters@);
    let mut i: usize = 0;
    assert(all.take(0) =~= Seq::<Seq<char>>::empty());
    while i < filters.len()
        invariant
            i <= filters.len(),
            all == texts(filters@),
            chain@ == with_filters(old(chain)@, all.take(i as int)),
        decreases filters.len() - i,
    {
        proof {
            assert(all.take(i + 1).drop_last() =~= all.take(i as int));
            assert(all.take(i + 1).last() == filters@[i as int]@);
        }
        chain.append(",");
        chain.append(filters[i].as_str());
        i += 1;
    }
    assert(all.take(i as int) =~= all);
}

/// Appends the fit into the output size to the chain.
fn push_fit(chain: &mut String, width: u32, height: u32)
    ensures
        final(chain)@ == old(chain)@ + fit(width as nat, height as nat),
{
    chain.append(",scale=");
    push_number(chain, width as u128);
    chain.append(":");
    push_number(chain, height as u128);
    chain.append(":force_original_aspect_ratio=decrease,pad=");
    push_number(chain, width as u128);
    chain.append(":");
    push_number(chain, height as u128);
    chain.append(":(ow-iw)/2:(oh-ih)/2:black");
    assert(chain@ =~= old(chain)@ + fit(width as nat, height as nat));
}

/// Builds the video chain of the clip at position `index`.
pub fn build_video_chain(clip: &ExportClip, index: usize, width: u32, height: u32) -> (r: String)
    ensures
        r@ == video_chain(clip@, index as nat, width as nat, height as nat),
{
    let mut chain = String::from_str("[");
    push_number(&mut chain, index as u128);
    chain.append(":v]trim=start=");
    push_six_decimals(&mut chain, clip.source_start as i128);
    chain.append(":end=");
    push_six_decimals(&mut chain, clip.source_end as i128);
    chain.append(",setpts=PTS-STARTPTS");
    let filters = build_effect_filters(clip.effects.as_slice());
    push_filters(&mut chain, &filters);
    push_fit(&mut chain, width, height);
    chain.append("[v");
    push_number(&mut chain, index as u128);
    chain.append("]");
    assert(chain@ =~= video_chain(clip@, index as nat, width as nat, height as nat));
    chain
}

/// Builds the audio chain of the clip at position `index`.
pub fn build_audio_chain(clip: &ExportClip, index: usize) -> (r: String)
    ensures
        r@ == audio_chain(clip@, index as nat),
{
    let mut chain = String::from_str("[");
    push_number(&mut chain, index as u128);
    chain.append(":a]atrim=start=");
    push_six_decimals(&mut chain, clip.source_start as i128);
    chain.append(":end=");
    push_six_decimals(&mut chain, clip.source_end as i128);
    chain.append(",asetpts=PTS-STARTPTS");
    let filters = build_audio_filters(clip.effects.as_slice());
    push_filters(&mut chain, &filters);
    chain.append("[a");
    push_number(&mut chain, index as u128);
    chain.append("]");
    assert(chain@ =~= audio_chain(clip@, index as nat));
    chain
}

/// Builds the concatenation node for `count` clips.
pub fn build_concat_node(count: usize) -> (r: String)
    ensures
        r@ == concat_node(count as nat),
{
    let mut node = String::new();
    let mut i: usize = 0;
    while i < count
        invariant
            i <= count,
            node@ == port_pairs(i as nat),
        decreases count - i,
    {
        let ghost before = node@;
        node.append("[v");
        push_number(&mut node, i as u128);
        node.append("][a");
        push_number(&mut node, i as u128);
        node.append("]");
        proof {
            reveal_strlit("][a");
            reveal_strlit("]");
            reveal_strlit("[a");
            assert("][a"@ =~= "]"@ + "[a"@);
            assert(node@ =~= before + video_port(i as nat) + audio_port(i as nat));
        }
        i += 1;
    }
    node.append("concat=n=");
    push_number(&mut node, count as u128);
    node.append(":v=1:a=1[vout][aout]");
    node
}

/// Joins the parts with `separator` between each two of them.
pub fn join(parts: &Vec<String>, separator: &str) -> (r: String)
    ensures
        r@ == joined(texts(parts@), separator@),
{
    let ghost all = texts(parts@);
    let mut r = String::new();
    if parts.len() == 0 {
        return r;
    }
    r.append(parts[0].as_str());
    assert(all.take(1) =~= seq![parts@[0]@]);
    assert(r@ =~= parts@[0]@);
    let mut i: usize = 1;
    while i < parts.len()
        invariant
            1 <= i <= parts.len(),
            all == texts(parts@),
            r@ == joined(all.take(i as int), separator@),
        decreases parts.len() - i,
    {
        proof {
            assert(all.take(i + 1).drop_last() =~= all.take(i as int));
            assert(all.take(i + 1).last() == parts@[i as int]@);
        }
        r.append(separator);
        r.append(parts[i].as_str());
        i += 1;
    }
    assert(all.take(i as int) =~= all);
    r
}

/// Builds the chains of all clips.
pub fn build_clip_segments(clips: &[ExportClip], width: u32, height: u32) -> (r: Vec<String>)
    ensures
        texts(r@) == clip_segments(views(clips@), width as nat, height as nat),
{
    let mut parts: Vec<String> = Vec::new();
    proof {
        texts_empty();
    }
    let ghost all = views(clips@);
    let mut i: usize = 0;
    assert(all.take(0) =~= Seq::<ClipView>::empty());
    while i < clips.len()
        invariant
            i <= clips.len(),
            all == views(clips@),
            texts(parts@) == clip_segments(all.take(i as int), width as nat, height as nat),
        decreases clips.len() - i,
    {
        proof {
            assert(all.take(i + 1).drop_last() =~= all.take(i as int));
            assert(all.take(i + 1).last() == clips@[i as int]@);
        }
        let video = build_video_chain(&clips[i], i, width, height);
        let audio = build_audio_chain(&clips[i], i);
        proof {
            texts_push(parts@, video);
            texts_push(parts@.push(video), audio);
        }
        parts.push(video);
        parts.push(audio);
        i += 1;
    }
    assert(all.take(i as int) =~= all);
    parts
}

/// Builds the filter graph of the timeline for the given output size.
pub fn build_filter_complex(clips: &[ExportClip], output_width: u32, output_height: u32) -> (r:
    String)
    ensures
        r@ == filter_graph(views(clips@), output_width as nat, output_height as nat),
{
    let mut parts = build_clip_segments(clips, output_width, output_height);
    if clips.len() >= 2 {
        let node = build_concat_node(clips.len());
        proof {
            texts_push(parts@, node);
        }
        parts.push(node);
    }
    join(&parts, ";")
}

} // verus!
