//! Encoder arguments for each video codec and quality tier, and for each
//! audio codec.

use crate::text::{chars_of, spells, texts, texts_empty, texts_push};
use vstd::prelude::*;
use vstd::string::*;

verus! {

/// The value that a quality tier selects; a tier that is not known selects
/// `other`.
pub open spec fn by_tier(
    quality: Seq<char>,
    low: Seq<char>,
    medium: Seq<char>,
    high: Seq<char>,
    lossless: Seq<char>,
    other: Seq<char>,
) -> Seq<char> {
    if quality == "low"@ {
        low
    } else if quality == "medium"@ {
        medium
    } else if quality == "high"@ {
        high
    } else if quality == "lossless"@ {
        lossless
    } else {
        other
    }
}

/// Arguments of an encoder that takes a constant rate factor and a preset.
pub open spec fn rate_factor_args(encoder: Seq<char>, factor: Seq<char>) -> Seq<Seq<char>> {
    seq![
        "-c:v"@,
        encoder,
        "-crf"@,
        factor,
        "-preset"@,
        "medium"@,
        "-pix_fmt"@,
        "yuv420p"@,
    ]
}

/// The encoder arguments for a video codec at a quality tier. A codec that
/// is not known gets those of `h264` at `medium`.
pub open spec fn codec_args(codec: Seq<char>, quality: Seq<char>) -> Seq<Seq<char>> {
    if codec == "h264"@ {
        rate_factor_args("libx264"@, by_tier(quality, "28"@, "23"@, "18"@, "0"@, "23"@))
    } else if codec == "h265"@ || codec == "hevc"@ {
        rate_factor_args("libx265"@, by_tier(quality, "32"@, "28"@, "22"@, "0"@, "28"@))
    } else if codec == "vp9"@ {
        seq![
            "-c:v"@,
            "libvpx-vp9"@,
            "-crf"@,
            by_tier(quality, "40"@, "33"@, "25"@, "0"@, "33"@),
            "-b:v"@,
            "0"@,
            "-pix_fmt"@,
            "yuv420p"@,
        ]
    } else if codec == "prores"@ {
        seq![
            "-c:v"@,
            "prores_ks"@,
            "-profile:v"@,
            by_tier(quality, "0"@, "2"@, "3"@, "4"@, "3"@),
            "-pix_fmt"@,
            "yuva444p10le"@,
        ]
    } else {
        rate_factor_args("libx264"@, "23"@)
    }
}

/// The encoder arguments for an audio codec. Uncompressed audio (`pcm`)
/// takes no bitrate; a codec that is not known gets those of `aac`.
pub open spec fn audio_codec_args(audio_codec: Seq<char>, bitrate: Seq<char>) -> Seq<Seq<char>> {
    if audio_codec == "opus"@ {
        seq!["-c:a"@, "libopus"@, "-b:a"@, bitrate]
    } else if audio_codec == "pcm"@ {
        seq!["-c:a"@, "pcm_s16le"@]
    } else {
        seq!["-c:a"@, "aac"@, "-b:a"@, bitrate]
    }
}

/// Appends a copy of `s` to the list.
pub fn push_text(out: &mut Vec<String>, s: &str)
    ensures
        texts(final(out)@) == texts(old(out)@).push(s@),
{
    let owned = String::from_str(s);
    proof {
        texts_push(out@, owned);
    }
    out.push(owned);
}

/// Selects a value by quality tier.
fn pick<'a>(
    quality: &str,
    low: &'a str,
    medium: &'a str,
    high: &'a str,
    lossless: &'a str,
    other: &'a str,
) -> (r: &'a str)
    ensures
        r@ == by_tier(quality@, low@, medium@, high@, lossless@, other@),
{
    let q = chars_of(quality);
    if spells(&q, "low") {
        low
    } else if spells(&q, "medium") {
        medium
    } else if spells(&q, "high") {
        high
    } else if spells(&q, "lossless") {
        lossless
    } else {
        other
    }
}

/// Builds the arguments of an encoder that takes a rate factor and a preset.
fn rate_factor_list(encoder: &str, factor: &str) -> (r: Vec<String>)
    ensures
        texts(r@) == rate_factor_args(encoder@, factor@),
{
    let mut r: Vec<String> = Vec::new();
    proof {
        texts_empty();
    }
    push_text(&mut r, "-c:v");
    push_text(&mut r, encoder);
    push_text(&mut r, "-crf");
    push_text(&mut r, factor);
    push_text(&mut r, "-preset");
    push_text(&mut r, "medium");
    push_text(&mut r, "-pix_fmt");
    push_text(&mut r, "yuv420p");
    assert(texts(r@) =~= rate_factor_args(encoder@, factor@));
    r
}

/// The encoder arguments for a video codec at a quality tier.
pub fn get_codec_args(codec: &str, quality: &str) -> (r: Vec<String>)
    ensures
        texts(r@) == codec_args(codec@, quality@),
{
    let c = chars_of(codec);
    if spells(&c, "h264") {
        rate_factor_list("libx264", pick(quality, "28", "23", "18", "0", "23"))
    } else if spells(&c, "h265") || spells(&c, "hevc") {
        rate_factor_list("libx265", pick(quality, "32", "28", "22", "0", "28"))
    } else if spells(&c, "vp9") {
        let mut r: Vec<String> = Vec::new();
        proof {
            texts_empty();
        }
        push_text(&mut r, "-c:v");
        push_text(&mut r, "libvpx-vp9");
        push_text(&mut r, "-crf");
        push_text(&mut r, pick(quality, "40", "33", "25", "0", "33"));
        push_text(&mut r, "-b:v");
        push_text(&mut r, "0");
        push_text(&mut r, "-pix_fmt");
        push_text(&mut r, "yuv420p");
        assert(texts(r@) =~= codec_args(codec@, quality@));
        r
    } else if spells(&c, "prores") {
        let mut r: Vec<String> = Vec::new();
        proof {
            texts_empty();
        }
        push_text(&mut r, "-c:v");
        push_text(&mut r, "prores_ks");
        push_text(&mut r, "-profile:v");
        push_text(&mut r, pick(quality, "0", "2", "3", "4", "3"));
        push_text(&mut r, "-pix_fmt");
        push_text(&mut r, "yuva444p10le");
        assert(texts(r@) =~= codec_args(codec@, quality@));
        r
    } else {
        rate_factor_list("libx264", "23")
    }
}

/// The encoder arguments for an audio codec and bitrate.
pub fn get_audio_codec_args(audio_codec: &str, bitrate: &str) -> (r: Vec<String>)
    ensures
        texts(r@) == audio_codec_args(audio_codec@, bitrate@),
{
    let c = chars_of(audio_codec);
    let mut r: Vec<String> = Vec::new();
    proof {
        texts_empty();
    }
    push_text(&mut r, "-c:a");
    if spells(&c, "opus") {
        push_text(&mut r, "libopus");
        push_text(&mut r, "-b:a");
        push_text(&mut r, bitrate);
    } else if spells(&c, "pcm") {
        push_text(&mut r, "pcm_s16le");
    } else {
        push_text(&mut r, "aac");
        push_text(&mut r, "-b:a");
        push_text(&mut r, bitrate);
    }
    assert(texts(r@) =~= audio_codec_args(audio_codec@, bitrate@));
    r
}

} // verus!
