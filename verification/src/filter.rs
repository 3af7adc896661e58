//! The video expression of each effect: what the engine is asked to do to
//! the picture for one effect of a clip, as text.
//!
//! An effect whose number lies within a small tolerance of its neutral
//! value changes nothing and gets no expression. Crops and fades are
//! always written.

use crate::effect::Effect;
use crate::fixed::{
    magnitude, magnitude_of, nearest, nearest_quotient, push_six_decimals, six_decimals, whole_of,
    whole_u32,
};
use crate::text::{digits_of, push_number};
use vstd::prelude::*;
use vstd::string::*;

verus! {

/// The tolerance, in millionths, within which a factor or an offset counts
/// as its neutral value: one thousandth.
pub const EPSILON: i64 = 1_000;

/// The tolerance, in millionths of a kelvin, around the neutral color
/// temperature: one kelvin.
pub const KELVIN_TOLERANCE: i64 = 1_000_000;

/// The neutral color temperature, in millionths of a kelvin: 6500 kelvin.
pub const NEUTRAL_KELVIN: i64 = 6_500_000_000;

/// Whether `v` lies strictly within `tolerance` of `center`.
pub open spec fn near(v: int, center: int, tolerance: int) -> bool {
    -tolerance < v - center < tolerance
}

/// An angle in millionths of a degree, as millionths of a radian.
pub open spec fn radians(degrees: int) -> int {
    nearest(degrees * 3_141_592_653_589_793, 180_000_000_000_000_000)
}

/// The reciprocal of a rate, both in millionths.
pub open spec fn reciprocal(rate: int) -> int
    recommends
        rate != 0,
{
    if rate > 0 {
        nearest(1_000_000_000_000, rate)
    } else {
        -nearest(1_000_000_000_000, -rate)
    }
}

/// One coefficient of the sepia mix: from `identity` as far towards
/// `sepia` as `amount` asks for.
pub open spec fn blend(identity: int, sepia: int, amount: int) -> int {
    identity + nearest((sepia - identity) * amount, 1_000_000)
}

/// The nine coefficients of the sepia mix for `amount`, row by row: each
/// lies between that of the identity matrix and that of the sepia matrix.
pub open spec fn sepia_matrix(amount: int) -> Seq<int> {
    seq![
        blend(1_000_000, 393_000, amount),
        blend(0, 769_000, amount),
        blend(0, 189_000, amount),
        blend(0, 349_000, amount),
        blend(1_000_000, 686_000, amount),
        blend(0, 168_000, amount),
        blend(0, 272_000, amount),
        blend(0, 534_000, amount),
        blend(1_000_000, 131_000, amount),
    ]
}

/// Scales width and height by the factor.
pub open spec fn scale_text(factor: int) -> Seq<char> {
    "scale=iw*"@ + six_decimals(factor) + ":ih*"@ + six_decimals(factor)
}

/// Pads by the whole pixels of the offsets and crops back to the input's
/// size; a positive offset moves the picture right or down.
pub open spec fn position_text(x: int, y: int) -> Seq<char> {
    let ax = whole_u32(magnitude(x) as int) as nat;
    let ay = whole_u32(magnitude(y) as int) as nat;
    let pad_x = if x > 0 { ax } else { 0 };
    let pad_y = if y > 0 { ay } else { 0 };
    let crop_x = if x > 0 { 0 } else { ax };
    let crop_y = if y > 0 { 0 } else { ay };
    "pad=iw+"@ + digits_of(ax) + ":ih+"@ + digits_of(ay) + ":"@ + digits_of(pad_x) + ":"@
        + digits_of(pad_y) + ":black,crop=iw-"@ + digits_of(ax) + ":ih-"@ + digits_of(ay) + ":"@
        + digits_of(crop_x) + ":"@ + digits_of(crop_y)
}

/// Rotates by the angle, given to the engine in radians, and fills with
/// black.
pub open spec fn rotation_text(degrees: int) -> Seq<char> {
    "rotate="@ + six_decimals(radians(degrees)) + ":fillcolor=black"@
}

/// Changes to a pixel format with an alpha channel and scales that channel
/// by the opacity.
pub open spec fn opacity_text(opacity: int) -> Seq<char> {
    "format=rgba,colorchannelmixer=aa="@ + six_decimals(opacity)
}

/// Crops to the whole pixels of width and height at the offset.
pub open spec fn crop_text(width: int, height: int, x: int, y: int) -> Seq<char> {
    "crop="@ + digits_of(whole_u32(width) as nat) + ":"@ + digits_of(whole_u32(height) as nat)
        + ":"@ + digits_of(whole_u32(x) as nat) + ":"@ + digits_of(whole_u32(y) as nat)
}

/// Adjusts the brightness.
pub open spec fn brightness_text(value: int) -> Seq<char> {
    "eq=brightness="@ + six_decimals(value)
}

/// Adjusts the contrast.
pub open spec fn contrast_text(value: int) -> Seq<char> {
    "eq=contrast="@ + six_decimals(value)
}

/// Adjusts the saturation.
pub open spec fn saturation_text(value: int) -> Seq<char> {
    "eq=saturation="@ + six_decimals(value)
}

/// Adjusts the exposure.
pub open spec fn exposure_text(value: int) -> Seq<char> {
    "exposure=exposure="@ + six_decimals(value)
}

/// Sets the color temperature to the whole kelvins.
pub open spec fn temperature_text(kelvin: int) -> Seq<char> {
    "colortemperature=temperature="@ + digits_of(whole_u32(kelvin) as nat)
}

/// Rotates the hue by the angle in degrees.
pub open spec fn hue_text(degrees: int) -> Seq<char> {
    "hue=h="@ + six_decimals(degrees)
}

/// Keeps `1 - amount` of the saturation; an amount of one or more removes
/// it all.
pub open spec fn grayscale_text(amount: int) -> Seq<char> {
    if amount >= 1_000_000 {
        "hue=s=0"@
    } else {
        "hue=s="@ + six_decimals(1_000_000 - amount)
    }
}

/// Blurs with the given sigma.
pub open spec fn blur_text(sigma: int) -> Seq<char> {
    "gblur=sigma="@ + six_decimals(sigma)
}

/// An unsharp mask whose luma amount is `amount` and whose chroma amount is
/// half of it.
pub open spec fn sharpen_text(amount: int) -> Seq<char> {
    "unsharp=5:5:"@ + six_decimals(amount) + ":5:5:"@ + six_decimals(nearest(amount, 2))
}

/// Three coefficients of one output channel, separated by colons.
pub open spec fn mix_row(a: int, b: int, c: int) -> Seq<char> {
    six_decimals(a) + ":"@ + six_decimals(b) + ":"@ + six_decimals(c)
}

/// A color-channel mix of the sepia matrix for `amount`; each color row
/// takes nothing from alpha, and alpha passes through.
pub open spec fn sepia_text(amount: int) -> Seq<char> {
    let m = sepia_matrix(amount);
    "colorchannelmixer="@ + mix_row(m[0], m[1], m[2]) + ":0:"@ + mix_row(m[3], m[4], m[5])
        + ":0:"@ + mix_row(m[6], m[7], m[8])
}

/// Darkens the corners by the angle.
pub open spec fn vignette_text(angle: int) -> Seq<char> {
    "vignette=angle="@ + six_decimals(angle)
}

/// Fades in over the duration.
pub open spec fn fade_in_text(duration: int) -> Seq<char> {
    "fade=t=in:d="@ + six_decimals(duration)
}

/// Fades out from `start` on, over the duration.
pub open spec fn fade_out_text(start: int, duration: int) -> Seq<char> {
    "fade=t=out:st="@ + six_decimals(start) + ":d="@ + six_decimals(duration)
}

/// Stretches time by the reciprocal of the rate. A rate of zero has no
/// finite reciprocal, which is written `inf`.
pub open spec fn speed_text(rate: int) -> Seq<char> {
    if rate == 0 {
        "setpts=inf*PTS"@
    } else {
        "setpts="@ + six_decimals(reciprocal(rate)) + "*PTS"@
    }
}

/// Whether the effect leaves the picture as it is, so that no expression is
/// written for it. A factor is neutral near one, an offset or an angle near
/// zero, a color temperature near 6500 kelvin, and an amount below the
/// tolerance.
pub open spec fn is_neutral(e: Effect) -> bool {
    match e {
        Effect::Scale { factor } => near(factor as int, 1_000_000, EPSILON as int),
        Effect::Position { x, y } => near(x as int, 0, EPSILON as int) && near(
            y as int,
            0,
            EPSILON as int,
        ),
        Effect::Rotation { degrees } => near(degrees as int, 0, EPSILON as int),
        Effect::Opacity { opacity } => near(opacity as int, 1_000_000, EPSILON as int),
        Effect::Crop { .. } => false,
        Effect::Brightness { value } => near(value as int, 0, EPSILON as int),
        Effect::Contrast { value } => near(value as int, 1_000_000, EPSILON as int),
        Effect::Saturation { value } => near(value as int, 1_000_000, EPSILON as int),
        Effect::Exposure { value } => near(value as int, 0, EPSILON as int),
        Effect::ColorTemperature { kelvin } => near(
            kelvin as int,
            NEUTRAL_KELVIN as int,
            KELVIN_TOLERANCE as int,
        ),
        Effect::HueRotate { degrees } => near(degrees as int, 0, EPSILON as int),
        Effect::Grayscale { amount } => amount < EPSILON,
        Effect::GaussianBlur { sigma } => sigma < EPSILON,
        Effect::Sharpen { amount } => amount < EPSILON,
        Effect::Sepia { amount } => amount < EPSILON,
        Effect::Vignette { angle } => angle < EPSILON,
        Effect::FadeIn { .. } => false,
        Effect::FadeOut { .. } => false,
        Effect::PlaybackSpeed { rate } => near(rate as int, 1_000_000, EPSILON as int),
    }
}

/// The expression that the effect puts into a clip's video chain, whether
/// or not the effect is neutral.
pub open spec fn expression(e: Effect) -> Seq<char> {
    match e {
        Effect::Scale { factor } => scale_text(factor as int),
        Effect::Position { x, y } => position_text(x as int, y as int),
        Effect::Rotation { degrees } => rotation_text(degrees as int),
        Effect::Opacity { opacity } => opacity_text(opacity as int),
        Effect::Crop { width, height, x, y } => crop_text(
            width as int,
            height as int,
            x as int,
            y as int,
        ),
        Effect::Brightness { value } => brightness_text(value as int),
        Effect::Contrast { value } => contrast_text(value as int),
        Effect::Saturation { value } => saturation_text(value as int),
        Effect::Exposure { value } => exposure_text(value as int),
        Effect::ColorTemperature { kelvin } => temperature_text(kelvin as int),
        Effect::HueRotate { degrees } => hue_text(degrees as int),
        Effect::Grayscale { amount } => grayscale_text(amount as int),
        Effect::GaussianBlur { sigma } => blur_text(sigma as int),
        Effect::Sharpen { amount } => sharpen_text(amount as int),
        Effect::Sepia { amount } => sepia_text(amount as int),
        Effect::Vignette { angle } => vignette_text(angle as int),
        Effect::FadeIn { duration } => fade_in_text(duration as int),
        Effect::FadeOut { start, duration } => fade_out_text(start as int, duration as int),
        Effect::PlaybackSpeed { rate } => speed_text(rate as int),
    }
}

/// The expression written for the effect: none where it is neutral.
pub open spec fn video_text(e: Effect) -> Option<Seq<char>> {
    if is_neutral(e) {
        None
    } else {
        Some(expression(e))
    }
}

/// No expression is written for an effect exactly where its number lies
/// within the tolerance of the neutral value: less than a thousandth from
/// it, or less than one kelvin from 6500 kelvin. At the tolerance itself
/// the expression is written. Crops and fades are always written.
pub proof fn neutral_exactly_within_tolerance(e: Effect)
    ensures
        video_text(e) is None <==> match e {
            Effect::Scale { factor } => 999_000 < factor < 1_001_000,
            Effect::Position { x, y } => -1_000 < x < 1_000 && -1_000 < y < 1_000,
            Effect::Rotation { degrees } => -1_000 < degrees < 1_000,
            Effect::Opacity { opacity } => 999_000 < opacity < 1_001_000,
            Effect::Crop { .. } => false,
            Effect::Brightness { value } => -1_000 < value < 1_000,
            Effect::Contrast { value } => 999_000 < value < 1_001_000,
            Effect::Saturation { value } => 999_000 < value < 1_001_000,
            Effect::Exposure { value } => -1_000 < value < 1_000,
            Effect::ColorTemperature { kelvin } => 6_499_000_000 < kelvin < 6_501_000_000,
            Effect::HueRotate { degrees } => -1_000 < degrees < 1_000,
            Effect::Grayscale { amount } => amount < 1_000,
            Effect::GaussianBlur { sigma } => sigma < 1_000,
            Effect::Sharpen { amount } => amount < 1_000,
            Effect::Sepia { amount } => amount < 1_000,
            Effect::Vignette { angle } => angle < 1_000,
            Effect::FadeIn { .. } => false,
            Effect::FadeOut { .. } => false,
            Effect::PlaybackSpeed { rate } => 999_000 < rate < 1_001_000,
        },
        video_text(e) matches Some(t) ==> t == expression(e),
{
}

/// A whole number of millionths divided by one million is that number.
proof fn nearest_of_whole(k: int)
    ensures
        nearest(k * 1_000_000, 1_000_000) == k,
{
    if k >= 0 {
        assert((k * 1_000_000) % 1_000_000 == 0 && (k * 1_000_000) / 1_000_000 == k)
            by (nonlinear_arith)
            requires
                k >= 0,
        ;
    } else {
        let m = -k;
        assert(magnitude(k * 1_000_000) == m * 1_000_000) by (nonlinear_arith)
            requires
                m == -k,
                k < 0,
        ;
        assert((m * 1_000_000) % 1_000_000 == 0 && (m * 1_000_000) / 1_000_000 == m)
            by (nonlinear_arith)
            requires
                m >= 0,
        ;
        assert(k * 1_000_000 < 0) by (nonlinear_arith)
            requires
                k < 0,
        ;
    }
}

/// A coefficient of the sepia mix is the identity's at amount zero and the
/// sepia matrix's at amount one.
pub proof fn blend_reaches_both_ends(identity: int, sepia: int)
    ensures
        blend(identity, sepia, 0) == identity,
        blend(identity, sepia, 1_000_000) == sepia,
{
    assert((sepia - identity) * 0 == 0);
    nearest_of_whole(sepia - identity);
}

/// At amount zero the sepia mix is the identity matrix, at amount one the
/// sepia matrix.
pub proof fn sepia_matrix_at_both_ends()
    ensures
        sepia_matrix(0) == seq![
            1_000_000int,
            0,
            0,
            0,
            1_000_000,
            0,
            0,
            0,
            1_000_000,
        ],
        sepia_matrix(1_000_000) == seq![
            393_000int,
            769_000,
            189_000,
            349_000,
            686_000,
            168_000,
            272_000,
            534_000,
            131_000,
        ],
{
    blend_reaches_both_ends(1_000_000, 393_000);
    blend_reaches_both_ends(0, 769_000);
    blend_reaches_both_ends(0, 189_000);
    blend_reaches_both_ends(0, 349_000);
    blend_reaches_both_ends(1_000_000, 686_000);
    blend_reaches_both_ends(0, 168_000);
    blend_reaches_both_ends(0, 272_000);
    blend_reaches_both_ends(0, 534_000);
    blend_reaches_both_ends(1_000_000, 131_000);
    assert(sepia_matrix(0) =~= seq![
        1_000_000int,
        0,
        0,
        0,
        1_000_000,
        0,
        0,
        0,
        1_000_000,
    ]);
    assert(sepia_matrix(1_000_000) =~= seq![
        393_000int,
        769_000,
        189_000,
        349_000,
        686_000,
        168_000,
        272_000,
        534_000,
        131_000,
    ]);
}

/// Whether `v` lies strictly within `tolerance` of `center`.
pub fn is_near(v: i64, center: i64, tolerance: i64) -> (r: bool)
    ensures
        r == near(v as int, center as int, tolerance as int),
{
    let d: i128 = v as i128 - center as i128;
    -(tolerance as i128) < d && d < tolerance as i128
}

/// Converts millionths of a degree to millionths of a radian.
pub fn radians_of(degrees: i64) -> (r: i128)
    ensures
        r == radians(degrees as int),
{
    let n: i128 = degrees as i128 * 3_141_592_653_589_793;
    nearest_quotient(n, 180_000_000_000_000_000)
}

/// The reciprocal of a rate other than zero.
pub fn reciprocal_of(rate: i64) -> (r: i128)
    requires
        rate != 0,
    ensures
        r == reciprocal(rate as int),
{
    if rate > 0 {
        nearest_quotient(1_000_000_000_000, rate as i128)
    } else {
        -nearest_quotient(1_000_000_000_000, -(rate as i128))
    }
}

/// One coefficient of the sepia mix, between two coefficients from zero to
/// one.
pub fn blend_of(identity: i64, sepia: i64, amount: i64) -> (r: i128)
    requires
        0 <= identity <= 1_000_000,
        0 <= sepia <= 1_000_000,
    ensures
        r == blend(identity as int, sepia as int, amount as int),
{
    let step: i128 = sepia as i128 - identity as i128;
    assert(-0x8000_0000_0000_0000 * 1_000_000 <= step * amount <= 0x8000_0000_0000_0000
        * 1_000_000) by (nonlinear_arith)
        requires
            -1_000_000 <= step <= 1_000_000,
            -0x8000_0000_0000_0000 <= amount < 0x8000_0000_0000_0000,
    ;
    let scaled: i128 = nearest_quotient(step * amount as i128, 1_000_000);
    assert(-0x8000_0000_0000_0000 * 1_000_000 <= scaled <= 0x8000_0000_0000_0000 * 1_000_000)
        by (nonlinear_arith)
        requires
            scaled == nearest(step * amount, 1_000_000),
            -0x8000_0000_0000_0000 * 1_000_000 <= step * amount <= 0x8000_0000_0000_0000
                * 1_000_000,
    ;
    identity as i128 + scaled
}

/// The nine coefficients of the sepia mix for `amount`, row by row.
pub fn sepia_coefficients(amount: i64) -> (m: Vec<i128>)
    ensures
        m@.len() == 9,
        forall|i: int| 0 <= i < 9 ==> m@[i] == sepia_matrix(amount as int)[i],
{
    let mut m: Vec<i128> = Vec::new();
    m.push(blend_of(1_000_000, 393_000, amount));
    m.push(blend_of(0, 769_000, amount));
    m.push(blend_of(0, 189_000, amount));
    m.push(blend_of(0, 349_000, amount));
    m.push(blend_of(1_000_000, 686_000, amount));
    m.push(blend_of(0, 168_000, amount));
    m.push(blend_of(0, 272_000, amount));
    m.push(blend_of(0, 534_000, amount));
    m.push(blend_of(1_000_000, 131_000, amount));
    m
}

/// `label` followed by `v` with six decimals.
pub fn labelled(label: &str, v: i128) -> (r: String)
    ensures
        r@ == label@ + six_decimals(v as int),
{
    let mut r = String::from_str(label);
    push_six_decimals(&mut r, v);
    r
}

/// Writes the expression of a scale.
pub fn scale_filter(factor: i64) -> (r: String)
    ensures
        r@ == scale_text(factor as int),
{
    let mut r = String::from_str("scale=iw*");
    push_six_decimals(&mut r, factor as i128);
    r.append(":ih*");
    push_six_decimals(&mut r, factor as i128);
    r
}

/// Writes the expression of a shift.
pub fn position_filter(x: i64, y: i64) -> (r: String)
    ensures
        r@ == position_text(x as int, y as int),
{
    let ax: u32 = whole_of(magnitude_of(x as i128) as i128);
    let ay: u32 = whole_of(magnitude_of(y as i128) as i128);
    let pad_x: u32 = if x > 0 { ax } else { 0 };
    let pad_y: u32 = if y > 0 { ay } else { 0 };
    let crop_x: u32 = if x > 0 { 0 } else { ax };
    let crop_y: u32 = if y > 0 { 0 } else { ay };
    let mut r = String::from_str("pad=iw+");
    push_number(&mut r, ax as u128);
    r.append(":ih+");
    push_number(&mut r, ay as u128);
    r.append(":");
    push_number(&mut r, pad_x as u128);
    r.append(":");
    push_number(&mut r, pad_y as u128);
    r.append(":black,crop=iw-");
    push_number(&mut r, ax as u128);
    r.append(":ih-");
    push_number(&mut r, ay as u128);
    r.append(":");
    push_number(&mut r, crop_x as u128);
    r.append(":");
    push_number(&mut r, crop_y as u128);
    r
}

/// Writes the expression of a rotation.
pub fn rotation_filter(degrees: i64) -> (r: String)
    ensures
        r@ == rotation_text(degrees as int),
{
    let mut r = labelled("rotate=", radians_of(degrees));
    r.append(":fillcolor=black");
    r
}

/// Writes the expression of a crop.
pub fn crop_filter(width: i64, height: i64, x: i64, y: i64) -> (r: String)
    ensures
        r@ == crop_text(width as int, height as int, x as int, y as int),
{
    let mut r = String::from_str("crop=");
    push_number(&mut r, whole_of(width as i128) as u128);
    r.append(":");
    push_number(&mut r, whole_of(height as i128) as u128);
    r.append(":");
    push_number(&mut r, whole_of(x as i128) as u128);
    r.append(":");
    push_number(&mut r, whole_of(y as i128) as u128);
    r
}

/// Writes the expression of a color temperature.
pub fn temperature_filter(kelvin: i64) -> (r: String)
    ensures
        r@ == temperature_text(kelvin as int),
{
    let mut r = String::from_str("colortemperature=temperature=");
    push_number(&mut r, whole_of(kelvin as i128) as u128);
    r
}

/// Writes the expression of a loss of saturation.
pub fn grayscale_filter(amount: i64) -> (r: String)
    ensures
        r@ == grayscale_text(amount as int),
{
    if amount >= 1_000_000 {
        String::from_str("hue=s=0")
    } else {
        labelled("hue=s=", 1_000_000 - amount as i128)
    }
}

/// Writes the expression of a sharpening.
pub fn sharpen_filter(amount: i64) -> (r: String)
    ensures
        r@ == sharpen_text(amount as int),
{
    let mut r = labelled("unsharp=5:5:", amount as i128);
    r.append(":5:5:");
    push_six_decimals(&mut r, nearest_quotient(amount as i128, 2));
    r
}

/// Appends three coefficients of one output channel to `out`.
fn push_mix_row(out: &mut String, a: i128, b: i128, c: i128)
    ensures
        final(out)@ == old(out)@ + mix_row(a as int, b as int, c as int),
{
    push_six_decimals(out, a);
    out.append(":");
    push_six_decimals(out, b);
    out.append(":");
    push_six_decimals(out, c);
    assert(out@ =~= old(out)@ + mix_row(a as int, b as int, c as int));
}

/// Writes the expression of a sepia mix.
pub fn sepia_filter(amount: i64) -> (r: String)
    ensures
        r@ == sepia_text(amount as int),
{
    let m = sepia_coefficients(amount);
    let mut r = String::from_str("colorchannelmixer=");
    push_mix_row(&mut r, m[0], m[1], m[2]);
    r.append(":0:");
    push_mix_row(&mut r, m[3], m[4], m[5]);
    r.append(":0:");
    push_mix_row(&mut r, m[6], m[7], m[8]);
    r
}

/// Writes the expression of a fade out.
pub fn fade_out_filter(start: i64, duration: i64) -> (r: String)
    ensures
        r@ == fade_out_text(start as int, duration as int),
{
    let mut r = labelled("fade=t=out:st=", start as i128);
    r.append(":d=");
    push_six_decimals(&mut r, duration as i128);
    r
}

/// Writes the expression of a change of speed.
pub fn speed_filter(rate: i64) -> (r: String)
    ensures
        r@ == speed_text(rate as int),
{
    if rate == 0 {
        String::from_str("setpts=inf*PTS")
    } else {
        let mut r = labelled("setpts=", reciprocal_of(rate));
        r.append("*PTS");
        r
    }
}

impl Effect {
    /// Whether no expression is written for the effect.
    pub fn neutral(&self) -> (r: bool)
        ensures
            r == is_neutral(*self),
    {
        match *self {
            Effect::Scale { factor } => is_near(factor, 1_000_000, EPSILON),
            Effect::Position { x, y } => is_near(x, 0, EPSILON) && is_near(y, 0, EPSILON),
            Effect::Rotation { degrees } => is_near(degrees, 0, EPSILON),
            Effect::Opacity { opacity } => is_near(opacity, 1_000_000, EPSILON),
            Effect::Crop { .. } => false,
            Effect::Brightness { value } => is_near(value, 0, EPSILON),
            Effect::Contrast { value } => is_near(value, 1_000_000, EPSILON),
            Effect::Saturation { value } => is_near(value, 1_000_000, EPSILON),
            Effect::Exposure { value } => is_near(value, 0, EPSILON),
            Effect::ColorTemperature { kelvin } => is_near(kelvin, NEUTRAL_KELVIN, KELVIN_TOLERANCE),
            Effect::HueRotate { degrees } => is_near(degrees, 0, EPSILON),
            Effect::Grayscale { amount } => amount < EPSILON,
            Effect::GaussianBlur { sigma } => sigma < EPSILON,
            Effect::Sharpen { amount } => amount < EPSILON,
            Effect::Sepia { amount } => amount < EPSILON,
            Effect::Vignette { angle } => angle < EPSILON,
            Effect::FadeIn { .. } => false,
            Effect::FadeOut { .. } => false,
            Effect::PlaybackSpeed { rate } => is_near(rate, 1_000_000, EPSILON),
        }
    }

    /// Compiles the effect to its expression for a clip's video chain, or to
    /// nothing where it is neutral.
    pub fn video_filter(&self) -> (r: Option<String>)
        ensures
            match r {
                Some(s) => video_text(*self) == Some(s@),
                None => video_text(*self) is None,
            },
    {
        if self.neutral() {
            return None;
        }
        let s = match *self {
            Effect::Scale { factor } => scale_filter(factor),
            Effect::Position { x, y } => position_filter(x, y),
            Effect::Rotation { degrees } => rotation_filter(degrees),
            Effect::Opacity { opacity } => labelled(
                "format=rgba,colorchannelmixer=aa=",
                opacity as i128,
            ),
            Effect::Crop { width, height, x, y } => crop_filter(width, height, x, y),
            Effect::Brightness { value } => labelled("eq=brightness=", value as i128),
            Effect::Contrast { value } => labelled("eq=contrast=", value as i128),
            Effect::Saturation { value } => labelled("eq=saturation=", value as i128),
            Effect::Exposure { value } => labelled("exposure=exposure=", value as i128),
            Effect::ColorTemperature { kelvin } => temperature_filter(kelvin),
            Effect::HueRotate { degrees } => labelled("hue=h=", degrees as i128),
            Effect::Grayscale { amount } => grayscale_filter(amount),
            Effect::GaussianBlur { sigma } => labelled("gblur=sigma=", sigma as i128),
            Effect::Sharpen { amount } => sharpen_filter(amount),
            Effect::Sepia { amount } => sepia_filter(amount),
            Effect::Vignette { angle } => labelled("vignette=angle=", angle as i128),
            Effect::FadeIn { duration } => labelled("fade=t=in:d=", duration as i128),
            Effect::FadeOut { start, duration } => fade_out_filter(start, duration),
            Effect::PlaybackSpeed { rate } => speed_filter(rate),
        };
        Some(s)
    }
}

} // verus!
