use timeline_export::effect::{AppliedEffect, Effect, EffectParam};
use timeline_export::filter::{blend_of, is_near, radians_of, reciprocal_of, sepia_coefficients};
use timeline_export::stack::{build_audio_filters, build_effect_filters};

fn micros(x: f64) -> i64 {
    (x * 1_000_000.0).round() as i64
}

fn effect(kind: &str, params: &[(&str, f64)]) -> AppliedEffect {
    AppliedEffect {
        id: format!("{}-1", kind),
        effect_id: kind.to_string(),
        parameters: params
            .iter()
            .map(|(n, v)| EffectParam { name: n.to_string(), value: micros(*v) })
            .collect(),
        enabled: true,
    }
}

fn video(kind: &str, params: &[(&str, f64)]) -> Option<String> {
    effect(kind, params).video_filter()
}

fn audio(rate: f64) -> Vec<String> {
    effect("playback_speed", &[("rate", rate)]).audio_filters()
}

#[test]
fn decode_fills_in_defaults() {
    assert_eq!(effect("scale", &[]).decode(), Some(Effect::Scale { factor: 1_000_000 }));
    assert_eq!(
        effect("crop", &[("x", 4.0)]).decode(),
        Some(Effect::Crop { width: 1_920_000_000, height: 1_080_000_000, x: 4_000_000, y: 0 })
    );
    assert_eq!(
        effect("color_temperature", &[]).decode(),
        Some(Effect::ColorTemperature { kelvin: 6_500_000_000 })
    );
    assert_eq!(effect("grayscale", &[]).decode(), Some(Effect::Grayscale { amount: 1_000_000 }));
    assert_eq!(effect("sepia", &[]).decode(), Some(Effect::Sepia { amount: 1_000_000 }));
    assert_eq!(effect("sharpen", &[]).decode(), Some(Effect::Sharpen { amount: 0 }));
    assert_eq!(
        effect("fade_out", &[]).decode(),
        Some(Effect::FadeOut { start: 0, duration: 1_000_000 })
    );
    assert_eq!(effect("fade_in", &[]).decode(), Some(Effect::FadeIn { duration: 1_000_000 }));
    assert_eq!(effect("playback_speed", &[]).decode(), Some(Effect::PlaybackSpeed { rate: 1_000_000 }));
}

#[test]
fn decode_reads_each_kind_by_its_own_names() {
    assert_eq!(
        effect("position", &[("positionY", -2.0), ("positionX", 3.0), ("x", 9.0)]).decode(),
        Some(Effect::Position { x: 3_000_000, y: -2_000_000 })
    );
    assert_eq!(
        effect("rotation", &[("degrees", 90.0)]).decode(),
        Some(Effect::Rotation { degrees: 90_000_000 })
    );
    assert_eq!(
        effect("hue_rotate", &[("degrees", 30.0)]).decode(),
        Some(Effect::HueRotate { degrees: 30_000_000 })
    );
    assert_eq!(
        effect("color_temperature", &[("temperature", 5000.0)]).decode(),
        Some(Effect::ColorTemperature { kelvin: 5_000_000_000 })
    );
    assert_eq!(
        effect("gaussian_blur", &[("sigma", 2.5)]).decode(),
        Some(Effect::GaussianBlur { sigma: 2_500_000 })
    );
    assert_eq!(
        effect("vignette", &[("angle", 0.5)]).decode(),
        Some(Effect::Vignette { angle: 500_000 })
    );
    assert_eq!(
        effect("opacity", &[("opacity", 0.5)]).decode(),
        Some(Effect::Opacity { opacity: 500_000 })
    );
    assert_eq!(
        effect("brightness", &[("brightness", 0.1)]).decode(),
        Some(Effect::Brightness { value: 100_000 })
    );
    assert_eq!(
        effect("contrast", &[("contrast", 1.2)]).decode(),
        Some(Effect::Contrast { value: 1_200_000 })
    );
    assert_eq!(
        effect("saturation", &[("saturation", 0.3)]).decode(),
        Some(Effect::Saturation { value: 300_000 })
    );
    assert_eq!(
        effect("exposure", &[("exposure", -1.0)]).decode(),
        Some(Effect::Exposure { value: -1_000_000 })
    );
}

#[test]
fn decode_does_not_know_other_kinds() {
    assert_eq!(effect("glitch", &[("amount", 1.0)]).decode(), None);
    assert_eq!(effect("", &[]).decode(), None);
    assert_eq!(effect("Scale", &[("scale", 2.0)]).decode(), None);
    assert_eq!(effect("scale ", &[("scale", 2.0)]).decode(), None);
}

#[test]
fn first_entry_of_a_name_counts() {
    let e = effect("scale", &[("other", 7.0), ("scale", 2.0), ("scale", 3.0)]);
    assert_eq!(e.number_or("scale", 1_000_000), 2_000_000);
    assert_eq!(e.number_or("missing", 5), 5);
    assert_eq!(e.decode(), Some(Effect::Scale { factor: 2_000_000 }));
}

#[test]
fn disabled_effect_emits_nothing() {
    for kind in ["scale", "crop", "fade_in", "fade_out", "sepia", "grayscale", "playback_speed"] {
        let mut e = effect(kind, &[("scale", 2.0), ("rate", 0.25), ("amount", 1.0)]);
        e.enabled = false;
        assert_eq!(e.video_filter(), None);
        assert!(e.audio_filters().is_empty());
    }
}

#[test]
fn unknown_kind_emits_nothing() {
    assert_eq!(video("glitch", &[("amount", 1.0)]), None);
    assert!(effect("glitch", &[("rate", 0.25)]).audio_filters().is_empty());
}

#[test]
fn neutral_defaults_emit_nothing() {
    for kind in ["scale", "position", "rotation", "opacity", "brightness", "contrast",
        "saturation", "exposure", "color_temperature", "hue_rotate", "gaussian_blur", "sharpen",
        "vignette", "playback_speed"]
    {
        assert_eq!(video(kind, &[]), None, "{}", kind);
    }
    assert_eq!(video("scale", &[("scale", 1.0)]), None);
    assert_eq!(video("opacity", &[("opacity", 1.0)]), None);
    assert_eq!(video("brightness", &[("brightness", 0.0)]), None);
    assert_eq!(video("grayscale", &[("amount", 0.0)]), None);
    assert_eq!(video("sepia", &[("amount", 0.0)]), None);
}

#[test]
fn scale_at_the_epsilon_boundary() {
    assert_eq!(video("scale", &[("scale", 1.000999)]), None);
    assert_eq!(video("scale", &[("scale", 0.999001)]), None);
    assert_eq!(
        video("scale", &[("scale", 1.001)]).unwrap(),
        "scale=iw*1.001000:ih*1.001000"
    );
    assert_eq!(
        video("scale", &[("scale", 0.999)]).unwrap(),
        "scale=iw*0.999000:ih*0.999000"
    );
}

#[test]
fn offsets_at_the_epsilon_boundary() {
    assert_eq!(video("brightness", &[("brightness", 0.000999)]), None);
    assert_eq!(video("brightness", &[("brightness", -0.000999)]), None);
    assert_eq!(video("brightness", &[("brightness", 0.001)]).unwrap(), "eq=brightness=0.001000");
    assert_eq!(video("brightness", &[("brightness", -0.001)]).unwrap(), "eq=brightness=-0.001000");
    assert_eq!(video("opacity", &[("opacity", 0.999)]).unwrap(), "format=rgba,colorchannelmixer=aa=0.999000");
    assert_eq!(video("opacity", &[("opacity", 0.999001)]), None);
    assert_eq!(video("rotation", &[("degrees", 0.000999)]), None);
    assert_eq!(video("hue_rotate", &[("degrees", -0.000999)]), None);
    assert_eq!(video("exposure", &[("exposure", 0.000999)]), None);
    assert_eq!(video("contrast", &[("contrast", 1.000999)]), None);
    assert_eq!(video("saturation", &[("saturation", 0.999001)]), None);
    assert_eq!(video("playback_speed", &[("rate", 1.000999)]), None);
}

#[test]
fn one_sided_amounts_at_the_epsilon_boundary() {
    for (kind, name) in [("grayscale", "amount"), ("gaussian_blur", "sigma"), ("sharpen", "amount"),
        ("sepia", "amount"), ("vignette", "angle")]
    {
        assert_eq!(video(kind, &[(name, 0.000999)]), None, "{}", kind);
        assert_eq!(video(kind, &[(name, -3.0)]), None, "{}", kind);
        assert!(video(kind, &[(name, 0.001)]).is_some(), "{}", kind);
    }
}

#[test]
fn position_needs_both_offsets_near_zero() {
    assert_eq!(video("position", &[("positionX", 0.0009), ("positionY", -0.0009)]), None);
    assert_eq!(
        video("position", &[("positionX", 0.001)]).unwrap(),
        "pad=iw+0:ih+0:0:0:black,crop=iw-0:ih-0:0:0"
    );
}

#[test]
fn color_temperature_has_a_tolerance_of_one_kelvin() {
    assert_eq!(video("color_temperature", &[("temperature", 6500.0)]), None);
    assert_eq!(video("color_temperature", &[("temperature", 6500.999999)]), None);
    assert_eq!(video("color_temperature", &[("temperature", 6499.000001)]), None);
    assert_eq!(
        video("color_temperature", &[("temperature", 6501.0)]).unwrap(),
        "colortemperature=temperature=6501"
    );
    assert_eq!(
        video("color_temperature", &[("temperature", 6499.0)]).unwrap(),
        "colortemperature=temperature=6499"
    );
    assert_eq!(
        video("color_temperature", &[("temperature", 5000.7)]).unwrap(),
        "colortemperature=temperature=5000"
    );
    assert_eq!(
        video("color_temperature", &[("temperature", -40.0)]).unwrap(),
        "colortemperature=temperature=0"
    );
}

#[test]
fn scale_expression() {
    assert_eq!(video("scale", &[("scale", 1.5)]).unwrap(), "scale=iw*1.500000:ih*1.500000");
    assert_eq!(video("scale", &[("scale", -2.0)]).unwrap(), "scale=iw*-2.000000:ih*-2.000000");
}

#[test]
fn position_pads_then_crops_by_the_sign() {
    assert_eq!(
        video("position", &[("positionX", 10.5), ("positionY", -20.0)]).unwrap(),
        "pad=iw+10:ih+20:10:0:black,crop=iw-10:ih-20:0:20"
    );
    assert_eq!(
        video("position", &[("positionX", -7.0), ("positionY", 3.9)]).unwrap(),
        "pad=iw+7:ih+3:0:3:black,crop=iw-7:ih-3:7:0"
    );
    assert_eq!(
        video("position", &[("positionX", 1e13)]).unwrap(),
        "pad=iw+4294967295:ih+0:4294967295:0:black,crop=iw-4294967295:ih-0:0:0"
    );
}

#[test]
fn rotation_is_written_in_radians() {
    assert_eq!(video("rotation", &[("degrees", 90.0)]).unwrap(), "rotate=1.570796:fillcolor=black");
    assert_eq!(video("rotation", &[("degrees", 180.0)]).unwrap(), "rotate=3.141593:fillcolor=black");
    assert_eq!(video("rotation", &[("degrees", -45.0)]).unwrap(), "rotate=-0.785398:fillcolor=black");
    assert_eq!(radians_of(360_000_000), 6_283_185);
    assert_eq!(radians_of(0), 0);
    assert_eq!(radians_of(1), 0);
    assert_eq!(radians_of(57_295_780), 1_000_000);
}

#[test]
fn rotation_agrees_with_floating_point() {
    for d in [1.0f64, 12.5, 33.3, 270.0, 359.999, -123.456, 1000.0, 0.01] {
        let expected = format!("rotate={:.6}:fillcolor=black", d * std::f64::consts::PI / 180.0);
        assert_eq!(video("rotation", &[("degrees", d)]).unwrap(), expected);
    }
}

#[test]
fn crop_is_always_written() {
    assert_eq!(video("crop", &[]).unwrap(), "crop=1920:1080:0:0");
    assert_eq!(
        video("crop", &[("width", 640.9), ("height", 480.0), ("x", 10.0), ("y", -5.0)]).unwrap(),
        "crop=640:480:10:0"
    );
}

#[test]
fn color_expressions() {
    assert_eq!(video("opacity", &[("opacity", 0.5)]).unwrap(), "format=rgba,colorchannelmixer=aa=0.500000");
    assert_eq!(video("brightness", &[("brightness", 0.1)]).unwrap(), "eq=brightness=0.100000");
    assert_eq!(video("contrast", &[("contrast", 1.2)]).unwrap(), "eq=contrast=1.200000");
    assert_eq!(video("saturation", &[("saturation", 0.0)]).unwrap(), "eq=saturation=0.000000");
    assert_eq!(video("exposure", &[("exposure", -0.5)]).unwrap(), "exposure=exposure=-0.500000");
    assert_eq!(video("hue_rotate", &[("degrees", 120.0)]).unwrap(), "hue=h=120.000000");
    assert_eq!(video("gaussian_blur", &[("sigma", 2.5)]).unwrap(), "gblur=sigma=2.500000");
    assert_eq!(video("vignette", &[("angle", 0.628319)]).unwrap(), "vignette=angle=0.628319");
}

#[test]
fn grayscale_keeps_the_rest_of_the_saturation() {
    assert_eq!(video("grayscale", &[]).unwrap(), "hue=s=0");
    assert_eq!(video("grayscale", &[("amount", 1.0)]).unwrap(), "hue=s=0");
    assert_eq!(video("grayscale", &[("amount", 2.0)]).unwrap(), "hue=s=0");
    assert_eq!(video("grayscale", &[("amount", 0.25)]).unwrap(), "hue=s=0.750000");
    assert_eq!(video("grayscale", &[("amount", 0.999999)]).unwrap(), "hue=s=0.000001");
}

#[test]
fn sharpen_halves_the_amount_for_chroma() {
    assert_eq!(
        video("sharpen", &[("amount", 1.5)]).unwrap(),
        "unsharp=5:5:1.500000:5:5:0.750000"
    );
    assert_eq!(
        video("sharpen", &[("amount", 0.001001)]).unwrap(),
        "unsharp=5:5:0.001001:5:5:0.000501"
    );
}

#[test]
fn sepia_at_zero_is_the_identity_matrix() {
    assert_eq!(
        sepia_coefficients(0),
        vec![1_000_000, 0, 0, 0, 1_000_000, 0, 0, 0, 1_000_000]
    );
}

#[test]
fn sepia_at_one_is_the_sepia_matrix() {
    assert_eq!(
        sepia_coefficients(1_000_000),
        vec![393_000, 769_000, 189_000, 349_000, 686_000, 168_000, 272_000, 534_000, 131_000]
    );
    let expected = "colorchannelmixer=0.393000:0.769000:0.189000:0:0.349000:0.686000:0.168000:0:0.272000:0.534000:0.131000";
    assert_eq!(video("sepia", &[("amount", 1.0)]).unwrap(), expected);
    assert_eq!(video("sepia", &[]).unwrap(), expected);
}

#[test]
fn sepia_half_way() {
    assert_eq!(
        sepia_coefficients(500_000),
        vec![696_500, 384_500, 94_500, 174_500, 843_000, 84_000, 136_000, 267_000, 565_500]
    );
    assert_eq!(
        video("sepia", &[("amount", 0.5)]).unwrap(),
        "colorchannelmixer=0.696500:0.384500:0.094500:0:0.174500:0.843000:0.084000:0:0.136000:0.267000:0.565500"
    );
}

#[test]
fn blend_goes_past_the_ends() {
    assert_eq!(blend_of(1_000_000, 393_000, 2_000_000), -214_000);
    assert_eq!(blend_of(0, 769_000, -1_000_000), -769_000);
    assert_eq!(blend_of(0, 1, 500_000), 1);
    assert_eq!(blend_of(0, 1, 499_999), 0);
    assert_eq!(blend_of(1_000_000, 0, i64::MAX), 1_000_000 - i64::MAX as i128);
    assert_eq!(blend_of(0, 1_000_000, i64::MIN), i64::MIN as i128);
}

#[test]
fn fades_are_always_written() {
    assert_eq!(video("fade_in", &[]).unwrap(), "fade=t=in:d=1.000000");
    assert_eq!(video("fade_in", &[("duration", 0.0)]).unwrap(), "fade=t=in:d=0.000000");
    assert_eq!(video("fade_out", &[]).unwrap(), "fade=t=out:st=0.000000:d=1.000000");
    assert_eq!(
        video("fade_out", &[("start", 4.0), ("duration", 2.0)]).unwrap(),
        "fade=t=out:st=4.000000:d=2.000000"
    );
}

#[test]
fn playback_speed_stretches_time_by_the_reciprocal() {
    assert_eq!(video("playback_speed", &[("rate", 2.0)]).unwrap(), "setpts=0.500000*PTS");
    assert_eq!(video("playback_speed", &[("rate", 3.0)]).unwrap(), "setpts=0.333333*PTS");
    assert_eq!(video("playback_speed", &[("rate", 0.75)]).unwrap(), "setpts=1.333333*PTS");
    assert_eq!(video("playback_speed", &[("rate", 0.25)]).unwrap(), "setpts=4.000000*PTS");
    assert_eq!(video("playback_speed", &[("rate", -2.0)]).unwrap(), "setpts=-0.500000*PTS");
    assert_eq!(video("playback_speed", &[("rate", 0.0)]).unwrap(), "setpts=inf*PTS");
    assert_eq!(reciprocal_of(1), 1_000_000_000_000);
    assert_eq!(reciprocal_of(i64::MAX), 0);
    assert_eq!(reciprocal_of(i64::MIN), 0);
    assert_eq!(reciprocal_of(-3_000_000), -333_333);
}

#[test]
fn near_is_strict() {
    assert!(is_near(999, 0, 1000));
    assert!(!is_near(1000, 0, 1000));
    assert!(!is_near(-1000, 0, 1000));
    assert!(is_near(-999, 0, 1000));
    assert!(!is_near(i64::MIN, i64::MAX, 1000));
    assert!(!is_near(i64::MAX, i64::MIN, i64::MAX));
}

#[test]
fn audio_of_a_quarter_rate() {
    assert_eq!(audio(0.25), vec!["atempo=0.5", "atempo=0.500000"]);
}

#[test]
fn audio_of_slow_rates() {
    assert_eq!(audio(0.1), vec!["atempo=0.5", "atempo=0.5", "atempo=0.5", "atempo=0.800000"]);
    assert_eq!(audio(0.499999), vec!["atempo=0.5", "atempo=0.999998"]);
    assert_eq!(audio(0.3), vec!["atempo=0.5", "atempo=0.600000"]);
}

#[test]
fn audio_of_the_least_rate_ends() {
    let stages = audio(0.000001);
    assert_eq!(stages.len(), 20);
    assert!(stages[..19].iter().all(|s| s == "atempo=0.5"));
    assert_eq!(stages[19], "atempo=0.524288");
}

#[test]
fn audio_of_rates_in_range_is_one_stage() {
    assert_eq!(audio(0.5), vec!["atempo=0.500000"]);
    assert_eq!(audio(2.0), vec!["atempo=2.000000"]);
    assert_eq!(audio(100.0), vec!["atempo=100.000000"]);
    assert_eq!(audio(0.999), vec!["atempo=0.999000"]);
}

#[test]
fn audio_of_a_rate_above_the_range_is_one_stage() {
    assert_eq!(audio(150.0), vec!["atempo=150.000000"]);
}

#[test]
fn audio_of_a_neutral_rate_is_nothing() {
    assert!(audio(1.0).is_empty());
    assert!(audio(1.000999).is_empty());
    assert!(effect("playback_speed", &[]).audio_filters().is_empty());
}

#[test]
fn only_playback_speed_reaches_the_audio() {
    for kind in ["scale", "fade_in", "fade_out", "sepia", "crop", "gaussian_blur"] {
        assert!(effect(kind, &[("rate", 0.25), ("amount", 1.0)]).audio_filters().is_empty());
    }
}

#[test]
fn audio_of_a_rate_that_cannot_be_taken_apart_is_one_stage() {
    assert_eq!(audio(0.0), vec!["atempo=0.000000"]);
    assert_eq!(audio(-1.0), vec!["atempo=-1.000000"]);
    assert_eq!(audio(-0.25), vec!["atempo=-0.250000"]);
}

#[test]
fn stack_keeps_its_order() {
    let mut off = effect("rotation", &[("degrees", 90.0)]);
    off.enabled = false;
    let stack = vec![
        effect("fade_in", &[("duration", 0.5)]),
        effect("scale", &[("scale", 1.0)]),
        off,
        effect("unknown", &[]),
        effect("playback_speed", &[("rate", 0.25)]),
        effect("brightness", &[("brightness", 0.2)]),
        effect("playback_speed", &[("rate", 2.0)]),
    ];
    assert_eq!(
        build_effect_filters(&stack),
        vec![
            "fade=t=in:d=0.500000",
            "setpts=4.000000*PTS",
            "eq=brightness=0.200000",
            "setpts=0.500000*PTS"
        ]
    );
    assert_eq!(
        build_audio_filters(&stack),
        vec!["atempo=0.5", "atempo=0.500000", "atempo=2.000000"]
    );
}

#[test]
fn empty_stack_compiles_to_nothing() {
    assert!(build_effect_filters(&[]).is_empty());
    assert!(build_audio_filters(&[]).is_empty());
}

#[test]
fn expressions_with_three_decimals_read_as_in_floating_point() {
    let mut k: i64 = -5000;
    while k <= 5000 {
        let v = k as f64 / 1000.0;
        if (v - 1.0).abs() >= 0.0015 {
            assert_eq!(
                video("scale", &[("scale", v)]).unwrap(),
                format!("scale=iw*{:.6}:ih*{:.6}", v, v)
            );
            assert_eq!(
                video("opacity", &[("opacity", v)]).unwrap(),
                format!("format=rgba,colorchannelmixer=aa={:.6}", v)
            );
        }
        if v.abs() >= 0.0015 {
            assert_eq!(
                video("brightness", &[("brightness", v)]).unwrap(),
                format!("eq=brightness={:.6}", v)
            );
            assert_eq!(video("hue_rotate", &[("degrees", v)]).unwrap(), format!("hue=h={:.6}", v));
        }
        assert_eq!(
            video("fade_out", &[("start", v), ("duration", v + 0.5)]).unwrap(),
            format!("fade=t=out:st={:.6}:d={:.6}", v, v + 0.5)
        );
        k += 7;
    }
}

#[test]
fn sepia_with_three_decimals_reads_as_in_floating_point() {
    let mut k: i64 = 2;
    while k <= 2000 {
        let amount = k as f64 / 1000.0;
        let mix = |identity: f64, sepia: f64| identity + (sepia - identity) * amount;
        let expected = format!(
            "colorchannelmixer={:.6}:{:.6}:{:.6}:0:{:.6}:{:.6}:{:.6}:0:{:.6}:{:.6}:{:.6}",
            mix(1.0, 0.393),
            mix(0.0, 0.769),
            mix(0.0, 0.189),
            mix(0.0, 0.349),
            mix(1.0, 0.686),
            mix(0.0, 0.168),
            mix(0.0, 0.272),
            mix(0.0, 0.534),
            mix(1.0, 0.131)
        );
        assert_eq!(video("sepia", &[("amount", amount)]).unwrap(), expected, "{}", amount);
        k += 13;
    }
}

#[test]
fn reciprocals_read_as_in_floating_point() {
    for rate in [0.25f64, 0.3, 0.5, 0.75, 1.5, 2.0, 3.0, 4.0, 7.0, 10.0, 0.1, 0.7, 1.1, -3.0] {
        assert_eq!(
            video("playback_speed", &[("rate", rate)]).unwrap(),
            format!("setpts={:.6}*PTS", 1.0 / rate)
        );
    }
}
