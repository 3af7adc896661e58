use timeline_export::codec::{get_audio_codec_args, get_codec_args};

fn video(codec: &str, quality: &str) -> Vec<String> {
    get_codec_args(codec, quality)
}

#[test]
fn h264_by_tier() {
    for (tier, factor) in [("low", "28"), ("medium", "23"), ("high", "18"), ("lossless", "0"),
        ("best", "23"), ("", "23")]
    {
        assert_eq!(
            video("h264", tier),
            vec!["-c:v", "libx264", "-crf", factor, "-preset", "medium", "-pix_fmt", "yuv420p"]
        );
    }
}

#[test]
fn h265_by_tier_under_both_names() {
    for name in ["h265", "hevc"] {
        for (tier, factor) in [("low", "32"), ("medium", "28"), ("high", "22"), ("lossless", "0"),
            ("other", "28")]
        {
            assert_eq!(
                video(name, tier),
                vec!["-c:v", "libx265", "-crf", factor, "-preset", "medium", "-pix_fmt", "yuv420p"]
            );
        }
    }
}

#[test]
fn vp9_by_tier() {
    for (tier, factor) in [("low", "40"), ("medium", "33"), ("high", "25"), ("lossless", "0"),
        ("other", "33")]
    {
        assert_eq!(
            video("vp9", tier),
            vec!["-c:v", "libvpx-vp9", "-crf", factor, "-b:v", "0", "-pix_fmt", "yuv420p"]
        );
    }
}

#[test]
fn prores_by_tier() {
    for (tier, profile) in [("low", "0"), ("medium", "2"), ("high", "3"), ("lossless", "4"),
        ("other", "3")]
    {
        assert_eq!(
            video("prores", tier),
            vec!["-c:v", "prores_ks", "-profile:v", profile, "-pix_fmt", "yuva444p10le"]
        );
    }
}

#[test]
fn unknown_codec_gets_h264_at_medium() {
    for tier in ["low", "medium", "high", "lossless", "x"] {
        assert_eq!(
            video("av1", tier),
            vec!["-c:v", "libx264", "-crf", "23", "-preset", "medium", "-pix_fmt", "yuv420p"]
        );
    }
    assert_eq!(video("H264", "low"), video("", "medium"));
}

#[test]
fn audio_codecs() {
    assert_eq!(get_audio_codec_args("aac", "192k"), vec!["-c:a", "aac", "-b:a", "192k"]);
    assert_eq!(get_audio_codec_args("opus", "96k"), vec!["-c:a", "libopus", "-b:a", "96k"]);
    assert_eq!(get_audio_codec_args("pcm", "192k"), vec!["-c:a", "pcm_s16le"]);
    assert_eq!(get_audio_codec_args("mp3", "128k"), vec!["-c:a", "aac", "-b:a", "128k"]);
    assert_eq!(get_audio_codec_args("", ""), vec!["-c:a", "aac", "-b:a", ""]);
}
