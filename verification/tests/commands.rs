use audio_ingest::commands::{
    art_invocation, art_target, probe_invocation, wav_invocation, wav_target,
};

#[test]
fn the_prober_is_asked_for_json() {
    let invocation = probe_invocation("/music/a b.mp3");
    assert_eq!(invocation.program, "ffprobe");
    assert_eq!(
        invocation.arguments,
        vec![
            "-v",
            "quiet",
            "-print_format",
            "json",
            "-show_format",
            "-show_streams",
            "-i",
            "/music/a b.mp3"
        ]
    );
}

#[test]
fn the_encoder_copies_the_picture() {
    let invocation = art_invocation("in.flac", "/tmp/x/cover.jpg");
    assert_eq!(invocation.program, "ffmpeg");
    assert_eq!(
        invocation.arguments,
        vec![
            "-hide_banner",
            "-loglevel",
            "error",
            "-i",
            "in.flac",
            "-an",
            "-vcodec",
            "copy",
            "/tmp/x/cover.jpg"
        ]
    );
}

#[test]
fn the_encoder_writes_two_channels() {
    let invocation = wav_invocation("in.flac", "/tmp/y/playback.wav");
    assert_eq!(invocation.program, "ffmpeg");
    assert_eq!(
        invocation.arguments,
        vec![
            "-hide_banner",
            "-loglevel",
            "error",
            "-i",
            "in.flac",
            "-ac",
            "2",
            "-y",
            "/tmp/y/playback.wav"
        ]
    );
}

#[test]
fn no_subprocess_opens_a_console_window() {
    assert!(probe_invocation("a").no_console_window);
    assert!(art_invocation("a", "b").no_console_window);
    assert!(wav_invocation("a", "b").no_console_window);
}

#[test]
fn the_targets_have_their_names() {
    assert_eq!(art_target(), "cover.jpg");
    assert_eq!(wav_target(), "playback.wav");
}
