use audio_ingest::outcome::{ArtOutcome, ErrorKind, PipelineError, ProbeOutcome, WavOutcome};
use audio_ingest::pipeline::{Action, Diagnostic, Event, Pipeline, ProcessedFile, Stage, Step};
use audio_ingest::tags::{Format, RawProbeDocument, Stream, Tag, Tags};
use audio_ingest::transport::{decode_transport_path, path_from};
use base64::Engine;

fn entries(pairs: &[(&str, &str)]) -> Tags {
    let mut list = Vec::new();
    for (k, v) in pairs {
        list.push(Tag { key: k.to_string(), value: v.to_string() });
    }
    Tags { entries: list }
}

fn document(stream_tags: &[(&str, &str)], format_tags: &[(&str, &str)]) -> RawProbeDocument {
    RawProbeDocument {
        streams: vec![Stream { codec_type: "audio".to_string(), tags: entries(stream_tags) }],
        format: Format { tags: entries(format_tags) },
    }
}

fn stem(file_name: &str) -> Option<String> {
    std::path::Path::new(file_name).file_stem().map(|s| s.to_string_lossy().to_string())
}

fn wav_bytes() -> Vec<u8> {
    let mut bytes = b"RIFF\x24\x00\x00\x00WAVEfmt ".to_vec();
    bytes.extend_from_slice(&[0, 1, 2, 3, 254, 255]);
    bytes
}

fn decoded(text: &str) -> Vec<u8> {
    base64::engine::general_purpose::STANDARD.decode(text).unwrap()
}

fn feed(pipeline: &mut Pipeline, event: Event) -> Step {
    assert!(pipeline.accepts(&event));
    pipeline.advance(event)
}

/// Drives a run to its end with the given outcomes.
fn run(
    base: Option<String>,
    probe: ProbeOutcome,
    parsed: Option<RawProbeDocument>,
    art: ArtOutcome,
    wav: WavOutcome,
) -> Result<ProcessedFile, PipelineError> {
    let (mut pipeline, first) = Pipeline::start(base);
    assert!(matches!(first.action, Action::RunProbe));
    let mut step = feed(&mut pipeline, Event::ProbeFinished(probe));
    if matches!(step.action, Action::ParseTags { .. }) {
        step = feed(&mut pipeline, Event::TagsParsed(parsed));
    }
    assert!(matches!(step.action, Action::ExtractArt));
    step = feed(&mut pipeline, Event::ArtFinished(art));
    if let Action::Abort(error) = step.action {
        return Err(error);
    }
    assert!(matches!(step.action, Action::TranscodeWav));
    step = feed(&mut pipeline, Event::WavFinished(wav));
    assert_eq!(pipeline.stage, Stage::Finished);
    match step.action {
        Action::Complete(file) => Ok(file),
        Action::Abort(error) => Err(error),
        _ => panic!("a run ends with a result or an error"),
    }
}

#[test]
fn an_untagged_file_is_described_by_its_name() {
    let probe = ProbeOutcome::Succeeded { stdout: b"{\"streams\": [], \"format\": {}}".to_vec() };
    let parsed = Some(RawProbeDocument { streams: vec![], format: Format { tags: Tags::new() } });
    let file = run(
        stem("Alice - Track1.mp3"),
        probe,
        parsed,
        ArtOutcome::ExitedNonzero,
        WavOutcome::Transcoded { bytes: wav_bytes() },
    )
    .unwrap();
    assert_eq!(file.metadata.title, Some("Track1".to_string()));
    assert_eq!(file.metadata.artist, Some("Alice".to_string()));
    assert_eq!(file.metadata.mime_type, Some("image/jpeg".to_string()));
    assert!(!file.playback_data_base64.is_empty());
    assert_eq!(decoded(&file.playback_data_base64), wav_bytes());
    assert_eq!(file.album_art_base64, None);
    assert_eq!(file.lyrics, None);
}

#[test]
fn a_failed_probe_does_not_stop_the_run() {
    for probe in [ProbeOutcome::Failed, ProbeOutcome::Unavailable] {
        let file = run(
            stem("Alice - Track1.mp3"),
            probe,
            None,
            ArtOutcome::LaunchFailed,
            WavOutcome::Transcoded { bytes: wav_bytes() },
        )
        .unwrap();
        assert_eq!(file.metadata.title, Some("Track1".to_string()));
        assert_eq!(file.metadata.artist, Some("Alice".to_string()));
        assert_eq!(decoded(&file.playback_data_base64), wav_bytes());
    }
}

#[test]
fn a_failed_transcode_ends_the_run_without_a_result() {
    let result = run(
        stem("Alice - Track1.mp3"),
        ProbeOutcome::Failed,
        None,
        ArtOutcome::Extracted { bytes: vec![1, 2, 3] },
        WavOutcome::ExitedNonzero,
    );
    let error = result.unwrap_err();
    assert_eq!(error.kind, ErrorKind::WavFailed);
    assert_eq!(error.message(), "transcode failed");
}

#[test]
fn two_runs_on_the_same_outcomes_agree() {
    let once = || {
        run(
            stem("Alice - Track1.mp3"),
            ProbeOutcome::Succeeded { stdout: b"{}".to_vec() },
            Some(document(&[("lyrics-b", "b"), ("Lyrics-a", "a")], &[("title", "T")])),
            ArtOutcome::Extracted { bytes: vec![0xFF, 0xD8, 0xFF] },
            WavOutcome::Transcoded { bytes: wav_bytes() },
        )
        .unwrap()
    };
    let first = once();
    let second = once();
    assert_eq!(first.metadata.title, second.metadata.title);
    assert_eq!(first.metadata.artist, second.metadata.artist);
    assert_eq!(first.metadata.mime_type, second.metadata.mime_type);
    assert_eq!(first.lyrics, second.lyrics);
    assert_eq!(first.album_art_base64, second.album_art_base64);
    assert_eq!(decoded(&first.playback_data_base64), decoded(&second.playback_data_base64));
    assert_eq!(first.playback_data_base64, second.playback_data_base64);
}

#[test]
fn tags_win_over_the_name() {
    let file = run(
        stem("Alice - Track1.mp3"),
        ProbeOutcome::Succeeded { stdout: b"{}".to_vec() },
        Some(document(&[("title", "Real Title"), ("LYRICS", "la")], &[("artist", "Real Artist")])),
        ArtOutcome::Extracted { bytes: vec![1, 2, 3] },
        WavOutcome::Transcoded { bytes: vec![b'M', b'a', b'n'] },
    )
    .unwrap();
    assert_eq!(file.metadata.title, Some("Real Title".to_string()));
    assert_eq!(file.metadata.artist, Some("Real Artist".to_string()));
    assert_eq!(file.lyrics, Some("la".to_string()));
    assert_eq!(file.album_art_base64, Some("AQID".to_string()));
    assert_eq!(file.playback_data_base64, "TWFu");
}

#[test]
fn base64_pads_the_last_group() {
    for (bytes, text) in [(vec![], ""), (vec![b'M'], "TQ=="), (vec![b'M', b'a'], "TWE="), (vec![0xFB, 0xFF, 0xBF], "+/+/")] {
        let file = run(
            None,
            ProbeOutcome::Failed,
            None,
            ArtOutcome::Extracted { bytes: bytes.clone() },
            WavOutcome::Transcoded { bytes },
        )
        .unwrap();
        assert_eq!(file.playback_data_base64, text);
        assert_eq!(file.album_art_base64, Some(text.to_string()));
    }
}

#[test]
fn cover_art_that_cannot_be_had_is_left_out() {
    for art in [ArtOutcome::LaunchFailed, ArtOutcome::ExitedNonzero, ArtOutcome::Unreadable] {
        let file = run(
            stem("x.flac"),
            ProbeOutcome::Failed,
            None,
            art,
            WavOutcome::Transcoded { bytes: wav_bytes() },
        )
        .unwrap();
        assert_eq!(file.album_art_base64, None);
        assert_eq!(file.metadata.title, Some("x".to_string()));
        assert_eq!(file.metadata.artist, None);
    }
}

#[test]
fn without_a_base_name_the_gaps_stay() {
    let file = run(
        None,
        ProbeOutcome::Unavailable,
        None,
        ArtOutcome::Unreadable,
        WavOutcome::Transcoded { bytes: wav_bytes() },
    )
    .unwrap();
    assert_eq!(file.metadata.title, None);
    assert_eq!(file.metadata.artist, None);
    assert_eq!(file.metadata.mime_type, Some("image/jpeg".to_string()));
}

#[test]
fn missing_storage_for_the_art_is_fatal() {
    let (mut pipeline, _) = Pipeline::start(stem("a.mp3"));
    feed(&mut pipeline, Event::ProbeFinished(ProbeOutcome::Failed));
    let step = feed(
        &mut pipeline,
        Event::ArtFinished(ArtOutcome::StorageFailed { detail: "disk full".to_string() }),
    );
    assert_eq!(pipeline.stage, Stage::Finished);
    match step.action {
        Action::Abort(error) => {
            assert_eq!(error.kind, ErrorKind::ArtStorage);
            assert_eq!(error.message(), "Failed to create temp dir for art: disk full");
        }
        _ => panic!("the run must end"),
    }
}

#[test]
fn every_failure_of_the_playback_audio_is_fatal() {
    let cases = [
        (
            WavOutcome::StorageFailed { detail: "disk full".to_string() },
            ErrorKind::WavStorage,
            "Failed to create temp dir for wav: disk full",
        ),
        (
            WavOutcome::LaunchFailed { detail: "not found".to_string() },
            ErrorKind::WavLaunch,
            "ffmpeg command for wav failed to run: not found",
        ),
        (WavOutcome::ExitedNonzero, ErrorKind::WavFailed, "transcode failed"),
        (
            WavOutcome::Unreadable { detail: "gone".to_string() },
            ErrorKind::WavUnreadable,
            "Failed to read temporary wav file: gone",
        ),
    ];
    for (wav, kind, line) in cases {
        let error = run(
            stem("a.mp3"),
            ProbeOutcome::Failed,
            None,
            ArtOutcome::Extracted { bytes: vec![1] },
            wav,
        )
        .unwrap_err();
        assert_eq!(error.kind, kind);
        assert_eq!(error.message(), line);
    }
}

#[test]
fn a_failed_transcode_reads_the_same_whatever_the_detail() {
    let error = PipelineError::new(ErrorKind::WavFailed, "stderr noise".to_string());
    assert_eq!(error.message(), "transcode failed");
    let setup = PipelineError::new(ErrorKind::ToolSetup, "offline".to_string());
    assert_eq!(setup.message(), "Failed to download ffmpeg: offline");
}

#[test]
fn recovered_conditions_are_reported() {
    let (mut p, first) = Pipeline::start(None);
    assert_eq!(first.diagnostic, None);
    assert_eq!(p.stage, Stage::Probing);
    let step = feed(&mut p, Event::ProbeFinished(ProbeOutcome::Unavailable));
    assert_eq!(step.diagnostic, Some(Diagnostic::ProbeUnavailable));
    assert_eq!(p.stage, Stage::ExtractingArt);

    let (mut p, _) = Pipeline::start(None);
    let step = feed(&mut p, Event::ProbeFinished(ProbeOutcome::Failed));
    assert_eq!(step.diagnostic, Some(Diagnostic::ProbeFailed));

    let (mut p, _) = Pipeline::start(None);
    let step = feed(&mut p, Event::ProbeFinished(ProbeOutcome::Succeeded { stdout: b"{".to_vec() }));
    assert_eq!(step.diagnostic, None);
    assert_eq!(p.stage, Stage::Parsing);
    match step.action {
        Action::ParseTags { text } => assert_eq!(text, "{"),
        _ => panic!("the text must be parsed next"),
    }
    let step = feed(&mut p, Event::TagsParsed(None));
    assert_eq!(step.diagnostic, Some(Diagnostic::UnparsableProbeOutput));
    assert!(matches!(step.action, Action::ExtractArt));

    let (mut p, _) = Pipeline::start(None);
    let step = feed(
        &mut p,
        Event::ProbeFinished(ProbeOutcome::Succeeded { stdout: vec![0xFF, 0x41, 0x42] }),
    );
    assert_eq!(step.diagnostic, Some(Diagnostic::LossyProbeText));
    match step.action {
        Action::ParseTags { text } => assert_eq!(text, "\u{FFFD}AB"),
        _ => panic!("the text must be parsed next"),
    }
}

#[test]
fn events_are_accepted_in_order_only() {
    let (mut p, _) = Pipeline::start(None);
    assert!(p.accepts(&Event::ProbeFinished(ProbeOutcome::Failed)));
    assert!(!p.accepts(&Event::TagsParsed(None)));
    assert!(!p.accepts(&Event::ArtFinished(ArtOutcome::Unreadable)));
    assert!(!p.accepts(&Event::WavFinished(WavOutcome::ExitedNonzero)));
    p.advance(Event::ProbeFinished(ProbeOutcome::Succeeded { stdout: vec![] }));
    assert!(p.accepts(&Event::TagsParsed(None)));
    assert!(!p.accepts(&Event::ProbeFinished(ProbeOutcome::Failed)));
    p.advance(Event::TagsParsed(None));
    assert!(p.accepts(&Event::ArtFinished(ArtOutcome::Unreadable)));
    assert!(!p.accepts(&Event::WavFinished(WavOutcome::ExitedNonzero)));
    p.advance(Event::ArtFinished(ArtOutcome::Unreadable));
    assert!(p.accepts(&Event::WavFinished(WavOutcome::ExitedNonzero)));
    assert!(!p.accepts(&Event::ArtFinished(ArtOutcome::Unreadable)));
    p.advance(Event::WavFinished(WavOutcome::ExitedNonzero));
    assert!(!p.accepts(&Event::ProbeFinished(ProbeOutcome::Failed)));
    assert!(!p.accepts(&Event::WavFinished(WavOutcome::ExitedNonzero)));
}

#[test]
fn outcomes_are_judged_alone() {
    assert_eq!(ArtOutcome::Extracted { bytes: vec![7] }.judge().unwrap(), Some(vec![7]));
    assert_eq!(ArtOutcome::ExitedNonzero.judge().unwrap(), None);
    assert_eq!(
        ArtOutcome::StorageFailed { detail: "d".to_string() }.judge().unwrap_err().kind,
        ErrorKind::ArtStorage
    );
    assert_eq!(WavOutcome::Transcoded { bytes: vec![7] }.judge().unwrap(), vec![7]);
    assert_eq!(WavOutcome::ExitedNonzero.judge().unwrap_err().kind, ErrorKind::WavFailed);
}

#[test]
fn percent_encoded_paths_are_decoded() {
    assert_eq!(decode_transport_path("C%3A%5CMusic%5Ca%20b.mp3").unwrap(), "C:\\Music\\a b.mp3");
    assert_eq!(decode_transport_path("/music/%E4%BD%A0%E5%A5%BD.flac").unwrap(), "/music/你好.flac");
    assert_eq!(decode_transport_path("plain.mp3").unwrap(), "plain.mp3");
    assert_eq!(decode_transport_path("a+b 100%.mp3").unwrap(), "a+b 100%.mp3");
    assert_eq!(decode_transport_path("50%zz").unwrap(), "50%zz");
    assert_eq!(decode_transport_path("").unwrap(), "");
}

#[test]
fn a_path_that_is_not_utf8_is_an_error() {
    let error = decode_transport_path("bad%FFname.mp3").unwrap_err();
    assert_eq!(error.kind, ErrorKind::PathDecode);
    let line = error.message();
    assert!(line.starts_with("Failed to decode path: "));
    assert!(line.len() > "Failed to decode path: ".len());
    let made = path_from(Err("why".to_string())).unwrap_err();
    assert_eq!(made.message(), "Failed to decode path: why");
    assert_eq!(path_from(Ok("p".to_string())).unwrap(), "p");
}

#[test]
fn diagnostics_have_their_words() {
    assert_eq!(Diagnostic::ProbeUnavailable.message(), "Failed to execute ffprobe");
    assert_eq!(Diagnostic::ProbeFailed.message(), "ffprobe exited with non-zero status");
    assert_eq!(
        Diagnostic::LossyProbeText.message(),
        "[WARN] Failed to decode metadata as UTF-8, UTF-16LE, or GBK. Some characters may be incorrect."
    );
    assert_eq!(Diagnostic::UnparsableProbeOutput.message(), "Failed to parse ffprobe JSON output.");
}
