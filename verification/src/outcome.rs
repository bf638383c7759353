//! What the tools report back, and the errors that end a run.
//!
//! Cover art is best effort: whatever goes wrong with it short of missing
//! working storage leaves the art absent. Playback audio is mandatory: any
//! failure on its way ends the run with an error.

use vstd::prelude::*;
use vstd::string::*;

verus! {

/// The fatal conditions.
#[derive(Clone, Copy, PartialEq, Eq, Debug, Structural)]
pub enum ErrorKind {
    /// The path handed over by the front end is not valid percent-encoding of UTF-8.
    PathDecode,
    /// The tools could not be made available.
    ToolSetup,
    /// No working storage for the cover art.
    ArtStorage,
    /// No working storage for the playback audio.
    WavStorage,
    /// The encoder for the playback audio could not be started.
    WavLaunch,
    /// The encoder for the playback audio reported failure.
    WavFailed,
    /// The playback audio could not be read back.
    WavUnreadable,
}

/// A fatal condition, with what the system said about it.
#[derive(Clone, Debug)]
pub struct PipelineError {
    pub kind: ErrorKind,
    /// The system's own words; unused for [`ErrorKind::WavFailed`].
    pub detail: String,
}

/// The mathematical content of a [`PipelineError`].
pub struct ErrorView {
    pub kind: ErrorKind,
    pub detail: Seq<char>,
}

impl View for PipelineError {
    type V = ErrorView;

    open spec fn view(&self) -> ErrorView {
        ErrorView { kind: self.kind, detail: self.detail@ }
    }
}

/// The words that introduce the detail of an error.
pub open spec fn prefix_of(kind: ErrorKind) -> Seq<char> {
    match kind {
        ErrorKind::PathDecode => "Failed to decode path: "@,
        ErrorKind::ToolSetup => "Failed to download ffmpeg: "@,
        ErrorKind::ArtStorage => "Failed to create temp dir for art: "@,
        ErrorKind::WavStorage => "Failed to create temp dir for wav: "@,
        ErrorKind::WavLaunch => "ffmpeg command for wav failed to run: "@,
        ErrorKind::WavFailed => "transcode failed"@,
        ErrorKind::WavUnreadable => "Failed to read temporary wav file: "@,
    }
}

/// The one line shown to the user. A failed transcode reads the same
/// whatever the encoder printed.
pub open spec fn message_text(error: ErrorView) -> Seq<char> {
    if error.kind == ErrorKind::WavFailed {
        prefix_of(error.kind)
    } else {
        prefix_of(error.kind) + error.detail
    }
}

impl PipelineError {
    /// An error of the given kind.
    pub fn new(kind: ErrorKind, detail: String) -> (error: PipelineError)
        ensures
            error@ == (ErrorView { kind, detail: detail@ }),
    {
        PipelineError { kind, detail }
    }

    /// The one line shown to the user.
    pub fn message(&self) -> (line: String)
        ensures
            line@ == message_text(self@),
    {
        let mut line = match self.kind {
            ErrorKind::PathDecode => "Failed to decode path: ".to_owned(),
            ErrorKind::ToolSetup => "Failed to download ffmpeg: ".to_owned(),
            ErrorKind::ArtStorage => "Failed to create temp dir for art: ".to_owned(),
            ErrorKind::WavStorage => "Failed to create temp dir for wav: ".to_owned(),
            ErrorKind::WavLaunch => "ffmpeg command for wav failed to run: ".to_owned(),
            ErrorKind::WavFailed => "transcode failed".to_owned(),
            ErrorKind::WavUnreadable => "Failed to read temporary wav file: ".to_owned(),
        };
        match self.kind {
            ErrorKind::WavFailed => {},
            _ => {
                line.append(self.detail.as_str());
            },
        }
        line
    }
}

/// How the probing of a file ended.
#[derive(Clone, Debug)]
pub enum ProbeOutcome {
    /// The prober could not be started.
    Unavailable,
    /// The prober ran and reported failure.
    Failed,
    /// The prober ran and wrote this to its output.
    Succeeded { stdout: Vec<u8> },
}

/// The mathematical content of a [`ProbeOutcome`].
pub enum ProbeOutcomeView {
    Unavailable,
    Failed,
    Succeeded { stdout: Seq<u8> },
}

impl View for ProbeOutcome {
    type V = ProbeOutcomeView;

    open spec fn view(&self) -> ProbeOutcomeView {
        match self {
            ProbeOutcome::Unavailable => ProbeOutcomeView::Unavailable,
            ProbeOutcome::Failed => ProbeOutcomeView::Failed,
            ProbeOutcome::Succeeded { stdout } => ProbeOutcomeView::Succeeded { stdout: stdout@ },
        }
    }
}

/// How the extraction of the cover art ended.
#[derive(Clone, Debug)]
pub enum ArtOutcome {
    /// No working storage could be had.
    StorageFailed { detail: String },
    /// The encoder could not be started.
    LaunchFailed,
    /// The encoder ran and reported failure, as it does for a file without a picture.
    ExitedNonzero,
    /// The encoder reported success, but its output could not be read.
    Unreadable,
    /// The picture, as the encoder wrote it.
    Extracted { bytes: Vec<u8> },
}

/// The mathematical content of an [`ArtOutcome`].
pub enum ArtOutcomeView {
    StorageFailed { detail: Seq<char> },
    LaunchFailed,
    ExitedNonzero,
    Unreadable,
    Extracted { bytes: Seq<u8> },
}

impl View for ArtOutcome {
    type V = ArtOutcomeView;

    open spec fn view(&self) -> ArtOutcomeView {
        match self {
            ArtOutcome::StorageFailed { detail } => ArtOutcomeView::StorageFailed {
                detail: detail@,
            },
            ArtOutcome::LaunchFailed => ArtOutcomeView::LaunchFailed,
            ArtOutcome::ExitedNonzero => ArtOutcomeView::ExitedNonzero,
            ArtOutcome::Unreadable => ArtOutcomeView::Unreadable,
            ArtOutcome::Extracted { bytes } => ArtOutcomeView::Extracted { bytes: bytes@ },
        }
    }
}

/// How the transcoding of the playback audio ended.
#[derive(Clone, Debug)]
pub enum WavOutcome {
    /// No working storage could be had.
    StorageFailed { detail: String },
    /// The encoder could not be started.
    LaunchFailed { detail: String },
    /// The encoder ran and reported failure.
    ExitedNonzero,
    /// The encoder reported success, but its output could not be read.
    Unreadable { detail: String },
    /// The audio, as the encoder wrote it.
    Transcoded { bytes: Vec<u8> },
}

/// The mathematical content of a [`WavOutcome`].
pub enum WavOutcomeView {
    StorageFailed { detail: Seq<char> },
    LaunchFailed { detail: Seq<char> },
    ExitedNonzero,
    Unreadable { detail: Seq<char> },
    Transcoded { bytes: Seq<u8> },
}

impl View for WavOutcome {
    type V = WavOutcomeView;

    open spec fn view(&self) -> WavOutcomeView {
        match self {
            WavOutcome::StorageFailed { detail } => WavOutcomeView::StorageFailed {
                detail: detail@,
            },
            WavOutcome::LaunchFailed { detail } => WavOutcomeView::LaunchFailed { detail: detail@ },
            WavOutcome::ExitedNonzero => WavOutcomeView::ExitedNonzero,
            WavOutcome::Unreadable { detail } => WavOutcomeView::Unreadable { detail: detail@ },
            WavOutcome::Transcoded { bytes } => WavOutcomeView::Transcoded { bytes: bytes@ },
        }
    }
}

/// The picture that an art outcome gives: the bytes where one was
/// extracted, none where the extraction failed in a tolerated way, and an
/// error where working storage was missing.
pub open spec fn art_result(outcome: ArtOutcomeView) -> Result<Option<Seq<u8>>, ErrorView> {
    match outcome {
        ArtOutcomeView::StorageFailed { detail } => Err(
            ErrorView { kind: ErrorKind::ArtStorage, detail },
        ),
        ArtOutcomeView::LaunchFailed => Ok(None),
        ArtOutcomeView::ExitedNonzero => Ok(None),
        ArtOutcomeView::Unreadable => Ok(None),
        ArtOutcomeView::Extracted { bytes } => Ok(Some(bytes)),
    }
}

/// The audio that a transcoding outcome gives: the bytes where it
/// succeeded, and an error in every other case.
pub open spec fn wav_result(outcome: WavOutcomeView) -> Result<Seq<u8>, ErrorView> {
    match outcome {
        WavOutcomeView::StorageFailed { detail } => Err(
            ErrorView { kind: ErrorKind::WavStorage, detail },
        ),
        WavOutcomeView::LaunchFailed { detail } => Err(
            ErrorView { kind: ErrorKind::WavLaunch, detail },
        ),
        WavOutcomeView::ExitedNonzero => Err(
            ErrorView { kind: ErrorKind::WavFailed, detail: Seq::<char>::empty() },
        ),
        WavOutcomeView::Unreadable { detail } => Err(
            ErrorView { kind: ErrorKind::WavUnreadable, detail },
        ),
        WavOutcomeView::Transcoded { bytes } => Ok(bytes),
    }
}

/// The view of a judged art outcome.
pub open spec fn art_view(r: Result<Option<Vec<u8>>, PipelineError>) -> Result<
    Option<Seq<u8>>,
    ErrorView,
> {
    match r {
        Ok(Some(bytes)) => Ok(Some(bytes@)),
        Ok(None) => Ok(None),
        Err(e) => Err(e@),
    }
}

/// The view of a judged transcoding outcome.
pub open spec fn wav_view(r: Result<Vec<u8>, PipelineError>) -> Result<Seq<u8>, ErrorView> {
    match r {
        Ok(bytes) => Ok(bytes@),
        Err(e) => Err(e@),
    }
}

impl ArtOutcome {
    /// Judges the outcome: a picture, no picture, or a fatal error.
    pub fn judge(self) -> (r: Result<Option<Vec<u8>>, PipelineError>)
        ensures
            art_view(r) == art_result(self@),
    {
        match self {
            ArtOutcome::StorageFailed { detail } => Err(
                PipelineError::new(ErrorKind::ArtStorage, detail),
            ),
            ArtOutcome::LaunchFailed => Ok(None),
            ArtOutcome::ExitedNonzero => Ok(None),
            ArtOutcome::Unreadable => Ok(None),
            ArtOutcome::Extracted { bytes } => Ok(Some(bytes)),
        }
    }
}

impl WavOutcome {
    /// Judges the outcome: the audio, or a fatal error.
    pub fn judge(self) -> (r: Result<Vec<u8>, PipelineError>)
        ensures
            wav_view(r) == wav_result(self@),
    {
        match self {
            WavOutcome::StorageFailed { detail } => Err(
                PipelineError::new(ErrorKind::WavStorage, detail),
            ),
            WavOutcome::LaunchFailed { detail } => Err(
                PipelineError::new(ErrorKind::WavLaunch, detail),
            ),
            WavOutcome::ExitedNonzero => Err(
                PipelineError::new(ErrorKind::WavFailed, String::new()),
            ),
            WavOutcome::Unreadable { detail } => Err(
                PipelineError::new(ErrorKind::WavUnreadable, detail),
            ),
            WavOutcome::Transcoded { bytes } => Ok(bytes),
        }
    }
}

} // verus!
