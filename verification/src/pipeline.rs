//! The run as a state machine.
//!
//! A run probes the file, reconciles what the probe found with the file's
//! name, extracts the cover art and transcodes the playback audio. The
//! machine decides; a driver does the work. The driver performs the
//! [`Action`] of each [`Step`], reports any [`Diagnostic`], and hands the
//! outcome back as an [`Event`], until the action is [`Action::Complete`] or
//! [`Action::Abort`].

use crate::decode::{decodable, decode_probe_output, decoded_lossy, decoded_text};
use crate::filename::{lemma_with_filename_wf, segments, with_filename};
use crate::outcome::{
    art_result, wav_result, ArtOutcome, ArtOutcomeView, ErrorView, PipelineError, ProbeOutcome,
    ProbeOutcomeView, WavOutcome, WavOutcomeView,
};
use crate::reconcile::{
    artist_of, default_mime_type, lyrics_of, reconcile, title_of, usable, Metadata, MetadataView,
};
use crate::tags::{canonical_tags, RawProbeDocument, Tags};
use crate::text::{copy_text, joined, lemma_trim_end_len, lemma_trim_start_len, text_of, trim_start};
use crate::transport::{base64_encode, base64_text, encodable};
use vstd::prelude::*;

verus! {

/// The result of a run, owned by the caller.
#[derive(Clone, Debug)]
pub struct ProcessedFile {
    pub metadata: Metadata,
    /// The playback audio, in base64.
    pub playback_data_base64: String,
    /// The cover art, in base64, where the file has one.
    pub album_art_base64: Option<String>,
    pub lyrics: Option<String>,
}

/// The mathematical content of a [`ProcessedFile`].
pub struct ProcessedView {
    pub metadata: MetadataView,
    pub playback: Seq<char>,
    pub album_art: Option<Seq<char>>,
    pub lyrics: Option<Seq<char>>,
}

impl View for ProcessedFile {
    type V = ProcessedView;

    open spec fn view(&self) -> ProcessedView {
        ProcessedView {
            metadata: self.metadata@,
            playback: self.playback_data_base64@,
            album_art: text_of(self.album_art_base64),
            lyrics: text_of(self.lyrics),
        }
    }
}

/// What a run waits for.
#[derive(Clone, Copy, PartialEq, Eq, Debug, Structural)]
pub enum Stage {
    /// The outcome of probing.
    Probing,
    /// The parsed form of the probe's text.
    Parsing,
    /// The outcome of extracting the cover art.
    ExtractingArt,
    /// The outcome of transcoding the playback audio.
    Transcoding,
    /// Nothing: the run is over.
    Finished,
}

/// A condition that the run recovered from and that the user should hear of.
#[derive(Clone, Copy, PartialEq, Eq, Debug, Structural)]
pub enum Diagnostic {
    /// The prober could not be started; the run goes on without tags.
    ProbeUnavailable,
    /// The prober reported failure; the run goes on without tags.
    ProbeFailed,
    /// The probe's output fits none of the encodings; some characters may be wrong.
    LossyProbeText,
    /// The probe's text is not the expected document; the run goes on without tags.
    UnparsableProbeOutput,
}

/// The words in which a diagnostic is reported. Where the prober did not
/// run or failed, the driver may add what the system or the prober said.
pub open spec fn diagnostic_text(diagnostic: Diagnostic) -> Seq<char> {
    match diagnostic {
        Diagnostic::ProbeUnavailable => "Failed to execute ffprobe"@,
        Diagnostic::ProbeFailed => "ffprobe exited with non-zero status"@,
        Diagnostic::LossyProbeText =>
            "[WARN] Failed to decode metadata as UTF-8, UTF-16LE, or GBK. Some characters may be incorrect."@,
        Diagnostic::UnparsableProbeOutput => "Failed to parse ffprobe JSON output."@,
    }
}

impl Diagnostic {
    /// The words in which the diagnostic is reported.
    pub fn message(&self) -> (line: String)
        ensures
            line@ == diagnostic_text(*self),
    {
        match self {
            Diagnostic::ProbeUnavailable => "Failed to execute ffprobe".to_owned(),
            Diagnostic::ProbeFailed => "ffprobe exited with non-zero status".to_owned(),
            Diagnostic::LossyProbeText =>
                "[WARN] Failed to decode metadata as UTF-8, UTF-16LE, or GBK. Some characters may be incorrect.".to_owned(),
            Diagnostic::UnparsableProbeOutput => "Failed to parse ffprobe JSON output.".to_owned(),
        }
    }
}

/// What the driver reports back.
#[derive(Clone, Debug)]
pub enum Event {
    ProbeFinished(ProbeOutcome),
    /// The probe's text as a document, or nothing where it is not one.
    TagsParsed(Option<RawProbeDocument>),
    ArtFinished(ArtOutcome),
    WavFinished(WavOutcome),
}

/// The mathematical content of an [`Event`]. Of a parsed document only its
/// canonical tags count.
pub enum EventView {
    ProbeFinished(ProbeOutcomeView),
    TagsParsed(Option<Map<Seq<char>, Seq<char>>>),
    ArtFinished(ArtOutcomeView),
    WavFinished(WavOutcomeView),
}

impl View for Event {
    type V = EventView;

    open spec fn view(&self) -> EventView {
        match self {
            Event::ProbeFinished(outcome) => EventView::ProbeFinished(outcome@),
            Event::TagsParsed(doc) => EventView::TagsParsed(
                match doc {
                    Some(doc) => Some(canonical_tags(*doc)),
                    None => None,
                },
            ),
            Event::ArtFinished(outcome) => EventView::ArtFinished(outcome@),
            Event::WavFinished(outcome) => EventView::WavFinished(outcome@),
        }
    }
}

/// What the driver has to do next.
#[derive(Clone, Debug)]
pub enum Action {
    /// Probe the file and report [`Event::ProbeFinished`].
    RunProbe,
    /// Parse the text as a probe document and report [`Event::TagsParsed`].
    ParseTags { text: String },
    /// Extract the cover art and report [`Event::ArtFinished`].
    ExtractArt,
    /// Transcode the playback audio and report [`Event::WavFinished`].
    TranscodeWav,
    /// Hand the result to the caller.
    Complete(ProcessedFile),
    /// Hand the error to the caller.
    Abort(PipelineError),
}

/// The mathematical content of an [`Action`].
pub enum ActionView {
    RunProbe,
    ParseTags { text: Seq<char> },
    ExtractArt,
    TranscodeWav,
    Complete(ProcessedView),
    Abort(ErrorView),
}

impl View for Action {
    type V = ActionView;

    open spec fn view(&self) -> ActionView {
        match self {
            Action::RunProbe => ActionView::RunProbe,
            Action::ParseTags { text } => ActionView::ParseTags { text: text@ },
            Action::ExtractArt => ActionView::ExtractArt,
            Action::TranscodeWav => ActionView::TranscodeWav,
            Action::Complete(file) => ActionView::Complete(file@),
            Action::Abort(error) => ActionView::Abort(error@),
        }
    }
}

/// One decision of the machine.
#[derive(Clone, Debug)]
pub struct Step {
    pub action: Action,
    pub diagnostic: Option<Diagnostic>,
}

/// The mathematical content of a [`Step`].
pub struct StepView {
    pub action: ActionView,
    pub diagnostic: Option<Diagnostic>,
}

impl View for Step {
    type V = StepView;

    open spec fn view(&self) -> StepView {
        StepView { action: self.action@, diagnostic: self.diagnostic }
    }
}

/// The state of one run.
#[derive(Clone, Debug)]
pub struct Pipeline {
    pub stage: Stage,
    /// The file's name without directory and extension, where it has one.
    pub base_name: Option<String>,
    pub metadata: Metadata,
    pub lyrics: Option<String>,
    /// The cover art, in base64.
    pub album_art: Option<String>,
}

/// The mathematical content of a [`Pipeline`].
pub struct PipelineView {
    pub stage: Stage,
    pub base_name: Option<Seq<char>>,
    pub metadata: MetadataView,
    pub lyrics: Option<Seq<char>>,
    pub album_art: Option<Seq<char>>,
}

impl View for Pipeline {
    type V = PipelineView;

    open spec fn view(&self) -> PipelineView {
        PipelineView {
            stage: self.stage,
            base_name: text_of(self.base_name),
            metadata: self.metadata@,
            lyrics: text_of(self.lyrics),
            album_art: text_of(self.album_art),
        }
    }
}

/// The metadata that a tag mapping and a base name give together: what the
/// tags say, with the gaps filled from the name.
pub open spec fn resolve(tags: Map<Seq<char>, Seq<char>>, base: Option<Seq<char>>) -> MetadataView {
    let found = MetadataView {
        title: title_of(tags),
        artist: artist_of(tags),
        mime_type: Some(default_mime_type()),
    };
    match base {
        Some(base) => with_filename(found, base),
        None => found,
    }
}

/// The state in which a run starts.
pub open spec fn initial(base: Option<Seq<char>>) -> PipelineView {
    PipelineView {
        stage: Stage::Probing,
        base_name: base,
        metadata: MetadataView { title: None, artist: None, mime_type: Some(default_mime_type()) },
        lyrics: None,
        album_art: None,
    }
}

/// The state once the tags are known.
pub open spec fn after_tags(state: PipelineView, tags: Map<Seq<char>, Seq<char>>) -> PipelineView {
    PipelineView {
        stage: Stage::ExtractingArt,
        base_name: state.base_name,
        metadata: resolve(tags, state.base_name),
        lyrics: lyrics_of(tags),
        album_art: state.album_art,
    }
}

/// The state with another stage.
pub open spec fn at_stage(state: PipelineView, stage: Stage) -> PipelineView {
    PipelineView {
        stage,
        base_name: state.base_name,
        metadata: state.metadata,
        lyrics: state.lyrics,
        album_art: state.album_art,
    }
}

/// The step that calls for `action` and reports nothing.
pub open spec fn quiet(action: ActionView) -> StepView {
    StepView { action, diagnostic: None }
}

/// The next state and the step, for a state and the event it waited for.
///
/// A probe that did not run or that failed, and a text that is no document,
/// leave the run without tags and are reported. Cover art that could not be
/// had is left out in silence. Playback audio that could not be had ends
/// the run with an error and without a result.
pub open spec fn advance_spec(state: PipelineView, event: EventView) -> (PipelineView, StepView) {
    match event {
        EventView::ProbeFinished(outcome) => match outcome {
            ProbeOutcomeView::Unavailable => (
                after_tags(state, Map::empty()),
                StepView {
                    action: ActionView::ExtractArt,
                    diagnostic: Some(Diagnostic::ProbeUnavailable),
                },
            ),
            ProbeOutcomeView::Failed => (
                after_tags(state, Map::empty()),
                StepView {
                    action: ActionView::ExtractArt,
                    diagnostic: Some(Diagnostic::ProbeFailed),
                },
            ),
            ProbeOutcomeView::Succeeded { stdout } => (
                at_stage(state, Stage::Parsing),
                StepView {
                    action: ActionView::ParseTags { text: decoded_text(stdout) },
                    diagnostic: if decoded_lossy(stdout) {
                        Some(Diagnostic::LossyProbeText)
                    } else {
                        None
                    },
                },
            ),
        },
        EventView::TagsParsed(parsed) => match parsed {
            Some(tags) => (after_tags(state, tags), quiet(ActionView::ExtractArt)),
            None => (
                after_tags(state, Map::empty()),
                StepView {
                    action: ActionView::ExtractArt,
                    diagnostic: Some(Diagnostic::UnparsableProbeOutput),
                },
            ),
        },
        EventView::ArtFinished(outcome) => match art_result(outcome) {
            Ok(picture) => (
                PipelineView {
                    stage: Stage::Transcoding,
                    base_name: state.base_name,
                    metadata: state.metadata,
                    lyrics: state.lyrics,
                    album_art: match picture {
                        Some(bytes) => Some(base64_text(bytes)),
                        None => None,
                    },
                },
                quiet(ActionView::TranscodeWav),
            ),
            Err(error) => (at_stage(state, Stage::Finished), quiet(ActionView::Abort(error))),
        },
        EventView::WavFinished(outcome) => (
            at_stage(state, Stage::Finished),
            quiet(
                match wav_result(outcome) {
                    Ok(audio) => ActionView::Complete(
                        ProcessedView {
                            metadata: state.metadata,
                            playback: base64_text(audio),
                            album_art: state.album_art,
                            lyrics: state.lyrics,
                        },
                    ),
                    Err(error) => ActionView::Abort(error),
                },
            ),
        ),
    }
}

/// The tags that a run goes by: those of the parsed document where the
/// probe succeeded and its text was one, and none otherwise.
pub open spec fn effective_tags(
    probe: ProbeOutcomeView,
    parsed: Option<Map<Seq<char>, Seq<char>>>,
) -> Map<Seq<char>, Seq<char>> {
    match (probe, parsed) {
        (ProbeOutcomeView::Succeeded { stdout }, Some(tags)) => tags,
        _ => Map::empty(),
    }
}

/// The action on which a run ends, for a base name and the outcomes of its
/// steps. `parsed` counts only where the probe succeeded, and `wav` only
/// where the cover art did not end the run.
pub open spec fn run_outcome(
    base: Option<Seq<char>>,
    probe: ProbeOutcomeView,
    parsed: Option<Map<Seq<char>, Seq<char>>>,
    art: ArtOutcomeView,
    wav: WavOutcomeView,
) -> ActionView {
    let probed = advance_spec(initial(base), EventView::ProbeFinished(probe));
    let settled = if probed.1.action is ParseTags {
        advance_spec(probed.0, EventView::TagsParsed(parsed)).0
    } else {
        probed.0
    };
    let pictured = advance_spec(settled, EventView::ArtFinished(art));
    if pictured.1.action is Abort {
        pictured.1.action
    } else {
        advance_spec(pictured.0, EventView::WavFinished(wav)).1.action
    }
}

/// A run ends with a result exactly when working storage for the cover art
/// was there and the playback audio was transcoded, whatever became of the
/// probe and of the art itself. The result then holds the metadata resolved
/// from the tags that the run goes by and from the base name, the audio and
/// any picture in base64, and the lyrics. In every other case the run ends
/// with the error of the first step that failed fatally, and without a
/// result. Base name and outcomes decide the end of a run between them: two
/// runs that agree on them end alike.
pub proof fn law_run_result(
    base: Option<Seq<char>>,
    probe: ProbeOutcomeView,
    parsed: Option<Map<Seq<char>, Seq<char>>>,
    art: ArtOutcomeView,
    wav: WavOutcomeView,
)
    ensures
        run_outcome(base, probe, parsed, art, wav) == (match art_result(art) {
            Err(error) => ActionView::Abort(error),
            Ok(picture) => match wav_result(wav) {
                Err(error) => ActionView::Abort(error),
                Ok(audio) => ActionView::Complete(
                    ProcessedView {
                        metadata: resolve(effective_tags(probe, parsed), base),
                        playback: base64_text(audio),
                        album_art: match picture {
                            Some(bytes) => Some(base64_text(bytes)),
                            None => None,
                        },
                        lyrics: lyrics_of(effective_tags(probe, parsed)),
                    },
                ),
            },
        }),
{
}

/// Running a file twice gives the same result: where two runs have the
/// same base name and their tools report the same, they end on the same
/// action, with the same metadata, lyrics, picture and audio.
pub proof fn law_runs_agree(
    base: (Option<Seq<char>>, Option<Seq<char>>),
    probe: (ProbeOutcomeView, ProbeOutcomeView),
    parsed: (Option<Map<Seq<char>, Seq<char>>>, Option<Map<Seq<char>, Seq<char>>>),
    art: (ArtOutcomeView, ArtOutcomeView),
    wav: (WavOutcomeView, WavOutcomeView),
)
    requires
        base.0 == base.1,
        probe.0 == probe.1,
        parsed.0 == parsed.1,
        art.0 == art.1,
        wav.0 == wav.1,
    ensures
        run_outcome(base.0, probe.0, parsed.0, art.0, wav.0) == run_outcome(
            base.1,
            probe.1,
            parsed.1,
            art.1,
            wav.1,
        ),
{
}

/// The steps come in one order: probing, then parsing where the probe
/// succeeded, then the cover art, then the playback audio. Each step calls
/// for the work whose outcome the next stage waits for, and a run is over
/// exactly when its step hands a result or an error to the caller.
pub proof fn law_stages_in_order(state: PipelineView, event: EventView)
    requires
        state.accepts(event),
    ensures
        ({
            let (next, step) = advance_spec(state, event);
            &&& next.stage != Stage::Probing
            &&& step.action !is RunProbe
            &&& next.stage == Stage::Parsing <==> step.action is ParseTags
            &&& next.stage == Stage::ExtractingArt <==> step.action is ExtractArt
            &&& next.stage == Stage::Transcoding <==> step.action is TranscodeWav
            &&& next.stage == Stage::Finished <==> step.action is Complete || step.action is Abort
            &&& step.action is ParseTags ==> state.stage == Stage::Probing
            &&& step.action is ExtractArt ==> state.stage == Stage::Probing || state.stage
                == Stage::Parsing
            &&& step.action is TranscodeWav ==> state.stage == Stage::ExtractingArt
            &&& step.action is Complete ==> state.stage == Stage::Transcoding
            &&& next.base_name == state.base_name
        }),
{
}

/// Resolved metadata holds no empty string, given a base name that is not
/// empty: a title or an artist from the tags is usable, and one from the
/// name is the name itself or made of segments, none of which is empty.
pub proof fn law_resolved_metadata_wf(tags: Map<Seq<char>, Seq<char>>, base: Option<Seq<char>>)
    requires
        base matches Some(name) ==> name.len() > 0,
    ensures
        resolve(tags, base).wf(),
        title_of(tags) matches Some(t) ==> usable(t),
        artist_of(tags) matches Some(a) ==> usable(a),
{
    reveal_strlit("image/jpeg");
    let found = MetadataView {
        title: title_of(tags),
        artist: artist_of(tags),
        mime_type: Some(default_mime_type()),
    };
    if let Some(t) = title_of(tags) {
        lemma_trim_start_len(t);
        lemma_trim_end_len(trim_start(t));
    }
    if let Some(a) = artist_of(tags) {
        lemma_trim_start_len(a);
        lemma_trim_end_len(trim_start(a));
    }
    if let Some(name) = base {
        lemma_with_filename_wf(found, name);
    }
}

/// A file without tags whose base name has two segments or more gets the
/// first segment as its artist and the others, joined by ` - `, as its title.
pub proof fn law_untagged_dashed_name(base: Seq<char>)
    requires
        segments(base).len() >= 2,
    ensures
        resolve(Map::empty(), Some(base)) == (MetadataView {
            title: Some(joined(segments(base).skip(1), " - "@)),
            artist: Some(segments(base)[0]),
            mime_type: Some(default_mime_type()),
        }),
{
}

/// A file without tags whose base name has fewer than two segments gets
/// the base name as its title and no artist.
pub proof fn law_untagged_plain_name(base: Seq<char>)
    requires
        segments(base).len() < 2,
    ensures
        resolve(Map::empty(), Some(base)) == (MetadataView {
            title: Some(base),
            artist: None,
            mime_type: Some(default_mime_type()),
        }),
{
}

impl PipelineView {
    /// The event is the one that the run waits for, and the bytes it brings
    /// are not longer than the decoders and the encoder take.
    pub open spec fn accepts(self, event: EventView) -> bool {
        match event {
            EventView::ProbeFinished(outcome) => self.stage == Stage::Probing && (
            outcome matches ProbeOutcomeView::Succeeded { stdout } ==> decodable(stdout)),
            EventView::TagsParsed(_) => self.stage == Stage::Parsing,
            EventView::ArtFinished(outcome) => self.stage == Stage::ExtractingArt && (
            outcome matches ArtOutcomeView::Extracted { bytes } ==> encodable(bytes)),
            EventView::WavFinished(outcome) => self.stage == Stage::Transcoding && (
            outcome matches WavOutcomeView::Transcoded { bytes } ==> encodable(bytes)),
        }
    }
}

impl Pipeline {
    /// Starts a run on a file with the given base name. The first thing to
    /// do is to probe the file.
    pub fn start(base_name: Option<String>) -> (r: (Pipeline, Step))
        ensures
            r.0@ == initial(text_of(base_name)),
            r.1@ == quiet(ActionView::RunProbe),
    {
        let pipeline = Pipeline {
            stage: Stage::Probing,
            base_name,
            metadata: Metadata {
                title: None,
                artist: None,
                mime_type: Some("image/jpeg".to_owned()),
            },
            lyrics: None,
            album_art: None,
        };
        (pipeline, Step { action: Action::RunProbe, diagnostic: None })
    }

    /// Tells whether `event` may be handed to [`Pipeline::advance`] now.
    pub fn accepts(&self, event: &Event) -> (ok: bool)
        ensures
            ok == self@.accepts(event@),
    {
        match event {
            Event::ProbeFinished(outcome) => self.stage == Stage::Probing && match outcome {
                ProbeOutcome::Succeeded { stdout } => stdout.len() <= usize::MAX / 8,
                _ => true,
            },
            Event::TagsParsed(_) => self.stage == Stage::Parsing,
            Event::ArtFinished(outcome) => self.stage == Stage::ExtractingArt && match outcome {
                ArtOutcome::Extracted { bytes } => bytes.len() <= usize::MAX / 8,
                _ => true,
            },
            Event::WavFinished(outcome) => self.stage == Stage::Transcoding && match outcome {
                WavOutcome::Transcoded { bytes } => bytes.len() <= usize::MAX / 8,
                _ => true,
            },
        }
    }

    /// Takes the tags as known: reconciles them and fills the gaps from the
    /// base name.
    fn settle(&mut self, tags: &Tags)
        ensures
            final(self)@ == after_tags(old(self)@, tags@),
    {
        let found = reconcile(tags);
        let mut metadata = found.metadata;
        match &self.base_name {
            Some(base) => {
                metadata.fill_from_filename(base.as_str());
            },
            None => {},
        }
        self.metadata = metadata;
        self.lyrics = found.lyrics;
        self.stage = Stage::ExtractingArt;
    }

    /// Takes the event that the run waited for and decides what comes next.
    pub fn advance(&mut self, event: Event) -> (step: Step)
        requires
            old(self)@.accepts(event@),
        ensures
            (final(self)@, step@) == advance_spec(old(self)@, event@),
    {
        match event {
            Event::ProbeFinished(outcome) => match outcome {
                ProbeOutcome::Unavailable => {
                    self.settle(&Tags::new());
                    Step {
                        action: Action::ExtractArt,
                        diagnostic: Some(Diagnostic::ProbeUnavailable),
                    }
                },
                ProbeOutcome::Failed => {
                    self.settle(&Tags::new());
                    Step { action: Action::ExtractArt, diagnostic: Some(Diagnostic::ProbeFailed) }
                },
                ProbeOutcome::Succeeded { stdout } => {
                    let decoded = decode_probe_output(stdout.as_slice());
                    self.stage = Stage::Parsing;
                    Step {
                        action: Action::ParseTags { text: decoded.text },
                        diagnostic: if decoded.lossy {
                            Some(Diagnostic::LossyProbeText)
                        } else {
                            None
                        },
                    }
                },
            },
            Event::TagsParsed(parsed) => match parsed {
                Some(doc) => {
                    let tags = doc.merged_tags();
                    self.settle(&tags);
                    Step { action: Action::ExtractArt, diagnostic: None }
                },
                None => {
                    self.settle(&Tags::new());
                    Step {
                        action: Action::ExtractArt,
                        diagnostic: Some(Diagnostic::UnparsableProbeOutput),
                    }
                },
            },
            Event::ArtFinished(outcome) => match outcome.judge() {
                Ok(picture) => {
                    self.album_art = match picture {
                        Some(bytes) => Some(base64_encode(bytes.as_slice())),
                        None => None,
                    };
                    self.stage = Stage::Transcoding;
                    Step { action: Action::TranscodeWav, diagnostic: None }
                },
                Err(error) => {
                    self.stage = Stage::Finished;
                    Step { action: Action::Abort(error), diagnostic: None }
                },
            },
            Event::WavFinished(outcome) => {
                self.stage = Stage::Finished;
                match outcome.judge() {
                    Ok(audio) => Step {
                        action: Action::Complete(
                            ProcessedFile {
                                metadata: self.metadata.duplicate(),
                                playback_data_base64: base64_encode(audio.as_slice()),
                                album_art_base64: copy_text(&self.album_art),
                                lyrics: copy_text(&self.lyrics),
                            },
                        ),
                        diagnostic: None,
                    },
                    Err(error) => Step { action: Action::Abort(error), diagnostic: None },
                }
            },
        }
    }
}

} // verus!
