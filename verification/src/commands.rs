//! The command lines of the prober and the encoder. Every subprocess is
//! started without a console window of its own.

use crate::text::texts;
use vstd::prelude::*;

verus! {

/// A tool and the arguments it is started with.
#[derive(Clone, Debug)]
pub struct Invocation {
    pub program: String,
    pub arguments: Vec<String>,
    /// The subprocess must not open a console window, on a platform where
    /// it would and where that can be suppressed.
    pub no_console_window: bool,
}

/// The mathematical content of an [`Invocation`].
pub struct InvocationView {
    pub program: Seq<char>,
    pub arguments: Seq<Seq<char>>,
    pub no_console_window: bool,
}

impl View for Invocation {
    type V = InvocationView;

    open spec fn view(&self) -> InvocationView {
        InvocationView {
            program: self.program@,
            arguments: texts(self.arguments@),
            no_console_window: self.no_console_window,
        }
    }
}

/// The name of the file that the encoder writes the cover art to.
pub open spec fn art_file_name() -> Seq<char> {
    "cover.jpg"@
}

/// The name of the file that the encoder writes the playback audio to.
pub open spec fn wav_file_name() -> Seq<char> {
    "playback.wav"@
}

/// The prober, asked quietly for the container and the streams of the file
/// at `path`, as JSON.
pub open spec fn probe_command(path: Seq<char>) -> InvocationView {
    InvocationView {
        program: "ffprobe"@,
        arguments: seq![
            "-v"@,
            "quiet"@,
            "-print_format"@,
            "json"@,
            "-show_format"@,
            "-show_streams"@,
            "-i"@,
            path,
        ],
        no_console_window: true,
    }
}

/// The encoder, asked to copy the picture of the file at `path` to
/// `target` and to leave the audio out.
pub open spec fn art_command(path: Seq<char>, target: Seq<char>) -> InvocationView {
    InvocationView {
        program: "ffmpeg"@,
        arguments: seq![
            "-hide_banner"@,
            "-loglevel"@,
            "error"@,
            "-i"@,
            path,
            "-an"@,
            "-vcodec"@,
            "copy"@,
            target,
        ],
        no_console_window: true,
    }
}

/// The encoder, asked to write the audio of the file at `path` to `target`
/// in two channels, over any file that is there.
pub open spec fn wav_command(path: Seq<char>, target: Seq<char>) -> InvocationView {
    InvocationView {
        program: "ffmpeg"@,
        arguments: seq![
            "-hide_banner"@,
            "-loglevel"@,
            "error"@,
            "-i"@,
            path,
            "-ac"@,
            "2"@,
            "-y"@,
            target,
        ],
        no_console_window: true,
    }
}

/// Appends `argument` to `arguments`.
fn push_argument(arguments: &mut Vec<String>, argument: &str)
    ensures
        texts(final(arguments)@) == texts(old(arguments)@).push(argument@),
{
    arguments.push(argument.to_owned());
    assert(texts(arguments@) =~= texts(old(arguments)@).push(argument@));
}

/// The arguments that silence the encoder's banner and all but its errors,
/// followed by the input file.
fn encoder_input(path: &str) -> (arguments: Vec<String>)
    ensures
        texts(arguments@) == seq!["-hide_banner"@, "-loglevel"@, "error"@, "-i"@, path@],
{
    let mut arguments: Vec<String> = Vec::new();
    assert(texts(arguments@) =~= Seq::<Seq<char>>::empty());
    push_argument(&mut arguments, "-hide_banner");
    push_argument(&mut arguments, "-loglevel");
    push_argument(&mut arguments, "error");
    push_argument(&mut arguments, "-i");
    push_argument(&mut arguments, path);
    assert(texts(arguments@) =~= seq!["-hide_banner"@, "-loglevel"@, "error"@, "-i"@, path@]);
    arguments
}

/// The name of the file for the cover art, inside its working storage.
pub fn art_target() -> (name: String)
    ensures
        name@ == art_file_name(),
{
    "cover.jpg".to_owned()
}

/// The name of the file for the playback audio, inside its working storage.
pub fn wav_target() -> (name: String)
    ensures
        name@ == wav_file_name(),
{
    "playback.wav".to_owned()
}

/// The command that probes the file at `path`.
pub fn probe_invocation(path: &str) -> (invocation: Invocation)
    ensures
        invocation@ == probe_command(path@),
{
    let mut arguments: Vec<String> = Vec::new();
    assert(texts(arguments@) =~= Seq::<Seq<char>>::empty());
    push_argument(&mut arguments, "-v");
    push_argument(&mut arguments, "quiet");
    push_argument(&mut arguments, "-print_format");
    push_argument(&mut arguments, "json");
    push_argument(&mut arguments, "-show_format");
    push_argument(&mut arguments, "-show_streams");
    push_argument(&mut arguments, "-i");
    push_argument(&mut arguments, path);
    assert(texts(arguments@) =~= probe_command(path@).arguments);
    Invocation { program: "ffprobe".to_owned(), arguments, no_console_window: true }
}

/// The command that extracts the cover art of the file at `path` to `target`.
pub fn art_invocation(path: &str, target: &str) -> (invocation: Invocation)
    ensures
        invocation@ == art_command(path@, target@),
{
    let mut arguments = encoder_input(path);
    push_argument(&mut arguments, "-an");
    push_argument(&mut arguments, "-vcodec");
    push_argument(&mut arguments, "copy");
    push_argument(&mut arguments, target);
    assert(texts(arguments@) =~= art_command(path@, target@).arguments);
    Invocation { program: "ffmpeg".to_owned(), arguments, no_console_window: true }
}

/// The command that transcodes the audio of the file at `path` to `target`.
pub fn wav_invocation(path: &str, target: &str) -> (invocation: Invocation)
    ensures
        invocation@ == wav_command(path@, target@),
{
    let mut arguments = encoder_input(path);
    push_argument(&mut arguments, "-ac");
    push_argument(&mut arguments, "2");
    push_argument(&mut arguments, "-y");
    push_argument(&mut arguments, target);
    assert(texts(arguments@) =~= wav_command(path@, target@).arguments);
    Invocation { program: "ffmpeg".to_owned(), arguments, no_console_window: true }
}

} // verus!
