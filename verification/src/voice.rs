//! The voice layer: speech to text with whisper.cpp, text to speech with
//! macOS `say`, and the wake-word listener's line protocol. The programs run
//! on the caller's side; their command lines and what their output means are
//! decided here.
use vstd::prelude::*;
use crate::text::{decimal, decimal_string, has_prefix, trimmed, trim, strip_prefix, str_eq};

verus! {

/// The output of the wake-word detector.
pub struct WakeEvent;

/// How long each recording lasts, in seconds (simple first version, no
/// silence detection).
pub const RECORD_SECONDS: u64 = 7;

/// The temporary recording's file name.
pub const INPUT_WAV: &'static str = "edith_input.wav";

/// Speech to text: whisper.cpp on the command line, with a local model.
pub struct WhisperCli {
    /// The path of the whisper model, as text.
    model: String,
}

/// The `rec` (sox) arguments that record 16 kHz mono audio into `out` for
/// `RECORD_SECONDS`.
pub open spec fn record_args_of(out: Seq<char>) -> Seq<Seq<char>> {
    seq!["-q"@, out, "rate"@, "16000"@, "channels"@, "1"@, "trim"@, "0"@, decimal(RECORD_SECONDS as nat)]
}

/// The `whisper-cli` arguments that transcribe `wav` with `model`, in French,
/// without timestamps.
pub open spec fn transcribe_args_of(model: Seq<char>, wav: Seq<char>) -> Seq<Seq<char>> {
    seq!["-m"@, model, "-l"@, "fr"@, "-nt"@, "-f"@, wav]
}

/// The views of a list of strings.
pub open spec fn strings_view(v: Seq<String>) -> Seq<Seq<char>> {
    v.map_values(|s: String| s@)
}

/// What a transcription gives: the text printed, trimmed, when whisper-cli
/// succeeded; else the failure with its error output.
pub open spec fn transcription_of(success: bool, stdout: Seq<char>, stderr: Seq<char>) -> Result<
    Seq<char>,
    Seq<char>,
> {
    if success {
        Ok(trimmed(stdout))
    } else {
        Err("whisper-cli a échoué: "@ + stderr)
    }
}

fn strings(items: &[&str]) -> (r: Vec<String>)
    ensures
        strings_view(r@) == items@.map_values(|s: &str| s@),
{
    let mut out: Vec<String> = Vec::new();
    let mut i: usize = 0;
    while i < items.len()
        invariant
            i <= items@.len(),
            out.len() == i,
            forall|k: int| 0 <= k < i ==> out@[k]@ == items@[k]@,
        decreases items@.len() - i,
    {
        out.push(items[i].to_owned());
        i = i + 1;
    }
    assert(strings_view(out@) =~= items@.map_values(|s: &str| s@));
    out
}

impl WhisperCli {
    /// Speech to text with the whisper model at the path `model`.
    pub fn new(model: String) -> (r: Self)
        ensures
            r.model() == model@,
    {
        WhisperCli { model }
    }

    /// The path of the whisper model.
    pub closed spec fn model(&self) -> Seq<char> {
        self.model@
    }

    /// The path of the whisper model.
    pub fn model_path(&self) -> (r: &str)
        ensures
            r@ == self.model(),
    {
        self.model.as_str()
    }

    /// The arguments of `rec` that record the microphone into `out`.
    pub fn record_args(&self, out: &str) -> (r: Vec<String>)
        ensures
            strings_view(r@) == record_args_of(out@),
    {
        let mut r = strings(&["-q", out, "rate", "16000", "channels", "1", "trim", "0"]);
        assert(seq!["-q", out, "rate", "16000", "channels", "1", "trim", "0"].map_values(
            |s: &str| s@,
        ) =~= seq!["-q"@, out@, "rate"@, "16000"@, "channels"@, "1"@, "trim"@, "0"@]);
        let ghost before = strings_view(r@);
        r.push(decimal_string(RECORD_SECONDS));
        assert(strings_view(r@) =~= before.push(decimal(RECORD_SECONDS as nat)));
        assert(strings_view(r@) =~= record_args_of(out@));
        r
    }

    /// The arguments of `whisper-cli` that transcribe `wav` with this
    /// model.
    pub fn transcribe_args(&self, wav: &str) -> (r: Vec<String>)
        ensures
            strings_view(r@) == transcribe_args_of(self.model(), wav@),
    {
        let model = self.model.as_str();
        let r = strings(&["-m", model, "-l", "fr", "-nt", "-f", wav]);
        assert(seq!["-m", model, "-l", "fr", "-nt", "-f", wav].map_values(|s: &str| s@)
            =~= transcribe_args_of(self.model(), wav@));
        r
    }

    /// What a run of whisper-cli gives.
    pub fn transcription(&self, success: bool, stdout: &str, stderr: &str) -> (r: Result<
        String,
        String,
    >)
        ensures
            match transcription_of(success, stdout@, stderr@) {
                Ok(t) => r matches Ok(s) && s@ == t,
                Err(t) => r matches Err(e) && e@ == t,
            },
    {
        if success {
            Ok(trim(stdout))
        } else {
            let mut e = String::from_str("whisper-cli a échoué: ");
            e.append(stderr);
            Err(e)
        }
    }
}

/// Text to speech: macOS's own speech synthesis, entirely local, driven by
/// the `say` command.
pub struct MacSay {
    voice: String,
}

impl MacSay {
    /// Speech with the system voice `voice`.
    pub fn new(voice: String) -> (r: Self)
        ensures
            r.voice() == voice@,
    {
        MacSay { voice }
    }

    /// The voice used.
    pub closed spec fn voice(&self) -> Seq<char> {
        self.voice@
    }

    /// The arguments of `say` that read `text` aloud: `-v voice text`.
    pub fn say_args(&self, text: &str) -> (r: Vec<String>)
        ensures
            strings_view(r@) == seq!["-v"@, self.voice(), text@],
    {
        let r = vec![String::from_str("-v"), self.voice.clone(), text.to_owned()];
        assert(strings_view(r@) =~= seq!["-v"@, self.voice(), text@]);
        r
    }
}

// --------------------------------------------------------------- wake word

/// How long the user has to say the request after « Edith », in seconds.
pub const TRANSCRIPT_TIMEOUT_SECS: u64 = 15;

/// The listener's interpreter, relative to the project's root.
pub const WAKEWORD_PYTHON: &'static str = "wakeword/.venv/bin/python";

/// The listener's script, relative to the project's root.
pub const WAKEWORD_SCRIPT: &'static str = "wakeword/listen.py";

/// The listener's marker of a transcript line.
pub const TRANSCRIPT: &'static str = "TRANSCRIPT";

/// The error once the listener stopped.
pub const LISTENER_STOPPED: &'static str = "le processus wake word s'est arrêté";

/// Whether the first line of the listener says it is ready: `Ok` when the
/// trimmed line is `READY`.
pub open spec fn ready_of(line: Seq<char>) -> Result<(), Seq<char>> {
    if trimmed(line) == "READY"@ {
        Ok(())
    } else {
        Err("wake word: démarrage inattendu: "@ + line)
    }
}

/// What a line says when it is a transcript: the words said after the
/// marker, trimmed, when there are any.
pub open spec fn transcript_of_line(line: Seq<char>) -> Option<Option<Seq<char>>> {
    let t = trimmed(line);
    if has_prefix(t, TRANSCRIPT@) {
        let said = trimmed(t.skip(TRANSCRIPT@.len() as int));
        Some(
            if said.len() > 0 {
                Some(said)
            } else {
                None
            },
        )
    } else {
        None
    }
}

/// What the listener's latest read means.
pub enum ListenStep {
    /// The listener stopped (nothing more to read).
    Stopped,
    /// A line to pass over (the wake word itself, or anything else).
    Continue,
    /// The request said after the wake word, if the user said one.
    Heard(Option<String>),
}

/// The model of a listening step.
pub enum ListenStepView {
    Stopped,
    Continue,
    Heard(Option<Seq<char>>),
}

impl View for ListenStep {
    type V = ListenStepView;

    open spec fn view(&self) -> ListenStepView {
        match self {
            ListenStep::Stopped => ListenStepView::Stopped,
            ListenStep::Continue => ListenStepView::Continue,
            ListenStep::Heard(Some(s)) => ListenStepView::Heard(Some(s@)),
            ListenStep::Heard(None) => ListenStepView::Heard(None),
        }
    }
}

/// What reading `line` (`read` bytes) means.
pub open spec fn listen_step_of(read: usize, line: Seq<char>) -> ListenStepView {
    if read == 0 {
        ListenStepView::Stopped
    } else {
        match transcript_of_line(line) {
            Some(said) => ListenStepView::Heard(said),
            None => ListenStepView::Continue,
        }
    }
}

/// Checks the listener's first line.
pub fn ready(line: &str) -> (r: Result<(), String>)
    ensures
        match ready_of(line@) {
            Ok(()) => r is Ok,
            Err(t) => r matches Err(e) && e@ == t,
        },
{
    let t = trim(line);
    if str_eq(t.as_str(), "READY") {
        Ok(())
    } else {
        let mut e = String::from_str("wake word: démarrage inattendu: ");
        e.append(line);
        Err(e)
    }
}

/// The words said on a transcript line, when it is one.
pub fn transcript(line: &str) -> (r: Option<Option<String>>)
    ensures
        r is None <==> transcript_of_line(line@) is None,
        r matches Some(said) ==> transcript_of_line(line@) == Some(
            match said {
                Some(s) => Some(s@),
                None => None,
            },
        ),
{
    let t = trim(line);
    match strip_prefix(t.as_str(), TRANSCRIPT) {
        Some(rest) => {
            let said = trim(rest.as_str());
            if said.as_str().is_empty() {
                Some(None)
            } else {
                Some(Some(said))
            }
        },
        None => None,
    }
}

/// What the listener's latest read means: stopped when nothing was read, the
/// words said on a transcript line, else a line to pass over.
pub fn listen_step(read: usize, line: &str) -> (r: ListenStep)
    ensures
        r@ == listen_step_of(read, line@),
{
    if read == 0 {
        ListenStep::Stopped
    } else {
        match transcript(line) {
            Some(said) => ListenStep::Heard(said),
            None => ListenStep::Continue,
        }
    }
}

} // verus!
