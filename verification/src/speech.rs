//! The spoken announcement: what is said, the command that says it, and
//! what to make of the command's run. Running the command is the caller's
//! part.

use vstd::prelude::*;
use vstd::string::*;

verus! {

/// What the overlay says when a run is out of time.
pub fn expiry_announcement() -> (text: String)
    ensures
        text@ == "countdown ended, Phantom"@,
{
    "countdown ended, Phantom".to_owned()
}

/// The PowerShell script that speaks `text`: the speech assembly is loaded
/// and a synthesizer speaks the text, which stands between single quotes
/// as it is.
pub open spec fn speech_script_text(text: Seq<char>) -> Seq<char> {
    "Add-Type -AssemblyName System.Speech; (New-Object System.Speech.Synthesis.SpeechSynthesizer).Speak('"@
        + text + "');"@
}

/// The PowerShell script that speaks `text`.
pub fn speech_script(text: &str) -> (script: String)
    ensures
        script@ == speech_script_text(text@),
{
    let opening = String::from_str(
        "Add-Type -AssemblyName System.Speech; (New-Object System.Speech.Synthesis.SpeechSynthesizer).Speak('",
    );
    opening.concat(text).concat("');")
}

/// A program and the arguments to run it with.
#[derive(Debug, PartialEq, Eq)]
pub struct SpeechCommand {
    pub program: String,
    pub arguments: Vec<String>,
}

/// The command that speaks `text`: `powershell -Command` and the script.
pub fn speech_command(text: &str) -> (command: SpeechCommand)
    ensures
        command.program@ == "powershell"@,
        command.arguments@.len() == 2,
        command.arguments@[0]@ == "-Command"@,
        command.arguments@[1]@ == speech_script_text(text@),
{
    let mut arguments: Vec<String> = Vec::new();
    arguments.push("-Command".to_owned());
    arguments.push(speech_script(text));
    SpeechCommand { program: "powershell".to_owned(), arguments }
}

/// What came of running the speech command.
#[derive(Debug, PartialEq, Eq)]
pub enum SpeechRun {
    /// The program could not be run; the reason in words.
    NotLaunched(String),
    /// The program ran to its end: whether it reported success, and what
    /// it wrote to its error stream.
    Finished { succeeded: bool, errors: String },
}

/// The message for a speech command that could not be run.
pub open spec fn launch_failure_text(reason: Seq<char>) -> Seq<char> {
    "Failed to execute PowerShell TTS: "@ + reason
}

/// The message for a speech command that ran and reported failure.
pub open spec fn speech_failure_text(errors: Seq<char>) -> Seq<char> {
    "PowerShell TTS failed: "@ + errors
}

/// The failure of a run in words, or `None` where the command ran and
/// reported success.
pub open spec fn speech_failure(run: SpeechRun) -> Option<Seq<char>> {
    match run {
        SpeechRun::NotLaunched(reason) => Some(launch_failure_text(reason@)),
        SpeechRun::Finished { succeeded, errors } => if succeeded {
            None
        } else {
            Some(speech_failure_text(errors@))
        },
    }
}

/// Whether the announcement was spoken: `Ok` where the command ran and
/// reported success, else the failure in words. A failure is for the log;
/// it changes nothing about the countdown.
pub fn speech_outcome(run: SpeechRun) -> (r: Result<(), String>)
    ensures
        r is Ok <==> speech_failure(run) is None,
        r matches Err(message) ==> speech_failure(run) == Some(message@),
{
    match run {
        SpeechRun::NotLaunched(reason) => {
            Err(String::from_str("Failed to execute PowerShell TTS: ").concat(reason.as_str()))
        },
        SpeechRun::Finished { succeeded, errors } => {
            if succeeded {
                Ok(())
            } else {
                Err(String::from_str("PowerShell TTS failed: ").concat(errors.as_str()))
            }
        },
    }
}

} // verus!
