//! The boundary to the player: named commands, the requests made of them, and
//! what comes back.
//!
//! Nothing here runs a command. A caller hands a [`Request`] to whatever
//! delivers it to the player, and hands what the process left behind, as a
//! [`Completion`], to [`interpret`].

use vstd::prelude::*;
use vstd::utf8::{decode_utf8, valid_utf8};

verus! {

/// The control commands that the player understands.
#[derive(Clone, Copy, Debug, PartialEq, Eq, Structural)]
pub enum Command {
    Open,
    Quit,
    Play,
    Pause,
    PlayPause,
    IsOpen,
    GetVolume,
    SetVolume,
    GetSongUrl,
    GetSongName,
}

impl Command {
    /// The number of arguments that the command expects.
    pub open spec fn arity(self) -> nat {
        if self == Command::SetVolume {
            1
        } else {
            0
        }
    }

    /// The name under which the command is registered.
    pub open spec fn script(self) -> Seq<char> {
        match self {
            Command::Open => "Open"@,
            Command::Quit => "Quit"@,
            Command::Play => "Play"@,
            Command::Pause => "Pause"@,
            Command::PlayPause => "PlayPause"@,
            Command::IsOpen => "IsOpen"@,
            Command::GetVolume => "GetVolume"@,
            Command::SetVolume => "SetVolume"@,
            Command::GetSongUrl => "GetSongURL"@,
            Command::GetSongName => "GetSongName"@,
        }
    }

    /// Where the command's script lies, relative to the working directory.
    pub open spec fn script_location(self) -> Seq<char> {
        "Resources/osascripts/"@ + self.script() + ".scpt"@
    }

    /// The name under which the command is registered.
    pub fn name(&self) -> (r: &'static str)
        ensures
            r@ == self.script(),
    {
        match self {
            Command::Open => "Open",
            Command::Quit => "Quit",
            Command::Play => "Play",
            Command::Pause => "Pause",
            Command::PlayPause => "PlayPause",
            Command::IsOpen => "IsOpen",
            Command::GetVolume => "GetVolume",
            Command::SetVolume => "SetVolume",
            Command::GetSongUrl => "GetSongURL",
            Command::GetSongName => "GetSongName",
        }
    }

    /// Where the command's script lies, relative to the working directory.
    pub fn script_path(&self) -> (r: String)
        ensures
            r@ == self.script_location(),
    {
        let mut path = String::from_str("Resources/osascripts/");
        path.append(self.name());
        path.append(".scpt");
        path
    }
}

/// One command together with its arguments, ready to be delivered.
#[derive(Clone, Debug, PartialEq, Eq)]
pub struct Request {
    pub command: Command,
    pub args: Vec<String>,
}

/// What a [`Request`] says: the command, and each argument as its characters.
pub ghost struct RequestView {
    pub command: Command,
    pub args: Seq<Seq<char>>,
}

impl View for Request {
    type V = RequestView;

    open spec fn view(&self) -> RequestView {
        RequestView { command: self.command, args: self.args@.map_values(|a: String| a@) }
    }
}

impl RequestView {
    /// The request for a command that takes no argument.
    pub open spec fn plain(command: Command) -> RequestView {
        RequestView { command, args: Seq::empty() }
    }

    /// The request for a command with one argument.
    pub open spec fn with(command: Command, arg: Seq<char>) -> RequestView {
        RequestView { command, args: seq![arg] }
    }

    /// The request carries as many arguments as its command expects.
    pub open spec fn well_formed(self) -> bool {
        self.args.len() == self.command.arity()
    }
}

impl Request {
    /// The request for a command that takes no argument.
    pub fn plain(command: Command) -> (r: Request)
        requires
            command.arity() == 0,
        ensures
            r@ == RequestView::plain(command),
            r@.well_formed(),
    {
        let r = Request { command, args: Vec::new() };
        assert(r@.args =~= Seq::empty());
        r
    }

    /// The request for a command with one argument.
    pub fn with(command: Command, arg: String) -> (r: Request)
        requires
            command.arity() == 1,
        ensures
            r@ == RequestView::with(command, arg@),
            r@.well_formed(),
    {
        let mut args: Vec<String> = Vec::new();
        args.push(arg);
        let r = Request { command, args };
        assert(r@.args =~= seq![arg@]);
        r
    }
}

/// Why a command gave no answer.
#[derive(Clone, Debug, PartialEq, Eq)]
pub enum ExecutionError {
    /// The command, or the program that runs it, could not be found or started.
    NotFound,
    /// The command ran and signalled failure; the text is what it wrote as
    /// its diagnostic.
    NonZeroExit(String),
    /// The command's output is not valid text.
    DecodeError,
}

/// What an [`ExecutionError`] says, with the diagnostic as its characters.
pub ghost enum Failure {
    NotFound,
    NonZeroExit(Seq<char>),
    DecodeError,
}

impl View for ExecutionError {
    type V = Failure;

    open spec fn view(&self) -> Failure {
        match self {
            ExecutionError::NotFound => Failure::NotFound,
            ExecutionError::NonZeroExit(text) => Failure::NonZeroExit(text@),
            ExecutionError::DecodeError => Failure::DecodeError,
        }
    }
}

/// What delivering a request gives: the command's output, or why there is none.
pub type Reply = Result<String, ExecutionError>;

/// What a [`Reply`] says.
pub type ReplyView = Result<Seq<char>, Failure>;

/// What a reply says: the output as its characters, or the failure.
pub open spec fn reply_view(reply: Reply) -> ReplyView {
    match reply {
        Ok(text) => Ok(text@),
        Err(error) => Err(error@),
    }
}

/// What an answer drawn from a reply says: the value, or the failure.
pub open spec fn answer_view<T>(answer: Result<T, ExecutionError>) -> Result<T, Failure> {
    match answer {
        Ok(value) => Ok(value),
        Err(error) => Err(error@),
    }
}

/// What a process that was asked to run a command left behind.
#[derive(Clone, Debug, PartialEq, Eq)]
pub enum Completion {
    /// The process could not be started.
    Unavailable,
    /// The process ran to its end.
    Exited { success: bool, stdout: Vec<u8>, stderr: Vec<u8> },
}

/// What a [`Completion`] says, with the two streams as byte sequences.
pub ghost enum CompletionView {
    Unavailable,
    Exited { success: bool, stdout: Seq<u8>, stderr: Seq<u8> },
}

impl View for Completion {
    type V = CompletionView;

    open spec fn view(&self) -> CompletionView {
        match self {
            Completion::Unavailable => CompletionView::Unavailable,
            Completion::Exited { success, stdout, stderr } => CompletionView::Exited {
                success: *success,
                stdout: stdout@,
                stderr: stderr@,
            },
        }
    }
}

/// The text that a byte stream holds, if it is valid UTF-8.
pub open spec fn text_of(bytes: Seq<u8>) -> Option<Seq<char>> {
    if valid_utf8(bytes) {
        Some(decode_utf8(bytes))
    } else {
        None
    }
}

/// The reply that a completion stands for.
///
/// A process that could not be started is `NotFound`. After a successful run
/// the reply is the standard output, whole and untrimmed. After a failed run
/// it is `NonZeroExit` with the standard error as its diagnostic. A stream
/// that had to be read and is not valid UTF-8 gives `DecodeError`.
pub open spec fn interpretation(completion: CompletionView) -> ReplyView {
    match completion {
        CompletionView::Unavailable => Err(Failure::NotFound),
        CompletionView::Exited { success, stdout, stderr } => {
            if success {
                match text_of(stdout) {
                    Some(text) => Ok(text),
                    None => Err(Failure::DecodeError),
                }
            } else {
                match text_of(stderr) {
                    Some(text) => Err(Failure::NonZeroExit(text)),
                    None => Err(Failure::DecodeError),
                }
            }
        },
    }
}

/// Calls `String::from_utf8` of the standard library.
///
/// The contract claims what its documentation says: the bytes become a string
/// exactly when they are valid UTF-8, and the string then holds the characters
/// that the bytes encode.
#[verifier::external_body]
fn utf8_text(bytes: Vec<u8>) -> (r: Option<String>)
    ensures
        r is Some <==> valid_utf8(bytes@),
        r matches Some(text) ==> text@ == decode_utf8(bytes@),
{
    String::from_utf8(bytes).ok()
}

/// Turns what a process left behind into the reply of the command it ran.
pub fn interpret(completion: Completion) -> (r: Reply)
    ensures
        reply_view(r) == interpretation(completion@),
{
    match completion {
        Completion::Unavailable => Err(ExecutionError::NotFound),
        Completion::Exited { success, stdout, stderr } => {
            if success {
                match utf8_text(stdout) {
                    Some(text) => Ok(text),
                    None => Err(ExecutionError::DecodeError),
                }
            } else {
                match utf8_text(stderr) {
                    Some(text) => Err(ExecutionError::NonZeroExit(text)),
                    None => Err(ExecutionError::DecodeError),
                }
            }
        },
    }
}

} // verus!
