//! How the interactive loop understands what it reads: which lines are
//! skipped, which are commands, which are script text, and when the session
//! ends. The loop itself, with its reading and printing, is the caller's.

use crate::text::{
    chars_of, find_space, first_space, is_whitespace, lemma_trimmed_bounds, same_text, trim,
    trimmed,
};
use vstd::prelude::*;
use vstd::string::*;

verus! {

/// A command as a mathematical value.
pub enum CommandView {
    Help,
    Quit,
    Load(Option<Seq<char>>),
    Unknown(Seq<char>),
}

/// What a line that begins with a colon asks for.
#[derive(Clone, Debug, PartialEq, Eq)]
pub enum Command {
    /// `:h` or `:help`: show the commands.
    Help,
    /// `:q` or `:quit`: end the session.
    Quit,
    /// `:l` or `:load`: run a script file. The path is what follows the
    /// command word, trimmed; it is absent where nothing follows the word.
    Load(Option<String>),
    /// Any other word.
    Unknown(String),
}

impl View for Command {
    type V = CommandView;

    open spec fn view(&self) -> CommandView {
        match self {
            Command::Help => CommandView::Help,
            Command::Quit => CommandView::Quit,
            Command::Load(Some(path)) => CommandView::Load(Some(path@)),
            Command::Load(None) => CommandView::Load(None),
            Command::Unknown(word) => CommandView::Unknown(word@),
        }
    }
}

/// The command word of `body`: what stands before its first space.
pub open spec fn command_word(body: Seq<char>) -> Seq<char> {
    body.take(find_space(body, 0))
}

/// The argument of `body`: what follows its first space, trimmed. There is
/// none where `body` holds no space.
pub open spec fn command_argument(body: Seq<char>) -> Option<Seq<char>> {
    let cut = find_space(body, 0);
    if cut < body.len() {
        Some(trimmed(body.skip(cut + 1)))
    } else {
        None
    }
}

/// The command that `body` asks for, `body` being a command line without
/// its colon.
pub open spec fn command_of(body: Seq<char>) -> CommandView {
    let word = command_word(body);
    if word == "h"@ || word == "help"@ {
        CommandView::Help
    } else if word == "q"@ || word == "quit"@ {
        CommandView::Quit
    } else if word == "l"@ || word == "load"@ {
        CommandView::Load(command_argument(body))
    } else {
        CommandView::Unknown(word)
    }
}

impl Command {
    /// Whether the command ends the session.
    pub fn quits(&self) -> (quits: bool)
        ensures
            quits == (self@ is Quit),
    {
        match self {
            Command::Quit => true,
            _ => false,
        }
    }
}

/// Reads a command line without its colon. Every text is a command: a word
/// that is not known comes back as `Command::Unknown`.
pub fn parse_command(body: &str) -> (command: Command)
    ensures
        command@ == command_of(body@),
{
    let chars = chars_of(body);
    let n: usize = chars.len();
    let cut: usize = first_space(&chars);
    let word = body.substring_char(0, cut);
    if same_text(word, "h") || same_text(word, "help") {
        Command::Help
    } else if same_text(word, "q") || same_text(word, "quit") {
        Command::Quit
    } else if same_text(word, "l") || same_text(word, "load") {
        if cut < n {
            let path = trim(body.substring_char(cut + 1, n));
            Command::Load(Some(path.to_owned()))
        } else {
            Command::Load(None)
        }
    } else {
        Command::Unknown(word.to_owned())
    }
}

/// What reading a line ended in, as a mathematical value.
pub enum ReadEventView {
    Line(Seq<char>),
    Interrupted,
    EndOfInput,
    Failed(Seq<char>),
}

/// What reading a line ended in.
#[derive(Clone, Debug, PartialEq, Eq)]
pub enum ReadEvent {
    /// A line was read.
    Line(String),
    /// The user interrupted the prompt.
    Interrupted,
    /// The input is at its end.
    EndOfInput,
    /// Reading failed, with this message.
    Failed(String),
}

impl View for ReadEvent {
    type V = ReadEventView;

    open spec fn view(&self) -> ReadEventView {
        match self {
            ReadEvent::Line(line) => ReadEventView::Line(line@),
            ReadEvent::Interrupted => ReadEventView::Interrupted,
            ReadEvent::EndOfInput => ReadEventView::EndOfInput,
            ReadEvent::Failed(reason) => ReadEventView::Failed(reason@),
        }
    }
}

/// What the loop does next, as a mathematical value.
pub enum ReplStepView {
    Skip,
    Run { entry: Seq<char>, command: CommandView },
    Evaluate { entry: Seq<char> },
    Interrupted,
    Finish,
    Fail { reason: Seq<char> },
}

/// What the loop does next.
#[derive(Clone, Debug, PartialEq, Eq)]
pub enum ReplStep {
    /// Nothing: the line was blank. It is not recorded.
    Skip,
    /// Record `entry` in the line history, then carry out `command`.
    Run { entry: String, command: Command },
    /// Record `entry` in the line history, then evaluate it as script text.
    Evaluate { entry: String },
    /// Tell the user that the prompt was interrupted, and read on.
    Interrupted,
    /// End the session: the input is at its end.
    Finish,
    /// Report that reading failed, and end the session.
    Fail { reason: String },
}

impl View for ReplStep {
    type V = ReplStepView;

    open spec fn view(&self) -> ReplStepView {
        match self {
            ReplStep::Skip => ReplStepView::Skip,
            ReplStep::Run { entry, command } => ReplStepView::Run {
                entry: entry@,
                command: command@,
            },
            ReplStep::Evaluate { entry } => ReplStepView::Evaluate { entry: entry@ },
            ReplStep::Interrupted => ReplStepView::Interrupted,
            ReplStep::Finish => ReplStepView::Finish,
            ReplStep::Fail { reason } => ReplStepView::Fail { reason: reason@ },
        }
    }
}

/// The step for a line: a line that is empty once trimmed is skipped; one
/// whose trimmed text begins with a colon is a command, read from what
/// follows the colon; any other is script text. The entry to record is the
/// trimmed line.
pub open spec fn line_step(line: Seq<char>) -> ReplStepView {
    let entry = trimmed(line);
    if entry.len() == 0 {
        ReplStepView::Skip
    } else if entry[0] == ':' {
        ReplStepView::Run { entry, command: command_of(entry.skip(1)) }
    } else {
        ReplStepView::Evaluate { entry }
    }
}

/// The step that follows an event.
pub open spec fn step_of(event: ReadEventView) -> ReplStepView {
    match event {
        ReadEventView::Line(line) => line_step(line),
        ReadEventView::Interrupted => ReplStepView::Interrupted,
        ReadEventView::EndOfInput => ReplStepView::Finish,
        ReadEventView::Failed(reason) => ReplStepView::Fail { reason },
    }
}

/// Whether a step is the last of the session: the input ended, reading
/// failed, or the user asked to quit.
pub open spec fn is_last_step(step: ReplStepView) -> bool {
    match step {
        ReplStepView::Finish => true,
        ReplStepView::Fail { .. } => true,
        ReplStepView::Run { command, .. } => command is Quit,
        _ => false,
    }
}

/// A line that holds nothing but whitespace is skipped.
pub proof fn lemma_blank_line_is_skipped(line: Seq<char>)
    requires
        forall|i: int| 0 <= i < line.len() ==> is_whitespace(#[trigger] line[i]),
    ensures
        line_step(line) is Skip,
{
    lemma_trimmed_bounds(line);
    if trimmed(line).len() > 0 {
        assert(trimmed(line).first() == line[crate::text::trim_start(line)]);
    }
}

impl ReplStep {
    /// Whether this step is the last of the session.
    pub fn ends_session(&self) -> (ends: bool)
        ensures
            ends == is_last_step(self@),
    {
        match self {
            ReplStep::Finish => true,
            ReplStep::Fail { .. } => true,
            ReplStep::Run { command, .. } => command.quits(),
            _ => false,
        }
    }
}

/// The step for one line that was read.
pub fn classify_line(line: &str) -> (step: ReplStep)
    ensures
        step@ == line_step(line@),
{
    let entry = trim(line);
    let chars = chars_of(entry);
    let n: usize = chars.len();
    if n == 0 {
        ReplStep::Skip
    } else if chars[0] == ':' {
        let command = parse_command(entry.substring_char(1, n));
        ReplStep::Run { entry: entry.to_owned(), command }
    } else {
        ReplStep::Evaluate { entry: entry.to_owned() }
    }
}

/// What the loop does after `event`.
pub fn next_step(event: ReadEvent) -> (step: ReplStep)
    ensures
        step@ == step_of(event@),
{
    match event {
        ReadEvent::Line(line) => classify_line(line.as_str()),
        ReadEvent::Interrupted => ReplStep::Interrupted,
        ReadEvent::EndOfInput => ReplStep::Finish,
        ReadEvent::Failed(reason) => ReplStep::Fail { reason },
    }
}

} // verus!
