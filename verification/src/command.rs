//! The command grammar: from the tokens of a command line to a command.

use vstd::prelude::*;
use crate::error::ParseError;
use crate::text::texts;

verus! {

/// What the user asks for.
#[derive(Clone, Debug, PartialEq, Eq)]
pub enum Command {
    /// Create the list, or empty it where it exists.
    AddList(String),
    /// Delete the list.
    RemoveList(String),
    /// Show the items of the list.
    ShowList(String),
    /// Append an item (second) to the list (first).
    AddItemToList(String, String),
    /// Take an item (second) out of the list (first).
    RemoveItemFromList(String, String),
    /// Show how the program is used.
    Help,
}

/// A command with its names as sequences of characters.
pub enum CommandView {
    AddList(Seq<char>),
    RemoveList(Seq<char>),
    ShowList(Seq<char>),
    AddItemToList(Seq<char>, Seq<char>),
    RemoveItemFromList(Seq<char>, Seq<char>),
    Help,
}

impl View for Command {
    type V = CommandView;

    open spec fn view(&self) -> CommandView {
        match *self {
            Command::AddList(list) => CommandView::AddList(list@),
            Command::RemoveList(list) => CommandView::RemoveList(list@),
            Command::ShowList(list) => CommandView::ShowList(list@),
            Command::AddItemToList(list, item) => CommandView::AddItemToList(list@, item@),
            Command::RemoveItemFromList(list, item) => CommandView::RemoveItemFromList(
                list@,
                item@,
            ),
            Command::Help => CommandView::Help,
        }
    }
}

impl Command {
    /// Whether the command reads the list file. `Help` alone does not.
    pub fn uses_store(&self) -> (r: bool)
        ensures
            r == !(self@ is Help),
    {
        match self {
            Command::Help => false,
            _ => true,
        }
    }
}

/// The tokens of a command line without the program name in front.
pub open spec fn after_program_name(raw: Seq<String>) -> Seq<String> {
    if raw.len() == 0 {
        raw
    } else {
        raw.drop_first()
    }
}

/// What collecting the raw arguments gives: the tokens after the program
/// name where they are one, two or three, and an arity error otherwise.
pub open spec fn collected(raw: Seq<String>) -> Result<Seq<String>, ParseError> {
    let tokens = after_program_name(raw);
    if 1 <= tokens.len() <= 3 {
        Ok(tokens)
    } else {
        Err(ParseError::Arity)
    }
}

/// Drops the program name from the raw arguments and hands back the rest,
/// which must be one, two or three tokens.
pub fn count_and_collect_args(raw: Vec<String>) -> (r: Result<Vec<String>, ParseError>)
    ensures
        match r {
            Ok(tokens) => collected(raw@) == Ok::<Seq<String>, ParseError>(tokens@),
            Err(e) => collected(raw@) == Err::<Seq<String>, ParseError>(e),
        },
{
    let mut tokens = raw;
    if tokens.len() > 0 {
        let _ = tokens.remove(0);
    }
    let count: usize = tokens.len();
    if 1 <= count && count <= 3 {
        Ok(tokens)
    } else {
        Err(ParseError::Arity)
    }
}

/// Whether a token asks for the usage text: `help`, `-h` or `--help`.
pub open spec fn asks_for_help(token: Seq<char>) -> bool {
    token == "help"@ || token == "-h"@ || token == "--help"@
}

/// The command that a line of tokens stands for. The first token is the
/// verb, compared letter for letter; the second names the list and the third
/// the item. Tokens after the third are not looked at.
pub open spec fn parsed(tokens: Seq<Seq<char>>) -> Result<CommandView, ParseError>
    recommends
        tokens.len() >= 1,
{
    let verb = tokens[0];
    if asks_for_help(verb) {
        Ok(CommandView::Help)
    } else if verb != "add"@ && verb != "remove"@ && verb != "show"@ {
        Err(ParseError::UnknownCommand)
    } else if tokens.len() < 2 {
        Err(ParseError::MissingListName)
    } else if tokens.len() == 2 {
        if verb == "add"@ {
            Ok(CommandView::AddList(tokens[1]))
        } else if verb == "remove"@ {
            Ok(CommandView::RemoveList(tokens[1]))
        } else {
            Ok(CommandView::ShowList(tokens[1]))
        }
    } else {
        if verb == "add"@ {
            Ok(CommandView::AddItemToList(tokens[1], tokens[2]))
        } else if verb == "remove"@ {
            Ok(CommandView::RemoveItemFromList(tokens[1], tokens[2]))
        } else {
            Err(ParseError::TooManyArguments)
        }
    }
}

/// A call for help in the first place gives `Help`, whatever follows it.
pub proof fn law_help_wins(tokens: Seq<Seq<char>>)
    requires
        tokens.len() >= 1,
        asks_for_help(tokens[0]),
    ensures
        parsed(tokens) == Ok::<CommandView, ParseError>(CommandView::Help),
{
}

/// Whether a token is the given word.
fn is_word(token: &String, word: &str) -> (r: bool)
    ensures
        r == (token@ == word@),
{
    let owned: String = word.to_owned();
    *token == owned
}

/// Reads a command from the tokens of a command line. A call for help wins
/// over whatever follows it.
pub fn validate_command(args: Vec<String>) -> (r: Result<Command, ParseError>)
    requires
        args@.len() >= 1,
    ensures
        match r {
            Ok(command) => parsed(texts(args@)) == Ok::<CommandView, ParseError>(command@),
            Err(e) => parsed(texts(args@)) == Err::<CommandView, ParseError>(e),
        },
        asks_for_help(args@[0]@) ==> r matches Ok(Command::Help),
{
    let mut args = args;
    let ghost tokens = texts(args@);
    if is_word(&args[0], "help") || is_word(&args[0], "-h") || is_word(&args[0], "--help") {
        return Ok(Command::Help);
    }
    let adds = is_word(&args[0], "add");
    let removes = is_word(&args[0], "remove");
    if !adds && !removes && !is_word(&args[0], "show") {
        return Err(ParseError::UnknownCommand);
    }
    if args.len() < 2 {
        return Err(ParseError::MissingListName);
    }
    if args.len() == 2 {
        let list = args.remove(1);
        assert(list@ == tokens[1]);
        return Ok(
            if adds {
                Command::AddList(list)
            } else if removes {
                Command::RemoveList(list)
            } else {
                Command::ShowList(list)
            },
        );
    }
    let item = args.remove(2);
    let list = args.remove(1);
    assert(list@ == tokens[1] && item@ == tokens[2]);
    if adds {
        Ok(Command::AddItemToList(list, item))
    } else if removes {
        Ok(Command::RemoveItemFromList(list, item))
    } else {
        Err(ParseError::TooManyArguments)
    }
}

} // verus!
