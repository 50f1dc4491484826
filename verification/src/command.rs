//! The command vocabulary and its grammar.
//!
//! The first token of a line, folded to ASCII upper case, selects the
//! command; the following tokens are consumed in fixed positional order
//! up to the command's arity. Tokens beyond the arity are ignored: the
//! grammar is prefix-matching, not strict-arity. A line with no tokens,
//! or with an unrecognized first token, is an unknown command; a
//! recognized command missing a required operand names that operand in
//! its error.

use vstd::prelude::*;
use vstd::string::StringExecFns;
use crate::token::is_space;
use crate::token::matches_upper;
use crate::token::tokenize;
use crate::token::tokens_of;
use crate::token::upper_seq;
use crate::token::views_of;
use crate::token::lemma_blank_line_no_tokens;
use crate::token::lemma_tokens_nonempty;

verus! {

/// A fully-validated command, ready for a protocol engine to execute.
/// Each variant carries exactly the operands that operation needs.
#[derive(Debug, PartialEq, Eq)]
pub enum Command {
    /// Change to the parent directory.
    Cdup,
    /// Open a connection to an address; the flag asks for an encrypted
    /// connection.
    Connect(String, bool),
    /// Change the working directory.
    Cwd(String),
    /// Show help.
    Help,
    /// List a directory; no operand means the current directory.
    List(Option<String>),
    /// Trigger a credential exchange.
    Login,
    /// Query a file's modification time.
    Mdtm(String),
    /// Make a directory.
    Mkdir(String),
    /// Keep-alive.
    Noop,
    /// Upload a local file under a remote name.
    Put(String, String),
    /// Print the working directory.
    Pwd,
    /// Quit the session.
    Quit,
    /// Rename a file.
    Rename(String, String),
    /// Download a remote file to a local path.
    Retr(String, String),
    /// Remove a file.
    Rm(String),
    /// Remove a directory.
    Rmdir(String),
    /// Query a file's size.
    Size(String),
}

/// The mathematical model of a [`Command`]: the same variants over
/// sequences of characters.
#[allow(inconsistent_fields)]
pub enum CommandModel {
    /// Change to the parent directory.
    Cdup,
    /// Open a connection; `secure` asks for an encrypted connection.
    Connect { addr: Seq<char>, secure: bool },
    /// Change the working directory.
    Cwd { dir: Seq<char> },
    /// Show help.
    Help,
    /// List a directory; `None` means the current directory.
    List { dir: Option<Seq<char>> },
    /// Trigger a credential exchange.
    Login,
    /// Query a file's modification time.
    Mdtm { file: Seq<char> },
    /// Make a directory.
    Mkdir { file: Seq<char> },
    /// Keep-alive.
    Noop,
    /// Upload a local file under a remote name.
    Put { source: Seq<char>, dest: Seq<char> },
    /// Print the working directory.
    Pwd,
    /// Quit the session.
    Quit,
    /// Rename a file.
    Rename { src: Seq<char>, dest: Seq<char> },
    /// Download a remote file to a local path.
    Retr { file: Seq<char>, dest: Seq<char> },
    /// Remove a file.
    Rm { file: Seq<char> },
    /// Remove a directory.
    Rmdir { file: Seq<char> },
    /// Query a file's size.
    Size { file: Seq<char> },
}

impl View for Command {
    type V = CommandModel;

    open spec fn view(&self) -> CommandModel {
        match self {
            Command::Cdup => CommandModel::Cdup,
            Command::Connect(addr, secure) => CommandModel::Connect {
                addr: addr@,
                secure: *secure,
            },
            Command::Cwd(dir) => CommandModel::Cwd { dir: dir@ },
            Command::Help => CommandModel::Help,
            Command::List(dir) => CommandModel::List {
                dir: match dir {
                    Some(d) => Some(d@),
                    None => None,
                },
            },
            Command::Login => CommandModel::Login,
            Command::Mdtm(file) => CommandModel::Mdtm { file: file@ },
            Command::Mkdir(file) => CommandModel::Mkdir { file: file@ },
            Command::Noop => CommandModel::Noop,
            Command::Put(source, dest) => CommandModel::Put { source: source@, dest: dest@ },
            Command::Pwd => CommandModel::Pwd,
            Command::Quit => CommandModel::Quit,
            Command::Rename(src, dest) => CommandModel::Rename { src: src@, dest: dest@ },
            Command::Retr(file, dest) => CommandModel::Retr { file: file@, dest: dest@ },
            Command::Rm(file) => CommandModel::Rm { file: file@ },
            Command::Rmdir(file) => CommandModel::Rmdir { file: file@ },
            Command::Size(file) => CommandModel::Size { file: file@ },
        }
    }
}

impl CommandModel {
    /// A constructed command is fully valid: every operand it carries is
    /// a non-empty token.
    pub open spec fn wf(self) -> bool {
        match self {
            CommandModel::Cdup => true,
            CommandModel::Connect { addr, .. } => addr.len() > 0,
            CommandModel::Cwd { dir } => dir.len() > 0,
            CommandModel::Help => true,
            CommandModel::List { dir } => dir matches Some(d) ==> d.len() > 0,
            CommandModel::Login => true,
            CommandModel::Mdtm { file } => file.len() > 0,
            CommandModel::Mkdir { file } => file.len() > 0,
            CommandModel::Noop => true,
            CommandModel::Put { source, dest } => source.len() > 0 && dest.len() > 0,
            CommandModel::Pwd => true,
            CommandModel::Quit => true,
            CommandModel::Rename { src, dest } => src.len() > 0 && dest.len() > 0,
            CommandModel::Retr { file, dest } => file.len() > 0 && dest.len() > 0,
            CommandModel::Rm { file } => file.len() > 0,
            CommandModel::Rmdir { file } => file.len() > 0,
            CommandModel::Size { file } => file.len() > 0,
        }
    }
}

/// The named operand a recognized command was missing.
#[derive(Debug, PartialEq, Eq, Clone, Copy)]
pub enum Field {
    /// The address of a connection request.
    Addr,
    /// A directory operand.
    Dir,
    /// A file operand.
    File,
    /// The local file of an upload.
    Source,
    /// The source of a rename.
    Src,
    /// The destination of an upload, download or rename.
    Dest,
}

/// Why a line was rejected: the first token matched no vocabulary entry
/// (or the line was empty), or a recognized command lacked a required
/// operand.
#[derive(Debug, PartialEq, Eq, Clone, Copy)]
pub enum ParseError {
    /// The first token matched no vocabulary entry, or the line had no
    /// tokens at all.
    UnknownCommand,
    /// A recognized command was missing the named operand.
    MissingField(Field),
}

impl Field {
    /// The operand's name as it appears in diagnostics.
    pub open spec fn spec_name(self) -> Seq<char> {
        match self {
            Field::Addr => "addr"@,
            Field::Dir => "dir"@,
            Field::File => "file"@,
            Field::Source => "source"@,
            Field::Src => "src"@,
            Field::Dest => "dest"@,
        }
    }

    /// The operand's name as it appears in diagnostics.
    pub fn name(&self) -> (s: &'static str)
        ensures
            s@ == self.spec_name(),
    {
        match self {
            Field::Addr => "addr",
            Field::Dir => "dir",
            Field::File => "file",
            Field::Source => "source",
            Field::Src => "src",
            Field::Dest => "dest",
        }
    }
}

impl ParseError {
    /// The diagnostic text of this error.
    pub open spec fn spec_message(self) -> Seq<char> {
        match self {
            ParseError::UnknownCommand => "Unknown command"@,
            ParseError::MissingField(f) => "Missing `"@ + f.spec_name() + "` field"@,
        }
    }

    /// The diagnostic text of this error, for presentation to the user.
    pub fn message(&self) -> (s: String)
        ensures
            s@ == self.spec_message(),
    {
        match self {
            ParseError::UnknownCommand => String::from_str("Unknown command"),
            ParseError::MissingField(f) => {
                let head = String::from_str("Missing `");
                let head = head.concat(f.name());
                head.concat("` field")
            },
        }
    }
}

/// What a line of tokens parses to: the first token, folded to ASCII
/// upper case, selects the command; the following tokens fill its
/// operands in fixed positional order; tokens beyond the command's arity
/// are ignored.
pub open spec fn parse_tokens(t: Seq<Seq<char>>) -> Result<CommandModel, ParseError> {
    if t.len() == 0 {
        Err(ParseError::UnknownCommand)
    } else {
        let name = upper_seq(t[0]);
        if name == "CDUP"@ {
            Ok(CommandModel::Cdup)
        } else if name == "CONNECT"@ {
            if t.len() >= 2 {
                Ok(CommandModel::Connect { addr: t[1], secure: false })
            } else {
                Err(ParseError::MissingField(Field::Addr))
            }
        } else if name == "CONNECT+S"@ {
            if t.len() >= 2 {
                Ok(CommandModel::Connect { addr: t[1], secure: true })
            } else {
                Err(ParseError::MissingField(Field::Addr))
            }
        } else if name == "CWD"@ {
            if t.len() >= 2 {
                Ok(CommandModel::Cwd { dir: t[1] })
            } else {
                Err(ParseError::MissingField(Field::Dir))
            }
        } else if name == "HELP"@ {
            Ok(CommandModel::Help)
        } else if name == "LIST"@ {
            if t.len() >= 2 {
                Ok(CommandModel::List { dir: Some(t[1]) })
            } else {
                Ok(CommandModel::List { dir: None })
            }
        } else if name == "LOGIN"@ {
            Ok(CommandModel::Login)
        } else if name == "MDTM"@ {
            if t.len() >= 2 {
                Ok(CommandModel::Mdtm { file: t[1] })
            } else {
                Err(ParseError::MissingField(Field::File))
            }
        } else if name == "MKDIR"@ {
            if t.len() >= 2 {
                Ok(CommandModel::Mkdir { file: t[1] })
            } else {
                Err(ParseError::MissingField(Field::File))
            }
        } else if name == "NOOP"@ {
            Ok(CommandModel::Noop)
        } else if name == "PUT"@ {
            if t.len() < 2 {
                Err(ParseError::MissingField(Field::Source))
            } else if t.len() < 3 {
                Err(ParseError::MissingField(Field::Dest))
            } else {
                Ok(CommandModel::Put { source: t[1], dest: t[2] })
            }
        } else if name == "PWD"@ {
            Ok(CommandModel::Pwd)
        } else if name == "QUIT"@ {
            Ok(CommandModel::Quit)
        } else if name == "RENAME"@ {
            if t.len() < 2 {
                Err(ParseError::MissingField(Field::Src))
            } else if t.len() < 3 {
                Err(ParseError::MissingField(Field::Dest))
            } else {
                Ok(CommandModel::Rename { src: t[1], dest: t[2] })
            }
        } else if name == "RETR"@ {
            if t.len() < 2 {
                Err(ParseError::MissingField(Field::File))
            } else if t.len() < 3 {
                Err(ParseError::MissingField(Field::Dest))
            } else {
                Ok(CommandModel::Retr { file: t[1], dest: t[2] })
            }
        } else if name == "RM"@ {
            if t.len() >= 2 {
                Ok(CommandModel::Rm { file: t[1] })
            } else {
                Err(ParseError::MissingField(Field::File))
            }
        } else if name == "RMDIR"@ {
            if t.len() >= 2 {
                Ok(CommandModel::Rmdir { file: t[1] })
            } else {
                Err(ParseError::MissingField(Field::File))
            }
        } else if name == "SIZE"@ {
            if t.len() >= 2 {
                Ok(CommandModel::Size { file: t[1] })
            } else {
                Err(ParseError::MissingField(Field::File))
            }
        } else {
            Err(ParseError::UnknownCommand)
        }
    }
}

/// What a whole line parses to: its tokens, fed to the grammar.
pub open spec fn parse_spec(line: Seq<char>) -> Result<CommandModel, ParseError> {
    parse_tokens(tokens_of(line))
}

/// The model of a parse result: a parsed command is abstracted to its
/// view, an error is kept as it is.
pub open spec fn result_model(r: Result<Command, ParseError>) -> Result<
    CommandModel,
    ParseError,
> {
    match r {
        Ok(c) => Ok(c@),
        Err(e) => Err(e),
    }
}

fn parse_token_vec(toks: &Vec<String>) -> (r: Result<Command, ParseError>)
    ensures
        result_model(r) == parse_tokens(views_of(toks@)),
{
    if toks.len() == 0 {
        return Err(ParseError::UnknownCommand);
    }
    let name = toks[0].as_str();
    if matches_upper(name, "CDUP") {
        Ok(Command::Cdup)
    } else if matches_upper(name, "CONNECT") {
        if toks.len() >= 2 {
            Ok(Command::Connect(toks[1].clone(), false))
        } else {
            Err(ParseError::MissingField(Field::Addr))
        }
    } else if matches_upper(name, "CONNECT+S") {
        if toks.len() >= 2 {
            Ok(Command::Connect(toks[1].clone(), true))
        } else {
            Err(ParseError::MissingField(Field::Addr))
        }
    } else if matches_upper(name, "CWD") {
        if toks.len() >= 2 {
            Ok(Command::Cwd(toks[1].clone()))
        } else {
            Err(ParseError::MissingField(Field::Dir))
        }
    } else if matches_upper(name, "HELP") {
        Ok(Command::Help)
    } else if matches_upper(name, "LIST") {
        if toks.len() >= 2 {
            Ok(Command::List(Some(toks[1].clone())))
        } else {
            Ok(Command::List(None))
        }
    } else if matches_upper(name, "LOGIN") {
        Ok(Command::Login)
    } else if matches_upper(name, "MDTM") {
        if toks.len() >= 2 {
            Ok(Command::Mdtm(toks[1].clone()))
        } else {
            Err(ParseError::MissingField(Field::File))
        }
    } else if matches_upper(name, "MKDIR") {
        if toks.len() >= 2 {
            Ok(Command::Mkdir(toks[1].clone()))
        } else {
            Err(ParseError::MissingField(Field::File))
        }
    } else if matches_upper(name, "NOOP") {
        Ok(Command::Noop)
    } else if matches_upper(name, "PUT") {
        if toks.len() < 2 {
            Err(ParseError::MissingField(Field::Source))
        } else if toks.len() < 3 {
            Err(ParseError::MissingField(Field::Dest))
        } else {
            Ok(Command::Put(toks[1].clone(), toks[2].clone()))
        }
    } else if matches_upper(name, "PWD") {
        Ok(Command::Pwd)
    } else if matches_upper(name, "QUIT") {
        Ok(Command::Quit)
    } else if matches_upper(name, "RENAME") {
        if toks.len() < 2 {
            Err(ParseError::MissingField(Field::Src))
        } else if toks.len() < 3 {
            Err(ParseError::MissingField(Field::Dest))
        } else {
            Ok(Command::Rename(toks[1].clone(), toks[2].clone()))
        }
    } else if matches_upper(name, "RETR") {
        if toks.len() < 2 {
            Err(ParseError::MissingField(Field::File))
        } else if toks.len() < 3 {
            Err(ParseError::MissingField(Field::Dest))
        } else {
            Ok(Command::Retr(toks[1].clone(), toks[2].clone()))
        }
    } else if matches_upper(name, "RM") {
        if toks.len() >= 2 {
            Ok(Command::Rm(toks[1].clone()))
        } else {
            Err(ParseError::MissingField(Field::File))
        }
    } else if matches_upper(name, "RMDIR") {
        if toks.len() >= 2 {
            Ok(Command::Rmdir(toks[1].clone()))
        } else {
            Err(ParseError::MissingField(Field::File))
        }
    } else if matches_upper(name, "SIZE") {
        if toks.len() >= 2 {
            Ok(Command::Size(toks[1].clone()))
        } else {
            Err(ParseError::MissingField(Field::File))
        }
    } else {
        Err(ParseError::UnknownCommand)
    }
}

impl Command {
    /// Parses one line of user input: the line is split into
    /// whitespace-delimited tokens and fed to the grammar. The result is
    /// exactly what [`parse_spec`] says of the line, and a parsed command
    /// is fully valid: each of its operands is a non-empty token.
    pub fn from_str(s: &str) -> (r: Result<Command, ParseError>)
        ensures
            result_model(r) == parse_spec(s@),
            r matches Ok(c) ==> c@.wf(),
    {
        let toks = tokenize(s);
        let r = parse_token_vec(&toks);
        proof {
            lemma_tokens_nonempty(s@);
            lemma_parse_wf(tokens_of(s@));
        }
        r
    }
}

/// A parse over non-empty tokens yields a fully valid command: every
/// operand of the parsed command is one of the tokens.
proof fn lemma_parse_wf(t: Seq<Seq<char>>)
    requires
        forall|i: int| 0 <= i < t.len() ==> #[trigger] t[i].len() > 0,
    ensures
        parse_tokens(t) matches Ok(c) ==> c.wf(),
{
}

/// Whether a folded command name is one of the vocabulary's entries.
pub open spec fn is_keyword(name: Seq<char>) -> bool {
    ||| name == "CDUP"@
    ||| name == "CONNECT"@
    ||| name == "CONNECT+S"@
    ||| name == "CWD"@
    ||| name == "HELP"@
    ||| name == "LIST"@
    ||| name == "LOGIN"@
    ||| name == "MDTM"@
    ||| name == "MKDIR"@
    ||| name == "NOOP"@
    ||| name == "PUT"@
    ||| name == "PWD"@
    ||| name == "QUIT"@
    ||| name == "RENAME"@
    ||| name == "RETR"@
    ||| name == "RM"@
    ||| name == "RMDIR"@
    ||| name == "SIZE"@
}

/// Parsing is a pure function of the line: two parses of the same line
/// yield the same result, with no hidden state.
pub proof fn lemma_parse_deterministic(
    line: Seq<char>,
    r1: Result<CommandModel, ParseError>,
    r2: Result<CommandModel, ParseError>,
)
    requires
        r1 == parse_spec(line),
        r2 == parse_spec(line),
    ensures
        r1 == r2,
{
}

/// Command-name matching is case-insensitive: two token lines whose
/// first tokens fold to the same upper-case word, and whose remaining
/// tokens agree, parse to the same result.
pub proof fn lemma_case_insensitive(t1: Seq<Seq<char>>, t2: Seq<Seq<char>>)
    requires
        t1.len() == t2.len(),
        t1.len() > 0,
        upper_seq(t1[0]) == upper_seq(t2[0]),
        forall|i: int| 1 <= i < t1.len() ==> t1[i] == t2[i],
    ensures
        parse_tokens(t1) == parse_tokens(t2),
{
    if t1.len() >= 2 {
        assert(t1[1] == t2[1]);
    }
    if t1.len() >= 3 {
        assert(t1[2] == t2[2]);
    }
}

/// Extra trailing tokens beyond a command's arity never turn success
/// into failure: a line that parses keeps parsing when tokens are
/// appended.
pub proof fn lemma_extra_tokens_keep_success(t: Seq<Seq<char>>, extra: Seq<Seq<char>>)
    requires
        parse_tokens(t) is Ok,
    ensures
        parse_tokens(t + extra) is Ok,
{
    assert((t + extra)[0] == t[0]);
    if t.len() >= 2 {
        assert((t + extra)[1] == t[1]);
    }
    if t.len() >= 3 {
        assert((t + extra)[2] == t[2]);
    }
}

/// The grammar is prefix-matching: the command name and at most two
/// operands — the first three tokens — alone determine the result.
pub proof fn lemma_prefix_matching(t: Seq<Seq<char>>)
    requires
        t.len() >= 3,
    ensures
        parse_tokens(t) == parse_tokens(t.take(3)),
{
    assert(t.take(3)[0] == t[0]);
    assert(t.take(3)[1] == t[1]);
    assert(t.take(3)[2] == t[2]);
}

/// An empty line, or one of nothing but whitespace, has no tokens and
/// is rejected as an unknown command.
pub proof fn lemma_blank_line_rejected(line: Seq<char>)
    requires
        forall|i: int| 0 <= i < line.len() ==> is_space(#[trigger] line[i]),
    ensures
        parse_spec(line) == Err::<CommandModel, ParseError>(ParseError::UnknownCommand),
{
    lemma_blank_line_no_tokens(line);
}

/// The unknown-command rejection comes exactly on a line with no tokens
/// or a first token that folds to no vocabulary entry; a recognized
/// command never yields it.
pub proof fn lemma_unknown_exactly_when(t: Seq<Seq<char>>)
    ensures
        parse_tokens(t) == Err::<CommandModel, ParseError>(ParseError::UnknownCommand) <==> (
        t.len() == 0 || !is_keyword(upper_seq(t[0]))),
{
}

} // verus!
