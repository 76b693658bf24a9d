//! The grammar of the command line.
//!
//! The first argument after the program's name is a subcommand. Each subcommand reads the rest by
//! itself: options first, then its own positional arguments, and `--` ends the options. The
//! arguments of `run` that follow the agent's identifier belong to the agent from the first one on
//! that is not an option of `run`.
use vstd::prelude::*;
use vstd::string::*;

use crate::commands::run::RunTransport;
use crate::text;
use crate::text::{chars_of, same_text, string_of};

verus! {

/// A subcommand with its arguments.
#[derive(Debug, Clone, PartialEq, Eq)]
pub enum Commands {
    /// Lists the agents.
    List,
    /// Searches the agents.
    Search {
        /// What to search for.
        agent_id: String,
    },
    /// Installs the package managers that agents need.
    InstallEnv {
        /// Whether to go ahead without asking.
        yes: bool,
    },
    /// Installs an agent.
    Install {
        /// The agent's identifier.
        agent_id: String,
    },
    /// Runs an agent.
    Run {
        /// The agent's identifier.
        agent_id: String,
        /// How the agent is reached.
        transport: RunTransport,
        /// The host to bind.
        host: String,
        /// The port to bind.
        port: u16,
        /// The arguments for the agent.
        args: Vec<String>,
    },
}

/// What a subcommand with its arguments is, apart from how it is stored.
pub enum CommandForm {
    /// Lists the agents.
    List,
    /// Searches the agents.
    Search {
        /// What to search for.
        agent_id: Seq<char>,
    },
    /// Installs the package managers that agents need.
    InstallEnv {
        /// Whether to go ahead without asking.
        yes: bool,
    },
    /// Installs an agent.
    Install {
        /// The agent's identifier.
        agent_id: Seq<char>,
    },
    /// Runs an agent.
    Run {
        /// The agent's identifier.
        agent_id: Seq<char>,
        /// How the agent is reached.
        transport: RunTransport,
        /// The host to bind.
        host: Seq<char>,
        /// The port to bind.
        port: u16,
        /// The arguments for the agent.
        args: Seq<Seq<char>>,
    },
}

impl View for Commands {
    type V = CommandForm;

    open spec fn view(&self) -> CommandForm {
        match *self {
            Commands::List => CommandForm::List,
            Commands::Search { agent_id } => CommandForm::Search { agent_id: agent_id@ },
            Commands::InstallEnv { yes } => CommandForm::InstallEnv { yes },
            Commands::Install { agent_id } => CommandForm::Install { agent_id: agent_id@ },
            Commands::Run { agent_id, transport, host, port, args } => CommandForm::Run {
                agent_id: agent_id@,
                transport,
                host: host@,
                port,
                args: text::texts(args@),
            },
        }
    }
}

/// Why a command line is not carried out.
#[derive(Debug, Clone, Copy, PartialEq, Eq, Structural)]
pub enum CliErrorKind {
    /// The help text was asked for.
    DisplayHelp,
    /// The version was asked for.
    DisplayVersion,
    /// There is no subcommand.
    DisplayHelpOnMissingArgumentOrSubcommand,
    /// There is no such subcommand.
    InvalidSubcommand,
    /// There is no such option, or no place for an argument.
    UnknownArgument,
    /// A flag was given a value.
    TooManyValues,
    /// A required argument is missing.
    MissingRequiredArgument,
    /// An option was given twice.
    ArgumentConflict,
    /// An option has no value, or one that is not among the possible ones.
    InvalidValue,
    /// The value of an option is not of its type.
    ValueValidation,
}

/// The error of a command line that is not carried out.
#[derive(Debug, Clone, Copy, PartialEq, Eq, Structural)]
pub struct CliError {
    kind: CliErrorKind,
}

impl CliError {
    /// Why the command line is not carried out.
    pub closed spec fn why(self) -> CliErrorKind {
        self.kind
    }

    /// Why the command line is not carried out.
    pub fn kind(&self) -> (kind: CliErrorKind)
        ensures
            kind == self.why(),
    {
        self.kind
    }
}

/// A parsed command line.
#[derive(Debug, Clone, PartialEq, Eq)]
pub struct Cli {
    /// The subcommand.
    pub command: Commands,
}

// ---------------------------------------------------------------------------
// Arguments
// ---------------------------------------------------------------------------

/// The texts of the arguments.
pub open spec fn arg_texts(args: Seq<&str>) -> Seq<Seq<char>> {
    args.map_values(|arg: &str| arg@)
}

/// What an argument looks like.
pub enum TokenForm {
    /// `--`, which ends the options.
    Escape,
    /// `--name` or `--name=value`.
    Long {
        /// The name.
        name: Seq<char>,
        /// The value, if there is one.
        value: Option<Seq<char>>,
    },
    /// `-` and at least one letter.
    Short {
        /// The letters.
        letters: Seq<char>,
    },
    /// Anything else, `-` and the empty argument included.
    Plain,
}

/// The length of what stands before the first `=` of a text.
pub open spec fn name_len(text: Seq<char>) -> nat
    decreases text.len(),
{
    if text.len() == 0 || text[0] == '=' {
        0
    } else {
        1 + name_len(text.drop_first())
    }
}

/// What an argument looks like.
pub open spec fn token_form(token: Seq<char>) -> TokenForm {
    if token.len() < 2 || token[0] != '-' {
        TokenForm::Plain
    } else if token[1] != '-' {
        TokenForm::Short { letters: token.skip(1) }
    } else if token.len() == 2 {
        TokenForm::Escape
    } else {
        let rest = token.skip(2);
        let n = name_len(rest) as int;
        TokenForm::Long {
            name: rest.take(n),
            value: if n < rest.len() {
                Some(rest.skip(n + 1))
            } else {
                None
            },
        }
    }
}

/// What an argument looks like.
enum Token {
    Escape,
    Long { name: String, value: Option<String> },
    Short { letters: Vec<char> },
    Plain,
}

impl View for Token {
    type V = TokenForm;

    closed spec fn view(&self) -> TokenForm {
        match *self {
            Token::Escape => TokenForm::Escape,
            Token::Long { name, value } => TokenForm::Long {
                name: name@,
                value: text::text_option(value),
            },
            Token::Short { letters } => TokenForm::Short { letters: letters@ },
            Token::Plain => TokenForm::Plain,
        }
    }
}

/// The characters of `chars` from `start` to `end`.
fn slice_of(chars: &Vec<char>, start: usize, end: usize) -> (part: Vec<char>)
    requires
        start <= end <= chars.len(),
    ensures
        part@ == chars@.subrange(start as int, end as int),
{
    let mut part: Vec<char> = Vec::new();
    let mut i: usize = start;
    while i < end
        invariant
            start <= i <= end <= chars.len(),
            part@ =~= chars@.subrange(start as int, i as int),
        decreases end - i,
    {
        part.push(chars[i]);
        i += 1;
    }
    part
}

/// Tells what an argument looks like.
fn classify(arg: &str) -> (token: Token)
    ensures
        token@ == token_form(arg@),
{
    let chars = chars_of(arg);
    if chars.len() < 2 || chars[0] != '-' {
        return Token::Plain;
    }
    if chars[1] != '-' {
        let letters = slice_of(&chars, 1, chars.len());
        assert(letters@ =~= arg@.skip(1));
        return Token::Short { letters };
    }
    if chars.len() == 2 {
        return Token::Escape;
    }
    let ghost rest = arg@.skip(2);
    let mut end: usize = 2;
    assert(rest.skip(0) =~= rest);
    while end < chars.len() && chars[end] != '='
        invariant
            2 <= end <= chars.len(),
            chars@ == arg@,
            rest == arg@.skip(2),
            name_len(rest) == end - 2 + name_len(rest.skip(end - 2)),
        decreases chars.len() - end,
    {
        assert(rest.skip(end - 2).drop_first() =~= rest.skip(end - 1));
        end += 1;
    }
    let name = slice_of(&chars, 2, end);
    assert(name@ =~= rest.take(end - 2));
    let value = if end < chars.len() {
        let value = slice_of(&chars, end + 1, chars.len());
        assert(value@ =~= rest.skip(end - 1));
        Some(string_of(value.as_slice()))
    } else {
        None
    };
    Token::Long { name: string_of(name.as_slice()), value }
}

// ---------------------------------------------------------------------------
// Subcommands without options of their own
// ---------------------------------------------------------------------------

/// Why a flag is refused by a subcommand that only knows `--help`.
pub open spec fn help_only(token: TokenForm) -> CliErrorKind {
    match token {
        TokenForm::Long { name, value } => if name == "help"@ {
            if value is Some {
                CliErrorKind::TooManyValues
            } else {
                CliErrorKind::DisplayHelp
            }
        } else {
            CliErrorKind::UnknownArgument
        },
        TokenForm::Short { letters } => if letters[0] == 'h' {
            CliErrorKind::DisplayHelp
        } else {
            CliErrorKind::UnknownArgument
        },
        _ => CliErrorKind::UnknownArgument,
    }
}

/// What `list` makes of its arguments: it takes none. `escaped` tells whether `--` was seen.
pub open spec fn list_args(args: Seq<Seq<char>>, escaped: bool) -> Result<(), CliErrorKind>
    decreases args.len(),
{
    if args.len() == 0 {
        Ok(())
    } else if escaped {
        Err(CliErrorKind::UnknownArgument)
    } else {
        match token_form(args[0]) {
            TokenForm::Escape => list_args(args.skip(1), true),
            other => Err(help_only(other)),
        }
    }
}

/// What a subcommand makes of its arguments that takes the identifier of an agent and nothing
/// else. `escaped` tells whether `--` was seen, and `agent_id` is the identifier, once seen.
pub open spec fn agent_id_args(
    args: Seq<Seq<char>>,
    escaped: bool,
    agent_id: Option<Seq<char>>,
) -> Result<Seq<char>, CliErrorKind>
    decreases args.len(),
{
    if args.len() == 0 {
        match agent_id {
            Some(id) => Ok(id),
            None => Err(CliErrorKind::MissingRequiredArgument),
        }
    } else {
        let token = token_form(args[0]);
        if !escaped && token is Escape {
            agent_id_args(args.skip(1), true, agent_id)
        } else if !escaped && !(token is Plain) {
            Err(help_only(token))
        } else if agent_id is None {
            agent_id_args(args.skip(1), escaped, Some(args[0]))
        } else {
            Err(CliErrorKind::UnknownArgument)
        }
    }
}

/// What `install-env` makes of a group of letters.
pub open spec fn yes_letters(letters: Seq<char>, yes: bool) -> Result<bool, CliErrorKind>
    decreases letters.len(),
{
    if letters.len() == 0 {
        Ok(yes)
    } else if letters[0] == 'h' {
        Err(CliErrorKind::DisplayHelp)
    } else if letters[0] != 'y' {
        Err(CliErrorKind::UnknownArgument)
    } else if yes {
        Err(CliErrorKind::ArgumentConflict)
    } else {
        yes_letters(letters.skip(1), true)
    }
}

/// What `install-env` makes of its arguments: `-y` or `--yes`, at most once. `escaped` tells
/// whether `--` was seen, and `yes` whether the flag was.
pub open spec fn install_env_args(args: Seq<Seq<char>>, escaped: bool, yes: bool) -> Result<
    bool,
    CliErrorKind,
>
    decreases args.len(),
{
    if args.len() == 0 {
        Ok(yes)
    } else if escaped {
        Err(CliErrorKind::UnknownArgument)
    } else {
        match token_form(args[0]) {
            TokenForm::Escape => install_env_args(args.skip(1), true, yes),
            TokenForm::Long { name, value } => if name != "yes"@ {
                Err(help_only(token_form(args[0])))
            } else if value is Some {
                Err(CliErrorKind::TooManyValues)
            } else if yes {
                Err(CliErrorKind::ArgumentConflict)
            } else {
                install_env_args(args.skip(1), false, true)
            },
            TokenForm::Short { letters } => match yes_letters(letters, yes) {
                Ok(now) => install_env_args(args.skip(1), false, now),
                Err(kind) => Err(kind),
            },
            TokenForm::Plain => Err(CliErrorKind::UnknownArgument),
        }
    }
}

/// Refuses a flag of a subcommand that only knows `--help`.
fn refuse_flag(token: &Token) -> (kind: CliErrorKind)
    requires
        token@ matches TokenForm::Short { letters } ==> letters.len() > 0,
    ensures
        kind == help_only(token@),
{
    match token {
        Token::Long { name, value } => {
            if !same_text(name.as_str(), "help") {
                CliErrorKind::UnknownArgument
            } else if value.is_some() {
                CliErrorKind::TooManyValues
            } else {
                CliErrorKind::DisplayHelp
            }
        },
        Token::Short { letters } => {
            if letters[0] == 'h' {
                CliErrorKind::DisplayHelp
            } else {
                CliErrorKind::UnknownArgument
            }
        },
        _ => CliErrorKind::UnknownArgument,
    }
}

/// Reads the arguments of `list`, from `at` on.
fn parse_list(args: &[&str], at: usize) -> (parsed: Result<(), CliErrorKind>)
    requires
        at <= args@.len(),
    ensures
        parsed == list_args(arg_texts(args@.skip(at as int)), false),
{
    let ghost rest = arg_texts(args@.skip(at as int));
    if at == args.len() {
        return Ok(());
    }
    assert(rest[0] == args@[at as int]@);
    let token = classify(args[at]);
    match token {
        Token::Escape => {
            assert(list_args(rest.skip(1), true) is Ok <==> at + 1 == args.len());
            if at + 1 == args.len() {
                Ok(())
            } else {
                Err(CliErrorKind::UnknownArgument)
            }
        },
        _ => Err(refuse_flag(&token)),
    }
}

/// Reads the arguments of a subcommand that takes the identifier of an agent, from `at` on.
fn parse_agent_id(args: &[&str], at: usize) -> (parsed: Result<String, CliErrorKind>)
    requires
        at <= args@.len(),
    ensures
        match (parsed, agent_id_args(arg_texts(args@.skip(at as int)), false, None)) {
            (Ok(id), Ok(wanted)) => id@ == wanted,
            (Err(kind), Err(why)) => kind == why,
            _ => false,
        },
{
    let ghost all = agent_id_args(arg_texts(args@.skip(at as int)), false, None);
    let mut escaped: bool = false;
    let mut agent_id: Option<String> = None;
    let mut i: usize = at;
    while i < args.len()
        invariant
            at <= i <= args@.len(),
            all == agent_id_args(arg_texts(args@.skip(at as int)), false, None),
            all == agent_id_args(
                arg_texts(args@.skip(i as int)),
                escaped,
                text::text_option(agent_id),
            ),
        decreases args.len() - i,
    {
        let ghost rest = arg_texts(args@.skip(i as int));
        assert(rest[0] == args@[i as int]@);
        assert(rest.skip(1) =~= arg_texts(args@.skip(i + 1)));
        let token = classify(args[i]);
        let mut positional: bool = escaped;
        if !escaped {
            match token {
                Token::Escape => {
                    escaped = true;
                },
                Token::Plain => {
                    positional = true;
                },
                _ => {
                    return Err(refuse_flag(&token));
                },
            }
        }
        if positional {
            match agent_id {
                Some(_) => {
                    return Err(CliErrorKind::UnknownArgument);
                },
                None => {
                    agent_id = Some(args[i].to_owned());
                },
            }
        }
        i += 1;
    }
    assert(arg_texts(args@.skip(i as int)).len() == 0);
    match agent_id {
        Some(id) => Ok(id),
        None => Err(CliErrorKind::MissingRequiredArgument),
    }
}

/// Reads a group of letters of `install-env`.
fn parse_yes_letters(letters: &Vec<char>, yes: bool) -> (parsed: Result<bool, CliErrorKind>)
    ensures
        parsed == yes_letters(letters@, yes),
{
    let mut now: bool = yes;
    let mut i: usize = 0;
    assert(letters@.skip(0) =~= letters@);
    while i < letters.len()
        invariant
            i <= letters.len(),
            yes_letters(letters@, yes) == yes_letters(letters@.skip(i as int), now),
        decreases letters.len() - i,
    {
        assert(letters@.skip(i as int).skip(1) =~= letters@.skip(i + 1));
        if letters[i] == 'h' {
            return Err(CliErrorKind::DisplayHelp);
        }
        if letters[i] != 'y' {
            return Err(CliErrorKind::UnknownArgument);
        }
        if now {
            return Err(CliErrorKind::ArgumentConflict);
        }
        now = true;
        i += 1;
    }
    Ok(now)
}

/// Reads the arguments of `install-env`, from `at` on.
fn parse_install_env(args: &[&str], at: usize) -> (parsed: Result<bool, CliErrorKind>)
    requires
        at <= args@.len(),
    ensures
        parsed == install_env_args(arg_texts(args@.skip(at as int)), false, false),
{
    let ghost all = install_env_args(arg_texts(args@.skip(at as int)), false, false);
    let mut yes: bool = false;
    let mut i: usize = at;
    while i < args.len()
        invariant
            at <= i <= args@.len(),
            all == install_env_args(arg_texts(args@.skip(at as int)), false, false),
            all == install_env_args(arg_texts(args@.skip(i as int)), false, yes),
        decreases args.len() - i,
    {
        let ghost rest = arg_texts(args@.skip(i as int));
        assert(rest[0] == args@[i as int]@);
        assert(rest.skip(1) =~= arg_texts(args@.skip(i + 1)));
        let token = classify(args[i]);
        match &token {
            Token::Escape => {
                assert(install_env_args(rest.skip(1), true, yes) is Ok <==> i + 1 == args.len());
                if i + 1 == args.len() {
                    return Ok(yes);
                } else {
                    return Err(CliErrorKind::UnknownArgument);
                }
            },
            Token::Long { name, value } => {
                if !same_text(name.as_str(), "yes") {
                    return Err(refuse_flag(&token));
                }
                if value.is_some() {
                    return Err(CliErrorKind::TooManyValues);
                }
                if yes {
                    return Err(CliErrorKind::ArgumentConflict);
                }
                yes = true;
            },
            Token::Short { letters } => {
                match parse_yes_letters(letters, yes) {
                    Ok(now) => {
                        yes = now;
                    },
                    Err(kind) => {
                        return Err(kind);
                    },
                }
            },
            Token::Plain => {
                return Err(CliErrorKind::UnknownArgument);
            },
        }
        i += 1;
    }
    assert(arg_texts(args@.skip(i as int)).len() == 0);
    Ok(yes)
}

// ---------------------------------------------------------------------------
// `run`
// ---------------------------------------------------------------------------

/// The options of `run` that take a value.
#[derive(Debug, Clone, Copy, PartialEq, Eq, Structural)]
pub enum RunOption {
    /// `--transport`.
    Transport,
    /// `--host`.
    Host,
    /// `--port`.
    Port,
}

/// What was seen of the arguments of `run`.
pub struct RunForm {
    /// The agent's identifier, once seen.
    pub agent_id: Option<Seq<char>>,
    /// The transport, once known.
    pub transport: Option<RunTransport>,
    /// The host, once known.
    pub host: Option<Seq<char>>,
    /// The port, once known.
    pub port: Option<u16>,
    /// The option that was seen last, with its value once seen. It is not known to be good yet.
    pub pending: Option<(RunOption, Option<Seq<char>>)>,
    /// Whether `--` was seen.
    pub escaped: bool,
    /// The arguments for the agent. Once there is one, all that follow are too.
    pub args: Seq<Seq<char>>,
}

/// The option of a name.
pub open spec fn run_option(name: Seq<char>) -> Option<RunOption> {
    if name == "transport"@ {
        Some(RunOption::Transport)
    } else if name == "host"@ {
        Some(RunOption::Host)
    } else if name == "port"@ {
        Some(RunOption::Port)
    } else {
        None
    }
}

/// The transport of a name.
pub open spec fn transport_named(value: Seq<char>) -> Option<RunTransport> {
    if value == "stdio"@ {
        Some(RunTransport::Stdio)
    } else if value == "http"@ {
        Some(RunTransport::Http)
    } else if value == "ws"@ {
        Some(RunTransport::Ws)
    } else {
        None
    }
}

/// Whether a text is one or more decimal digits.
pub open spec fn is_digits(text: Seq<char>) -> bool {
    text.len() > 0 && forall|i: int| 0 <= i < text.len() ==> '0' <= #[trigger] text[i] <= '9'
}

/// The number that decimal digits denote.
pub open spec fn digits_value(digits: Seq<char>) -> nat
    decreases digits.len(),
{
    if digits.len() == 0 {
        0
    } else {
        digits_value(digits.drop_last()) * 10 + (digits.last() as nat - 48) as nat
    }
}

/// A number without its sign.
pub open spec fn unsigned_part(value: Seq<char>) -> Seq<char> {
    if value.len() > 0 && (value[0] == '+' || value[0] == '-') {
        value.skip(1)
    } else {
        value
    }
}

/// The port that a text denotes: digits with an optional sign, of a value between 0 and 65535.
pub open spec fn port_number(value: Seq<char>) -> Option<u16> {
    let digits = unsigned_part(value);
    let negative = value.len() > 0 && value[0] == '-';
    if is_digits(digits) && digits_value(digits) <= 65535 && (negative ==> digits_value(digits)
        == 0) {
        Some(digits_value(digits) as u16)
    } else {
        None
    }
}

impl RunForm {
    /// Nothing was seen yet.
    pub open spec fn start() -> RunForm {
        RunForm {
            agent_id: None,
            transport: None,
            host: None,
            port: None,
            pending: None,
            escaped: false,
            args: Seq::empty(),
        }
    }

    /// Gives an option its value. An option has one value, and it has to be a good one.
    pub open spec fn set_option(self, option: RunOption, value: Seq<char>) -> Result<
        RunForm,
        CliErrorKind,
    > {
        match option {
            RunOption::Transport => if self.transport is Some {
                Err(CliErrorKind::ArgumentConflict)
            } else if transport_named(value) is None {
                Err(CliErrorKind::InvalidValue)
            } else {
                Ok(RunForm { transport: transport_named(value), ..self })
            },
            RunOption::Host => if self.host is Some {
                Err(CliErrorKind::ArgumentConflict)
            } else {
                Ok(RunForm { host: Some(value), ..self })
            },
            RunOption::Port => if self.port is Some {
                Err(CliErrorKind::ArgumentConflict)
            } else if port_number(value) is None {
                Err(CliErrorKind::ValueValidation)
            } else {
                Ok(RunForm { port: port_number(value), ..self })
            },
        }
    }

    /// Gives the pending option its value, if there is one.
    pub open spec fn settled(self) -> Result<RunForm, CliErrorKind> {
        let rest = RunForm { pending: None, ..self };
        match self.pending {
            None => Ok(rest),
            Some((option, None)) => Err(CliErrorKind::InvalidValue),
            Some((option, Some(value))) => rest.set_option(option, value),
        }
    }

    /// Takes a positional argument: the agent's identifier first, and then arguments for it.
    pub open spec fn positional(self, token: Seq<char>) -> Result<RunForm, CliErrorKind> {
        match self.settled() {
            Err(kind) => Err(kind),
            Ok(form) => if form.agent_id is None {
                Ok(RunForm { agent_id: Some(token), ..form })
            } else {
                Ok(RunForm { args: form.args.push(token), ..form })
            },
        }
    }

    /// Takes an argument that is not an option of `run`: the value that the pending option awaits,
    /// or a positional argument.
    pub open spec fn value_or_positional(self, token: Seq<char>) -> Result<RunForm, CliErrorKind> {
        match self.pending {
            Some((option, None)) => Ok(RunForm { pending: Some((option, Some(token))), ..self }),
            _ => self.positional(token),
        }
    }

    /// Takes an option with its value, if it came with one.
    pub open spec fn option(self, option: RunOption, value: Option<Seq<char>>) -> Result<
        RunForm,
        CliErrorKind,
    > {
        match (self.settled(), value) {
            (Err(kind), _) => Err(kind),
            (Ok(form), Some(v)) => form.set_option(option, v),
            (Ok(form), None) => Ok(RunForm { pending: Some((option, None)), ..form }),
        }
    }

    /// Takes a request for help, which has to wait for the pending option.
    pub open spec fn help(self) -> CliErrorKind {
        match self.settled() {
            Err(kind) => kind,
            Ok(_) => CliErrorKind::DisplayHelp,
        }
    }

    /// Takes an argument.
    pub open spec fn next(self, token: Seq<char>) -> Result<RunForm, CliErrorKind> {
        if self.args.len() > 0 {
            Ok(RunForm { args: self.args.push(token), ..self })
        } else if self.escaped {
            self.positional(token)
        } else {
            match token_form(token) {
                TokenForm::Escape => Ok(RunForm { escaped: true, ..self }),
                TokenForm::Long { name, value } => if run_option(name) is Some {
                    self.option(run_option(name)->0, value)
                } else if name == "help"@ {
                    if value is Some {
                        Err(CliErrorKind::TooManyValues)
                    } else {
                        Err(self.help())
                    }
                } else if self.agent_id is Some {
                    self.value_or_positional(token)
                } else {
                    Err(CliErrorKind::UnknownArgument)
                },
                TokenForm::Short { letters } => if self.agent_id is Some && exists|i: int|
                    0 <= i < letters.len() && letters[i] != 'h' {
                    self.value_or_positional(token)
                } else if letters[0] == 'h' {
                    Err(self.help())
                } else {
                    Err(CliErrorKind::UnknownArgument)
                },
                TokenForm::Plain => self.value_or_positional(token),
            }
        }
    }

    /// Takes the rest of the arguments.
    pub open spec fn take_all(self, args: Seq<Seq<char>>) -> Result<RunForm, CliErrorKind>
        decreases args.len(),
    {
        if args.len() == 0 {
            Ok(self)
        } else {
            match self.next(args[0]) {
                Ok(form) => form.take_all(args.skip(1)),
                Err(kind) => Err(kind),
            }
        }
    }

    /// What the arguments come to. Options that were not seen have their defaults.
    pub open spec fn finish(self) -> Result<CommandForm, CliErrorKind> {
        match self.settled() {
            Err(kind) => Err(kind),
            Ok(form) => match form.agent_id {
                None => Err(CliErrorKind::MissingRequiredArgument),
                Some(agent_id) => Ok(
                    CommandForm::Run {
                        agent_id,
                        transport: match form.transport {
                            Some(transport) => transport,
                            None => RunTransport::Stdio,
                        },
                        host: match form.host {
                            Some(host) => host,
                            None => "127.0.0.1"@,
                        },
                        port: match form.port {
                            Some(port) => port,
                            None => 0,
                        },
                        args: form.args,
                    },
                ),
            },
        }
    }
}

/// What `run` makes of its arguments.
pub open spec fn run_args(args: Seq<Seq<char>>) -> Result<CommandForm, CliErrorKind> {
    match RunForm::start().take_all(args) {
        Ok(form) => form.finish(),
        Err(kind) => Err(kind),
    }
}

/// What was seen of the arguments of `run`.
struct RunArgs {
    agent_id: Option<String>,
    transport: Option<RunTransport>,
    host: Option<String>,
    port: Option<u16>,
    pending: Option<(RunOption, Option<String>)>,
    escaped: bool,
    args: Vec<String>,
}

impl View for RunArgs {
    type V = RunForm;

    closed spec fn view(&self) -> RunForm {
        RunForm {
            agent_id: text::text_option(self.agent_id),
            transport: self.transport,
            host: text::text_option(self.host),
            port: self.port,
            pending: match self.pending {
                Some((option, value)) => Some((option, text::text_option(value))),
                None => None,
            },
            escaped: self.escaped,
            args: text::texts(self.args@),
        }
    }
}

/// Whether a result is the one that is wanted.
spec fn agrees(result: Result<RunArgs, CliErrorKind>, wanted: Result<RunForm, CliErrorKind>) -> bool {
    match (result, wanted) {
        (Ok(seen), Ok(form)) => seen@ == form,
        (Err(kind), Err(why)) => kind == why,
        _ => false,
    }
}

fn option_named(name: &str) -> (option: Option<RunOption>)
    ensures
        option == run_option(name@),
{
    if same_text(name, "transport") {
        Some(RunOption::Transport)
    } else if same_text(name, "host") {
        Some(RunOption::Host)
    } else if same_text(name, "port") {
        Some(RunOption::Port)
    } else {
        None
    }
}

fn parse_transport(value: &str) -> (transport: Option<RunTransport>)
    ensures
        transport == transport_named(value@),
{
    if same_text(value, "stdio") {
        Some(RunTransport::Stdio)
    } else if same_text(value, "http") {
        Some(RunTransport::Http)
    } else if same_text(value, "ws") {
        Some(RunTransport::Ws)
    } else {
        None
    }
}

/// More digits denote a number that is at least as large.
proof fn lemma_digits_grow(digits: Seq<char>, n: int)
    requires
        0 <= n <= digits.len(),
        forall|i: int| 0 <= i < digits.len() ==> '0' <= #[trigger] digits[i] <= '9',
    ensures
        digits_value(digits.take(n)) <= digits_value(digits),
    decreases digits.len() - n,
{
    if n == digits.len() {
        assert(digits.take(n) =~= digits);
    } else {
        lemma_digits_grow(digits, n + 1);
        assert(digits.take(n + 1).drop_last() =~= digits.take(n));
    }
}

/// The port that `value` denotes, if it denotes one.
pub fn parse_port(value: &str) -> (port: Option<u16>)
    ensures
        port == port_number(value@),
{
    let chars = chars_of(value);
    let mut start: usize = 0;
    let mut negative: bool = false;
    if chars.len() > 0 && (chars[0] == '+' || chars[0] == '-') {
        negative = chars[0] == '-';
        start = 1;
    }
    let ghost digits = unsigned_part(value@);
    assert(digits =~= chars@.skip(start as int));
    if start == chars.len() {
        return None;
    }
    let mut i: usize = start;
    while i < chars.len()
        invariant
            start <= i <= chars.len(),
            digits == unsigned_part(value@),
            digits == chars@.skip(start as int),
            forall|j: int| 0 <= j < i - start ==> '0' <= #[trigger] digits[j] <= '9',
        decreases chars.len() - i,
    {
        let c: char = chars[i];
        assert(digits[i - start] == c);
        if c < '0' || '9' < c {
            return None;
        }
        i += 1;
    }
    assert(is_digits(digits));
    let mut number: u32 = 0;
    let mut k: usize = start;
    assert(digits.take(0) =~= Seq::<char>::empty());
    while k < chars.len()
        invariant
            start <= k <= chars.len(),
            digits == unsigned_part(value@),
            digits == chars@.skip(start as int),
            is_digits(digits),
            number == digits_value(digits.take(k - start)),
            number <= 65535,
        decreases chars.len() - k,
    {
        let c: char = chars[k];
        assert(digits[k - start] == c);
        proof {
            assert(digits.take(k - start + 1).drop_last() =~= digits.take(k - start));
            lemma_digits_grow(digits, k - start + 1);
        }
        number = number * 10 + (c as u32 - 48);
        if number > 65535 {
            return None;
        }
        k += 1;
    }
    assert(digits.take(k - start) =~= digits);
    if negative && number > 0 {
        return None;
    }
    Some(number as u16)
}

impl RunArgs {
    fn new() -> (seen: RunArgs)
        ensures
            seen@ == RunForm::start(),
    {
        let seen = RunArgs {
            agent_id: None,
            transport: None,
            host: None,
            port: None,
            pending: None,
            escaped: false,
            args: Vec::new(),
        };
        assert(seen@.args =~= Seq::<Seq<char>>::empty());
        seen
    }

    fn set_option(self, option: RunOption, value: String) -> (seen: Result<RunArgs, CliErrorKind>)
        ensures
            agrees(seen, self@.set_option(option, value@)),
    {
        let mut seen = self;
        match option {
            RunOption::Transport => {
                if seen.transport.is_some() {
                    return Err(CliErrorKind::ArgumentConflict);
                }
                match parse_transport(value.as_str()) {
                    Some(transport) => {
                        seen.transport = Some(transport);
                    },
                    None => {
                        return Err(CliErrorKind::InvalidValue);
                    },
                }
            },
            RunOption::Host => {
                if seen.host.is_some() {
                    return Err(CliErrorKind::ArgumentConflict);
                }
                seen.host = Some(value);
            },
            RunOption::Port => {
                if seen.port.is_some() {
                    return Err(CliErrorKind::ArgumentConflict);
                }
                match parse_port(value.as_str()) {
                    Some(port) => {
                        seen.port = Some(port);
                    },
                    None => {
                        return Err(CliErrorKind::ValueValidation);
                    },
                }
            },
        }
        Ok(seen)
    }

    fn settled(self) -> (seen: Result<RunArgs, CliErrorKind>)
        ensures
            agrees(seen, self@.settled()),
    {
        let mut seen = self;
        let pending = seen.pending.take();
        match pending {
            None => Ok(seen),
            Some((_, None)) => Err(CliErrorKind::InvalidValue),
            Some((option, Some(value))) => seen.set_option(option, value),
        }
    }

    fn positional(self, token: &str) -> (seen: Result<RunArgs, CliErrorKind>)
        ensures
            agrees(seen, self@.positional(token@)),
    {
        match self.settled() {
            Err(kind) => Err(kind),
            Ok(settled) => {
                let mut seen = settled;
                if seen.agent_id.is_none() {
                    seen.agent_id = Some(token.to_owned());
                } else {
                    let ghost before = seen.args@;
                    seen.args.push(token.to_owned());
                    assert(text::texts(seen.args@) =~= text::texts(before).push(token@));
                }
                Ok(seen)
            },
        }
    }

    fn value_or_positional(self, token: &str) -> (seen: Result<RunArgs, CliErrorKind>)
        ensures
            agrees(seen, self@.value_or_positional(token@)),
    {
        let awaiting = match &self.pending {
            Some((option, None)) => Some(*option),
            _ => None,
        };
        match awaiting {
            Some(option) => {
                let mut seen = self;
                seen.pending = Some((option, Some(token.to_owned())));
                Ok(seen)
            },
            None => self.positional(token),
        }
    }

    fn option(self, option: RunOption, value: Option<String>) -> (seen: Result<
        RunArgs,
        CliErrorKind,
    >)
        ensures
            agrees(seen, self@.option(option, text::text_option(value))),
    {
        match self.settled() {
            Err(kind) => Err(kind),
            Ok(settled) => {
                match value {
                    Some(v) => settled.set_option(option, v),
                    None => {
                        let mut seen = settled;
                        seen.pending = Some((option, None));
                        Ok(seen)
                    },
                }
            },
        }
    }

    fn help(self) -> (kind: CliErrorKind)
        ensures
            kind == self@.help(),
    {
        match self.settled() {
            Err(kind) => kind,
            Ok(_) => CliErrorKind::DisplayHelp,
        }
    }

    fn next(self, arg: &str) -> (seen: Result<RunArgs, CliErrorKind>)
        ensures
            agrees(seen, self@.next(arg@)),
    {
        if self.args.len() > 0 {
            let mut seen = self;
            let ghost before = seen.args@;
            seen.args.push(arg.to_owned());
            assert(text::texts(seen.args@) =~= text::texts(before).push(arg@));
            return Ok(seen);
        }
        if self.escaped {
            return self.positional(arg);
        }
        match classify(arg) {
            Token::Escape => {
                let mut seen = self;
                seen.escaped = true;
                Ok(seen)
            },
            Token::Long { name, value } => {
                match option_named(name.as_str()) {
                    Some(option) => self.option(option, value),
                    None => {
                        if same_text(name.as_str(), "help") {
                            if value.is_some() {
                                Err(CliErrorKind::TooManyValues)
                            } else {
                                Err(self.help())
                            }
                        } else if self.agent_id.is_some() {
                            self.value_or_positional(arg)
                        } else {
                            Err(CliErrorKind::UnknownArgument)
                        }
                    },
                }
            },
            Token::Short { letters } => {
                assert(letters.len() > 0);
                if self.agent_id.is_some() && !only_help(&letters) {
                    self.value_or_positional(arg)
                } else if letters[0] == 'h' {
                    Err(self.help())
                } else {
                    Err(CliErrorKind::UnknownArgument)
                }
            },
            Token::Plain => self.value_or_positional(arg),
        }
    }

    fn finish(self) -> (command: Result<Commands, CliErrorKind>)
        ensures
            match (command, self@.finish()) {
                (Ok(c), Ok(form)) => c@ == form,
                (Err(kind), Err(why)) => kind == why,
                _ => false,
            },
    {
        match self.settled() {
            Err(kind) => Err(kind),
            Ok(seen) => {
                match seen.agent_id {
                    None => Err(CliErrorKind::MissingRequiredArgument),
                    Some(agent_id) => {
                        let transport = match seen.transport {
                            Some(transport) => transport,
                            None => RunTransport::Stdio,
                        };
                        let host = match seen.host {
                            Some(host) => host,
                            None => "127.0.0.1".to_owned(),
                        };
                        let port: u16 = match seen.port {
                            Some(port) => port,
                            None => 0,
                        };
                        Ok(Commands::Run { agent_id, transport, host, port, args: seen.args })
                    },
                }
            },
        }
    }
}

/// Whether every letter is `h`.
fn only_help(letters: &Vec<char>) -> (only: bool)
    ensures
        only == !(exists|i: int| 0 <= i < letters@.len() && letters@[i] != 'h'),
{
    let mut i: usize = 0;
    while i < letters.len()
        invariant
            i <= letters.len(),
            forall|j: int| 0 <= j < i ==> letters@[j] == 'h',
        decreases letters.len() - i,
    {
        if letters[i] != 'h' {
            assert(letters@[i as int] != 'h');
            return false;
        }
        i += 1;
    }
    true
}

/// Reads the arguments of `run`, from `at` on.
fn parse_run(args: &[&str], at: usize) -> (parsed: Result<Commands, CliErrorKind>)
    requires
        at <= args@.len(),
    ensures
        match (parsed, run_args(arg_texts(args@.skip(at as int)))) {
            (Ok(command), Ok(form)) => command@ == form,
            (Err(kind), Err(why)) => kind == why,
            _ => false,
        },
{
    let ghost all = RunForm::start().take_all(arg_texts(args@.skip(at as int)));
    let mut seen = RunArgs::new();
    let mut i: usize = at;
    while i < args.len()
        invariant
            at <= i <= args@.len(),
            all == RunForm::start().take_all(arg_texts(args@.skip(at as int))),
            all == seen@.take_all(arg_texts(args@.skip(i as int))),
        decreases args.len() - i,
    {
        let ghost rest = arg_texts(args@.skip(i as int));
        assert(rest[0] == args@[i as int]@);
        assert(rest.skip(1) =~= arg_texts(args@.skip(i + 1)));
        match seen.next(args[i]) {
            Ok(next) => {
                seen = next;
            },
            Err(kind) => {
                return Err(kind);
            },
        }
        i += 1;
    }
    assert(arg_texts(args@.skip(i as int)).len() == 0);
    seen.finish()
}

// ---------------------------------------------------------------------------
// The command line
// ---------------------------------------------------------------------------

/// Whether a text names a subcommand.
pub open spec fn is_subcommand(name: Seq<char>) -> bool {
    ||| name == "list"@
    ||| name == "search"@
    ||| name == "install-env"@
    ||| name == "install"@
    ||| name == "run"@
    ||| name == "help"@
}

/// What an option before the subcommand comes to.
pub open spec fn root_flag(token: TokenForm) -> CliErrorKind {
    match token {
        TokenForm::Long { name, value } => if name == "help"@ {
            if value is Some {
                CliErrorKind::TooManyValues
            } else {
                CliErrorKind::DisplayHelp
            }
        } else if name == "version"@ {
            if value is Some {
                CliErrorKind::TooManyValues
            } else {
                CliErrorKind::DisplayVersion
            }
        } else {
            CliErrorKind::UnknownArgument
        },
        TokenForm::Short { letters } => if letters[0] == 'h' {
            CliErrorKind::DisplayHelp
        } else if letters[0] == 'V' {
            CliErrorKind::DisplayVersion
        } else {
            CliErrorKind::UnknownArgument
        },
        _ => CliErrorKind::InvalidSubcommand,
    }
}

/// What `help` makes of its arguments: the help text of at most one subcommand.
pub open spec fn help_args(args: Seq<Seq<char>>) -> CliErrorKind {
    if args.len() == 0 || (args.len() == 1 && is_subcommand(args[0])) {
        CliErrorKind::DisplayHelp
    } else {
        CliErrorKind::InvalidSubcommand
    }
}

/// What a command line without the program's name comes to.
pub open spec fn command_args(args: Seq<Seq<char>>) -> Result<CommandForm, CliErrorKind> {
    if args.len() == 0 {
        Err(CliErrorKind::DisplayHelpOnMissingArgumentOrSubcommand)
    } else if args[0] == "list"@ {
        match list_args(args.skip(1), false) {
            Ok(_) => Ok(CommandForm::List),
            Err(kind) => Err(kind),
        }
    } else if args[0] == "search"@ {
        match agent_id_args(args.skip(1), false, None) {
            Ok(agent_id) => Ok(CommandForm::Search { agent_id }),
            Err(kind) => Err(kind),
        }
    } else if args[0] == "install-env"@ {
        match install_env_args(args.skip(1), false, false) {
            Ok(yes) => Ok(CommandForm::InstallEnv { yes }),
            Err(kind) => Err(kind),
        }
    } else if args[0] == "install"@ {
        match agent_id_args(args.skip(1), false, None) {
            Ok(agent_id) => Ok(CommandForm::Install { agent_id }),
            Err(kind) => Err(kind),
        }
    } else if args[0] == "run"@ {
        run_args(args.skip(1))
    } else if args[0] == "help"@ {
        Err(help_args(args.skip(1)))
    } else {
        match token_form(args[0]) {
            TokenForm::Escape => if args.len() == 1 {
                Err(CliErrorKind::DisplayHelpOnMissingArgumentOrSubcommand)
            } else if is_subcommand(args[1]) {
                Err(CliErrorKind::UnknownArgument)
            } else {
                Err(CliErrorKind::InvalidSubcommand)
            },
            other => Err(root_flag(other)),
        }
    }
}

/// What a command line comes to. Its first argument is the program's name.
pub open spec fn command_line(args: Seq<Seq<char>>) -> Result<CommandForm, CliErrorKind> {
    if args.len() == 0 {
        command_args(args)
    } else {
        command_args(args.skip(1))
    }
}

fn names_subcommand(name: &str) -> (found: bool)
    ensures
        found == is_subcommand(name@),
{
    same_text(name, "list") || same_text(name, "search") || same_text(name, "install-env")
        || same_text(name, "install") || same_text(name, "run") || same_text(name, "help")
}

fn parse_root_flag(token: &Token) -> (kind: CliErrorKind)
    requires
        token@ matches TokenForm::Short { letters } ==> letters.len() > 0,
    ensures
        kind == root_flag(token@),
{
    match token {
        Token::Long { name, value } => {
            if same_text(name.as_str(), "help") {
                if value.is_some() {
                    CliErrorKind::TooManyValues
                } else {
                    CliErrorKind::DisplayHelp
                }
            } else if same_text(name.as_str(), "version") {
                if value.is_some() {
                    CliErrorKind::TooManyValues
                } else {
                    CliErrorKind::DisplayVersion
                }
            } else {
                CliErrorKind::UnknownArgument
            }
        },
        Token::Short { letters } => {
            if letters[0] == 'h' {
                CliErrorKind::DisplayHelp
            } else if letters[0] == 'V' {
                CliErrorKind::DisplayVersion
            } else {
                CliErrorKind::UnknownArgument
            }
        },
        _ => CliErrorKind::InvalidSubcommand,
    }
}

fn parse_command(args: &[&str]) -> (parsed: Result<Commands, CliErrorKind>)
    requires
        args@.len() > 0,
    ensures
        match (parsed, command_line(arg_texts(args@))) {
            (Ok(command), Ok(form)) => command@ == form,
            (Err(kind), Err(why)) => kind == why,
            _ => false,
        },
{
    let ghost rest = arg_texts(args@).skip(1);
    if args.len() == 1 {
        assert(rest.len() == 0);
        return Err(CliErrorKind::DisplayHelpOnMissingArgumentOrSubcommand);
    }
    assert(rest[0] == args@[1]@);
    assert(rest.skip(1) =~= arg_texts(args@.skip(2)));
    let name = args[1];
    if same_text(name, "list") {
        return match parse_list(args, 2) {
            Ok(()) => Ok(Commands::List),
            Err(kind) => Err(kind),
        };
    }
    if same_text(name, "search") {
        return match parse_agent_id(args, 2) {
            Ok(agent_id) => Ok(Commands::Search { agent_id }),
            Err(kind) => Err(kind),
        };
    }
    if same_text(name, "install-env") {
        return match parse_install_env(args, 2) {
            Ok(yes) => Ok(Commands::InstallEnv { yes }),
            Err(kind) => Err(kind),
        };
    }
    if same_text(name, "install") {
        return match parse_agent_id(args, 2) {
            Ok(agent_id) => Ok(Commands::Install { agent_id }),
            Err(kind) => Err(kind),
        };
    }
    if same_text(name, "run") {
        return parse_run(args, 2);
    }
    if same_text(name, "help") {
        if args.len() == 2 {
            return Err(CliErrorKind::DisplayHelp);
        }
        assert(rest.skip(1)[0] == args@[2]@);
        if args.len() == 3 && names_subcommand(args[2]) {
            return Err(CliErrorKind::DisplayHelp);
        }
        return Err(CliErrorKind::InvalidSubcommand);
    }
    let token = classify(name);
    match token {
        Token::Escape => {
            if args.len() == 2 {
                Err(CliErrorKind::DisplayHelpOnMissingArgumentOrSubcommand)
            } else {
                assert(rest[1] == args@[2]@);
                if names_subcommand(args[2]) {
                    Err(CliErrorKind::UnknownArgument)
                } else {
                    Err(CliErrorKind::InvalidSubcommand)
                }
            }
        },
        _ => Err(parse_root_flag(&token)),
    }
}

impl Cli {
    /// Reads a command line. Its first argument is the program's name.
    pub fn try_parse_from(args: &[&str]) -> (cli: Result<Cli, CliError>)
        ensures
            match (cli, command_line(arg_texts(args@))) {
                (Ok(parsed), Ok(form)) => parsed.command@ == form,
                (Err(error), Err(kind)) => error.why() == kind,
                _ => false,
            },
    {
        if args.len() == 0 {
            return Err(
                CliError { kind: CliErrorKind::DisplayHelpOnMissingArgumentOrSubcommand },
            );
        }
        match parse_command(args) {
            Ok(command) => Ok(Cli { command }),
            Err(kind) => Err(CliError { kind }),
        }
    }
}

// ---------------------------------------------------------------------------
// Laws
// ---------------------------------------------------------------------------

/// Arguments that follow `--` reach the agent as they are, in order, whatever they look like; and
/// options that are not given have their defaults.
pub proof fn args_after_double_dash_reach_the_agent(
    program: Seq<char>,
    agent_id: Seq<char>,
    args: Seq<Seq<char>>,
)
    requires
        token_form(agent_id) is Plain,
    ensures
        command_line(seq![program, "run"@, agent_id, "--"@] + args) == Ok::<
            CommandForm,
            CliErrorKind,
        >(
            CommandForm::Run {
                agent_id,
                transport: RunTransport::Stdio,
                host: "127.0.0.1"@,
                port: 0,
                args,
            },
        ),
{
    reveal_strlit("--");
    reveal_strlit("run");
    reveal_strlit("list");
    reveal_strlit("search");
    reveal_strlit("install-env");
    reveal_strlit("install");
    let line = seq![program, "run"@, agent_id, "--"@] + args;
    let after_program = line.skip(1);
    assert(after_program[0] == "run"@);
    let tail = after_program.skip(1);
    assert(tail =~= seq![agent_id, "--"@] + args);
    let named = RunForm { agent_id: Some(agent_id), ..RunForm::start() };
    let escaped = RunForm { escaped: true, ..named };
    assert(tail[0] == agent_id);
    assert(RunForm::start().next(agent_id) == Ok::<RunForm, CliErrorKind>(named));
    assert(tail.skip(1) =~= seq!["--"@] + args);
    assert(tail.skip(1)[0] == "--"@);
    assert(named.next("--"@) == Ok::<RunForm, CliErrorKind>(escaped));
    assert(tail.skip(1).skip(1) =~= args);
    assert(RunForm::start().take_all(tail) == named.take_all(tail.skip(1)));
    assert(named.take_all(tail.skip(1)) == escaped.take_all(args));
    lemma_escaped_args(escaped, args);
    assert(Seq::<Seq<char>>::empty() + args =~= args);
    assert("run"@.len() == 3 && "list"@.len() == 4 && "search"@.len() == 6 && "install"@.len() == 7
        && "install-env"@.len() == 11);
}

/// Once `--` was seen and the agent is known, every argument is one for the agent.
proof fn lemma_escaped_args(form: RunForm, args: Seq<Seq<char>>)
    requires
        form.agent_id is Some,
        form.escaped,
        form.pending is None,
    ensures
        form.take_all(args) == Ok::<RunForm, CliErrorKind>(
            RunForm { args: form.args + args, ..form },
        ),
    decreases args.len(),
{
    if args.len() == 0 {
        assert(form.args + args =~= form.args);
    } else {
        let next = RunForm { args: form.args.push(args[0]), ..form };
        assert(form.next(args[0]) == Ok::<RunForm, CliErrorKind>(next));
        lemma_escaped_args(next, args.skip(1));
        assert(next.args + args.skip(1) =~= form.args + args);
    }
}

/// A name that is not a subcommand is refused, whatever follows it.
pub proof fn unknown_subcommands_are_refused(
    program: Seq<char>,
    name: Seq<char>,
    args: Seq<Seq<char>>,
)
    requires
        !is_subcommand(name),
        token_form(name) is Plain,
    ensures
        command_line(seq![program, name] + args) == Err::<CommandForm, CliErrorKind>(
            CliErrorKind::InvalidSubcommand,
        ),
{
    let line = seq![program, name] + args;
    assert(line.skip(1)[0] == name);
}

/// The argument `--name=value` is read as the option `name` with the value `value`.
proof fn lemma_attached_value(name: Seq<char>, value: Seq<char>)
    requires
        name.len() > 0,
        !name.contains('='),
    ensures
        token_form(seq!['-', '-'] + name) == (TokenForm::Long { name, value: None }),
        token_form(seq!['-', '-'] + name + seq!['='] + value) == (TokenForm::Long {
            name,
            value: Some(value),
        }),
{
    let plain = seq!['-', '-'] + name;
    assert(plain.skip(2) =~= name);
    lemma_name_len(name, Seq::empty());
    assert(name + Seq::empty() =~= name);
    assert(name.take(name.len() as int) =~= name);
    let attached = seq!['-', '-'] + name + seq!['='] + value;
    let ending = seq!['='] + value;
    assert(attached.skip(2) =~= name + ending);
    lemma_name_len(name, ending);
    assert((name + ending).take(name.len() as int) =~= name);
    assert((name + ending).skip(name.len() as int + 1) =~= value);
}

proof fn lemma_name_len(name: Seq<char>, ending: Seq<char>)
    requires
        !name.contains('='),
        ending.len() == 0 || ending[0] == '=',
    ensures
        name_len(name + ending) == name.len(),
    decreases name.len(),
{
    if name.len() == 0 {
        assert(name + ending =~= ending);
    } else {
        assert(name[0] != '=');
        assert((name + ending).drop_first() =~= name.drop_first() + ending);
        assert(!name.drop_first().contains('=')) by {
            if name.drop_first().contains('=') {
                let i = choose|i: int|
                    0 <= i < name.drop_first().len() && name.drop_first()[i] == '=';
                assert(name[i + 1] == '=');
            }
        }
        lemma_name_len(name.drop_first(), ending);
    }
}

/// `--name=value` and `--name value` give an option of `run` the same value, or fail alike.
pub proof fn attached_and_separate_values_agree(form: RunForm, name: Seq<char>, value: Seq<char>)
    requires
        run_option(name) is Some,
        token_form(value) is Plain,
        form.args.len() == 0,
        !form.escaped,
    ensures
        ({
            let attached = form.next(seq!['-', '-'] + name + seq!['='] + value);
            let separate = form.take_all(seq![seq!['-', '-'] + name, value]);
            match (attached, separate) {
                (Ok(a), Ok(s)) => a.settled() == s.settled(),
                (Err(kind), Ok(s)) => s.settled() == Err::<RunForm, CliErrorKind>(kind),
                (Err(kind), Err(why)) => kind == why,
                (Ok(a), Err(why)) => false,
            }
        }),
{
    reveal_strlit("transport");
    reveal_strlit("host");
    reveal_strlit("port");
    lemma_attached_value(name, value);
    let long = seq!['-', '-'] + name;
    let both = seq![long, value];
    assert(both[0] == long);
    assert(both.skip(1) =~= seq![value]);
    assert(both.skip(1)[0] == value);
    assert(both.skip(1).skip(1).len() == 0);
    match form.next(long) {
        Ok(waiting) => {
            assert(form.take_all(both) == waiting.take_all(seq![value]));
            let given = waiting.next(value);
            assert(given is Ok);
            assert(waiting.take_all(seq![value]) == given->Ok_0.take_all(both.skip(1).skip(1)));
        },
        Err(kind) => {},
    }
}

/// The names of the subcommands are different.
proof fn lemma_subcommands_differ()
    ensures
        "list"@ != "search"@,
        "list"@ != "install-env"@,
        "list"@ != "install"@,
        "list"@ != "run"@,
        "search"@ != "install-env"@,
        "search"@ != "install"@,
        "search"@ != "run"@,
        "install-env"@ != "install"@,
        "install-env"@ != "run"@,
        "install"@ != "run"@,
{
    reveal_strlit("list");
    reveal_strlit("search");
    reveal_strlit("install-env");
    reveal_strlit("install");
    reveal_strlit("run");
    assert("run"@.len() == 3 && "list"@.len() == 4 && "search"@.len() == 6 && "install"@.len() == 7
        && "install-env"@.len() == 11);
}

/// `search` and `install` take the argument that follows them as it is, unless it begins with `-`;
/// behind `--` they take any argument.
pub proof fn identifiers_are_taken_as_they_are(program: Seq<char>, agent_id: Seq<char>)
    ensures
        agent_id.len() < 2 || agent_id[0] != '-' ==> {
            &&& command_line(seq![program, "search"@, agent_id]) == Ok::<CommandForm, CliErrorKind>(
                CommandForm::Search { agent_id },
            )
            &&& command_line(seq![program, "install"@, agent_id]) == Ok::<
                CommandForm,
                CliErrorKind,
            >(CommandForm::Install { agent_id })
        },
        command_line(seq![program, "search"@, "--"@, agent_id]) == Ok::<CommandForm, CliErrorKind>(
            CommandForm::Search { agent_id },
        ),
        command_line(seq![program, "install"@, "--"@, agent_id]) == Ok::<CommandForm, CliErrorKind>(
            CommandForm::Install { agent_id },
        ),
{
    lemma_subcommands_differ();
    reveal_strlit("--");
    reveal_with_fuel(agent_id_args, 3);
    let plain = seq![agent_id];
    assert(plain.skip(1) =~= Seq::<Seq<char>>::empty());
    let escaped = seq!["--"@, agent_id];
    assert(escaped.skip(1) =~= plain);
    let search = seq![program, "search"@, agent_id];
    assert(search.skip(1)[0] == "search"@);
    assert(search.skip(1).skip(1) =~= plain);
    let install = seq![program, "install"@, agent_id];
    assert(install.skip(1)[0] == "install"@);
    assert(install.skip(1).skip(1) =~= plain);
    let search = seq![program, "search"@, "--"@, agent_id];
    assert(search.skip(1)[0] == "search"@);
    assert(search.skip(1).skip(1) =~= escaped);
    let install = seq![program, "install"@, "--"@, agent_id];
    assert(install.skip(1)[0] == "install"@);
    assert(install.skip(1).skip(1) =~= escaped);
    assert(token_form("--"@) is Escape);
    assert(agent_id_args(plain, true, None) == Ok::<Seq<char>, CliErrorKind>(agent_id));
}

/// `list` and `install-env` take no argument, `install-env` also `-y` or `--yes`. `search`,
/// `install` and `run` do not do without the identifier of an agent.
pub proof fn subcommands_know_their_arguments(program: Seq<char>)
    ensures
        command_line(seq![program, "list"@]) == Ok::<CommandForm, CliErrorKind>(CommandForm::List),
        command_line(seq![program, "install-env"@]) == Ok::<CommandForm, CliErrorKind>(
            CommandForm::InstallEnv { yes: false },
        ),
        command_line(seq![program, "install-env"@, "-y"@]) == Ok::<CommandForm, CliErrorKind>(
            CommandForm::InstallEnv { yes: true },
        ),
        command_line(seq![program, "install-env"@, "--yes"@]) == Ok::<CommandForm, CliErrorKind>(
            CommandForm::InstallEnv { yes: true },
        ),
        command_line(seq![program, "search"@]) == Err::<CommandForm, CliErrorKind>(
            CliErrorKind::MissingRequiredArgument,
        ),
        command_line(seq![program, "install"@]) == Err::<CommandForm, CliErrorKind>(
            CliErrorKind::MissingRequiredArgument,
        ),
        command_line(seq![program, "run"@]) == Err::<CommandForm, CliErrorKind>(
            CliErrorKind::MissingRequiredArgument,
        ),
        command_line(seq![program]) == Err::<CommandForm, CliErrorKind>(
            CliErrorKind::DisplayHelpOnMissingArgumentOrSubcommand,
        ),
{
    lemma_subcommands_differ();
    reveal_strlit("-y");
    reveal_strlit("--yes");
    reveal_strlit("yes");
    reveal_with_fuel(install_env_args, 3);
    reveal_with_fuel(yes_letters, 3);
    let none = Seq::<Seq<char>>::empty();
    assert(seq![program].skip(1) =~= none);
    let line = seq![program, "list"@];
    assert(line.skip(1)[0] == "list"@ && line.skip(1).skip(1) =~= none);
    let line = seq![program, "install-env"@];
    assert(line.skip(1)[0] == "install-env"@ && line.skip(1).skip(1) =~= none);
    let line = seq![program, "search"@];
    assert(line.skip(1)[0] == "search"@ && line.skip(1).skip(1) =~= none);
    let line = seq![program, "install"@];
    assert(line.skip(1)[0] == "install"@ && line.skip(1).skip(1) =~= none);
    let line = seq![program, "run"@];
    assert(line.skip(1)[0] == "run"@ && line.skip(1).skip(1) =~= none);
    let line = seq![program, "install-env"@, "-y"@];
    assert(line.skip(1)[0] == "install-env"@ && line.skip(1).skip(1) =~= seq!["-y"@]);
    assert(seq!["-y"@].skip(1) =~= none);
    let letters = "-y"@.skip(1);
    assert(letters =~= seq!['y']);
    assert(letters.skip(1) =~= Seq::<char>::empty());
    assert(token_form("-y"@) == (TokenForm::Short { letters }));
    let line = seq![program, "install-env"@, "--yes"@];
    assert(line.skip(1)[0] == "install-env"@ && line.skip(1).skip(1) =~= seq!["--yes"@]);
    assert(seq!["--yes"@].skip(1) =~= none);
    assert("--yes"@ =~= seq!['-', '-'] + "yes"@);
    lemma_attached_value("yes"@, Seq::empty());
}

/// From the first argument behind the agent's identifier on that is not an option of `run`, every
/// argument reaches the agent as it is, in order, whatever it looks like. Options that are not
/// given have their defaults.
pub proof fn arguments_behind_the_agent_reach_it(
    program: Seq<char>,
    agent_id: Seq<char>,
    first: Seq<char>,
    rest: Seq<Seq<char>>,
)
    requires
        agent_id.len() < 2 || agent_id[0] != '-',
        first.len() < 2 || first[0] != '-' || (first.len() > 2 && first[1] == '-'
            && !first.contains('=') && first.skip(2) != "transport"@ && first.skip(2) != "host"@
            && first.skip(2) != "port"@ && first.skip(2) != "help"@),
    ensures
        command_line(seq![program, "run"@, agent_id, first] + rest) == Ok::<
            CommandForm,
            CliErrorKind,
        >(
            CommandForm::Run {
                agent_id,
                transport: RunTransport::Stdio,
                host: "127.0.0.1"@,
                port: 0,
                args: seq![first] + rest,
            },
        ),
{
    lemma_subcommands_differ();
    let line = seq![program, "run"@, agent_id, first] + rest;
    assert(line.skip(1)[0] == "run"@);
    let tail = line.skip(1).skip(1);
    assert(tail =~= seq![agent_id, first] + rest);
    let named = RunForm { agent_id: Some(agent_id), ..RunForm::start() };
    let begun = RunForm { args: seq![first], ..named };
    assert(tail[0] == agent_id);
    assert(RunForm::start().next(agent_id) == Ok::<RunForm, CliErrorKind>(named));
    assert(tail.skip(1) =~= seq![first] + rest);
    assert(tail.skip(1)[0] == first);
    if first.len() > 2 && first[0] == '-' && first[1] == '-' {
        let name = first.skip(2);
        assert(!name.contains('=')) by {
            if name.contains('=') {
                let i = choose|i: int| 0 <= i < name.len() && name[i] == '=';
                assert(first[i + 2] == '=');
            }
        }
        assert(first =~= seq!['-', '-'] + name);
        lemma_attached_value(name, Seq::empty());
    }
    assert(Seq::<Seq<char>>::empty().push(first) =~= seq![first]);
    assert(named.next(first) == Ok::<RunForm, CliErrorKind>(begun));
    assert(tail.skip(1).skip(1) =~= rest);
    assert(RunForm::start().take_all(tail) == named.take_all(tail.skip(1)));
    assert(named.take_all(tail.skip(1)) == begun.take_all(rest));
    lemma_begun_args(begun, rest);
}

/// Once there is an argument for the agent, every other is one too.
proof fn lemma_begun_args(form: RunForm, args: Seq<Seq<char>>)
    requires
        form.args.len() > 0,
    ensures
        form.take_all(args) == Ok::<RunForm, CliErrorKind>(
            RunForm { args: form.args + args, ..form },
        ),
    decreases args.len(),
{
    if args.len() == 0 {
        assert(form.args + args =~= form.args);
    } else {
        let next = RunForm { args: form.args.push(args[0]), ..form };
        assert(form.next(args[0]) == Ok::<RunForm, CliErrorKind>(next));
        lemma_begun_args(next, args.skip(1));
        assert(next.args + args.skip(1) =~= form.args + args);
    }
}

/// The decimal numeral of a number denotes that number as a port exactly if the number is at most
/// 65535.
pub proof fn ports_are_read_from_their_numerals(n: nat)
    ensures
        n <= 65535 ==> port_number(text::decimal(n)) == Some(n as u16),
        n > 65535 ==> port_number(text::decimal(n)) is None,
{
    lemma_numeral_value(n);
    let digits = text::decimal(n);
    assert('0' <= digits[0] <= '9');
    assert(unsigned_part(digits) == digits);
}

proof fn lemma_numeral_value(n: nat)
    ensures
        is_digits(text::decimal(n)),
        digits_value(text::decimal(n)) == n,
    decreases n,
{
    if n < 10 {
        let digits = text::decimal(n);
        assert(digits.drop_last() =~= Seq::<char>::empty());
        assert(digits.last() as nat == 48 + n);
        reveal_with_fuel(digits_value, 2);
    } else {
        lemma_numeral_value(n / 10);
        let front = text::decimal(n / 10);
        let digits = text::decimal(n);
        assert(digits.drop_last() =~= front);
        assert(digits.last() as nat == 48 + n % 10);
        assert(digits_value(digits) == digits_value(front) * 10 + n % 10);
        assert forall|i: int| 0 <= i < digits.len() implies '0' <= #[trigger] digits[i] <= '9' by {
            if i < front.len() {
                assert(digits[i] == front[i]);
            }
        }
    }
}

/// A text that is a port has nothing in it but digits, behind a sign at most.
pub proof fn ports_are_digits(value: Seq<char>)
    requires
        port_number(value) is Some,
    ensures
        value.len() > 0,
        forall|i: int| 1 <= i < value.len() ==> '0' <= #[trigger] value[i] <= '9',
        '0' <= value[0] <= '9' || ((value[0] == '+' || value[0] == '-') && value.len() > 1),
{
    let digits = unsigned_part(value);
    if value[0] == '+' || value[0] == '-' {
        assert forall|i: int| 1 <= i < value.len() implies '0' <= #[trigger] value[i] <= '9' by {
            assert(digits[i - 1] == value[i]);
        }
    } else {
        assert(digits[0] == value[0]);
    }
}

/// The options of `run` are read with the values that follow them: the transport by its name, the
/// host as it is, and the port as the number that it is the numeral of.
pub proof fn options_of_run_are_read(
    program: Seq<char>,
    transport: RunTransport,
    host: Seq<char>,
    port: u16,
    agent_id: Seq<char>,
)
    requires
        agent_id.len() < 2 || agent_id[0] != '-',
        host.len() < 2 || host[0] != '-',
    ensures
        command_line(
            seq![
                program,
                "run"@,
                "--transport"@,
                match transport {
                    RunTransport::Stdio => "stdio"@,
                    RunTransport::Http => "http"@,
                    RunTransport::Ws => "ws"@,
                },
                "--host"@,
                host,
                "--port"@,
                text::decimal(port as nat),
                agent_id,
            ],
        ) == Ok::<CommandForm, CliErrorKind>(
            CommandForm::Run { agent_id, transport, host, port, args: Seq::empty() },
        ),
{
    lemma_subcommands_differ();
    reveal_strlit("--transport");
    reveal_strlit("transport");
    reveal_strlit("--host");
    reveal_strlit("host");
    reveal_strlit("--port");
    reveal_strlit("port");
    reveal_strlit("stdio");
    reveal_strlit("http");
    reveal_strlit("ws");
    let named = match transport {
        RunTransport::Stdio => "stdio"@,
        RunTransport::Http => "http"@,
        RunTransport::Ws => "ws"@,
    };
    let number = text::decimal(port as nat);
    assert("stdio"@.len() == 5 && "http"@.len() == 4 && "ws"@.len() == 2);
    assert("stdio"@[0] == 's' && "http"@[0] == 'h' && "ws"@[0] == 'w');
    assert("transport"@[0] == 't' && "host"@[0] == 'h' && "port"@[0] == 'p');
    assert(transport_named(named) == Some(transport));
    assert(token_form(named) is Plain);
    lemma_numeral_value(port as nat);
    ports_are_read_from_their_numerals(port as nat);
    assert('0' <= number[0] <= '9');
    assert(token_form(number) is Plain);
    assert("--transport"@ =~= seq!['-', '-'] + "transport"@);
    assert("--host"@ =~= seq!['-', '-'] + "host"@);
    assert("--port"@ =~= seq!['-', '-'] + "port"@);
    lemma_attached_value("transport"@, Seq::empty());
    lemma_attached_value("host"@, Seq::empty());
    lemma_attached_value("port"@, Seq::empty());
    let line = seq![
        program,
        "run"@,
        "--transport"@,
        named,
        "--host"@,
        host,
        "--port"@,
        number,
        agent_id,
    ];
    assert(line.skip(1)[0] == "run"@);
    let args = line.skip(1).skip(1);
    let f0 = RunForm::start();
    let f1 = RunForm { pending: Some((RunOption::Transport, None)), ..f0 };
    let f2 = RunForm { pending: Some((RunOption::Transport, Some(named))), ..f0 };
    let t = RunForm { transport: Some(transport), ..f0 };
    let f3 = RunForm { pending: Some((RunOption::Host, None)), ..t };
    let f4 = RunForm { pending: Some((RunOption::Host, Some(host))), ..t };
    let h = RunForm { host: Some(host), ..t };
    let f5 = RunForm { pending: Some((RunOption::Port, None)), ..h };
    let f6 = RunForm { pending: Some((RunOption::Port, Some(number))), ..h };
    let p = RunForm { port: Some(port), ..h };
    let f7 = RunForm { agent_id: Some(agent_id), ..p };
    assert(f0.next("--transport"@) == Ok::<RunForm, CliErrorKind>(f1));
    assert(f1.next(named) == Ok::<RunForm, CliErrorKind>(f2));
    assert(f2.settled() == Ok::<RunForm, CliErrorKind>(t));
    assert(f2.next("--host"@) == Ok::<RunForm, CliErrorKind>(f3));
    assert(f3.next(host) == Ok::<RunForm, CliErrorKind>(f4));
    assert(f4.settled() == Ok::<RunForm, CliErrorKind>(h));
    assert(f4.next("--port"@) == Ok::<RunForm, CliErrorKind>(f5));
    assert(f5.next(number) == Ok::<RunForm, CliErrorKind>(f6));
    assert(f6.settled() == Ok::<RunForm, CliErrorKind>(p));
    assert(f6.next(agent_id) == Ok::<RunForm, CliErrorKind>(f7));
    assert(args.len() == 7);
    lemma_take_one(f0, args, 0, f1);
    lemma_take_one(f1, args, 1, f2);
    lemma_take_one(f2, args, 2, f3);
    lemma_take_one(f3, args, 3, f4);
    lemma_take_one(f4, args, 4, f5);
    lemma_take_one(f5, args, 5, f6);
    lemma_take_one(f6, args, 6, f7);
    assert(args.skip(0) =~= args);
    assert(args.skip(7).len() == 0);
    assert(f7.take_all(args.skip(7)) == Ok::<RunForm, CliErrorKind>(f7));
}

proof fn lemma_take_one(form: RunForm, args: Seq<Seq<char>>, i: int, next: RunForm)
    requires
        0 <= i < args.len(),
        form.next(args[i]) == Ok::<RunForm, CliErrorKind>(next),
    ensures
        form.take_all(args.skip(i)) == next.take_all(args.skip(i + 1)),
{
    assert(args.skip(i)[0] == args[i]);
    assert(args.skip(i).skip(1) =~= args.skip(i + 1));
}

/// What a command line is read as holds what the command holds, and nothing is left out.
pub proof fn commands_are_what_was_read(command: Commands)
    ensures
        match (command, command@) {
            (Commands::List, CommandForm::List) => true,
            (Commands::Search { agent_id }, CommandForm::Search { agent_id: id }) => id
                == agent_id@,
            (Commands::InstallEnv { yes }, CommandForm::InstallEnv { yes: y }) => y == yes,
            (Commands::Install { agent_id }, CommandForm::Install { agent_id: id }) => id
                == agent_id@,
            (
                Commands::Run { agent_id, transport, host, port, args },
                CommandForm::Run { agent_id: id, transport: t, host: h, port: p, args: a },
            ) => {
                &&& id == agent_id@
                &&& t == transport
                &&& h == host@
                &&& p == port
                &&& a.len() == args@.len()
                &&& forall|i: int| 0 <= i < args@.len() ==> #[trigger] a[i] == args@[i]@
            },
            _ => false,
        },
{
}

/// There are no other subcommands than `list`, `search`, `install-env`, `install`, `run` and
/// `help`: a command line is carried out only if it names one of them, and any other name is
/// refused, whatever follows it.
pub proof fn only_the_named_subcommands_exist(
    program: Seq<char>,
    name: Seq<char>,
    args: Seq<Seq<char>>,
)
    requires
        name != "list"@,
        name != "search"@,
        name != "install-env"@,
        name != "install"@,
        name != "run"@,
    ensures
        command_line(seq![program, name] + args) is Err,
        name != "help"@ && (name.len() < 2 || name[0] != '-') ==> command_line(
            seq![program, name] + args,
        ) == Err::<CommandForm, CliErrorKind>(CliErrorKind::InvalidSubcommand),
{
    let line = seq![program, name] + args;
    assert(line.skip(1)[0] == name);
}

/// A subcommand leads to its own kind of command and to no other.
pub proof fn subcommands_lead_to_their_own_command(
    program: Seq<char>,
    name: Seq<char>,
    args: Seq<Seq<char>>,
)
    ensures
        command_line(seq![program, name] + args) matches Ok(form) ==> match form {
            CommandForm::List => name == "list"@,
            CommandForm::Search { agent_id } => name == "search"@ && args.contains(agent_id),
            CommandForm::InstallEnv { yes } => name == "install-env"@,
            CommandForm::Install { agent_id } => name == "install"@ && args.contains(agent_id),
            CommandForm::Run { agent_id, transport, host, port, args: given } => name == "run"@,
        },
{
    lemma_subcommands_differ();
    let line = seq![program, name] + args;
    assert(line.skip(1)[0] == name);
    assert(line.skip(1).skip(1) =~= args);
    lemma_identifier_is_given(args, false, None);
}

proof fn lemma_identifier_is_given(
    args: Seq<Seq<char>>,
    escaped: bool,
    agent_id: Option<Seq<char>>,
)
    ensures
        agent_id_args(args, escaped, agent_id) matches Ok(id) ==> args.contains(id) || agent_id
            == Some(id),
    decreases args.len(),
{
    if args.len() > 0 {
        let rest = args.skip(1);
        lemma_identifier_is_given(rest, true, agent_id);
        lemma_identifier_is_given(rest, escaped, Some(args[0]));
        assert(args[0] == args[0] && args.contains(args[0]));
        assert forall|id: Seq<char>| rest.contains(id) implies args.contains(id) by {
            let i = choose|i: int| 0 <= i < rest.len() && rest[i] == id;
            assert(args[i + 1] == id);
        }
    }
}

/// An argument for which a subcommand has no place is refused: any for `list` and `install-env`,
/// and a second one for `search` and `install`.
pub proof fn arguments_without_a_place_are_refused(
    program: Seq<char>,
    agent_id: Seq<char>,
    more: Seq<char>,
    rest: Seq<Seq<char>>,
)
    requires
        agent_id.len() < 2 || agent_id[0] != '-',
        more.len() < 2 || more[0] != '-',
    ensures
        command_line(seq![program, "list"@, more] + rest) == Err::<CommandForm, CliErrorKind>(
            CliErrorKind::UnknownArgument,
        ),
        command_line(seq![program, "install-env"@, more] + rest) == Err::<
            CommandForm,
            CliErrorKind,
        >(CliErrorKind::UnknownArgument),
        command_line(seq![program, "search"@, agent_id, more] + rest) == Err::<
            CommandForm,
            CliErrorKind,
        >(CliErrorKind::UnknownArgument),
        command_line(seq![program, "install"@, agent_id, more] + rest) == Err::<
            CommandForm,
            CliErrorKind,
        >(CliErrorKind::UnknownArgument),
{
    lemma_subcommands_differ();
    reveal_with_fuel(agent_id_args, 3);
    let one = seq![more] + rest;
    let two = seq![agent_id, more] + rest;
    assert(one[0] == more && two[0] == agent_id);
    assert(two.skip(1) =~= one);
    let line = seq![program, "list"@, more] + rest;
    assert(line.skip(1)[0] == "list"@ && line.skip(1).skip(1) =~= one);
    let line = seq![program, "install-env"@, more] + rest;
    assert(line.skip(1)[0] == "install-env"@ && line.skip(1).skip(1) =~= one);
    let line = seq![program, "search"@, agent_id, more] + rest;
    assert(line.skip(1)[0] == "search"@ && line.skip(1).skip(1) =~= two);
    let line = seq![program, "install"@, agent_id, more] + rest;
    assert(line.skip(1)[0] == "install"@ && line.skip(1).skip(1) =~= two);
}

/// `run` has the options `--transport`, `--host` and `--port` and no other: before the agent's
/// identifier, an option of another name is refused.
pub proof fn run_has_three_options(program: Seq<char>, name: Seq<char>, rest: Seq<Seq<char>>)
    requires
        name.len() > 0,
        !name.contains('='),
        name != "transport"@,
        name != "host"@,
        name != "port"@,
        name != "help"@,
    ensures
        command_line(seq![program, "run"@, seq!['-', '-'] + name] + rest) == Err::<
            CommandForm,
            CliErrorKind,
        >(CliErrorKind::UnknownArgument),
{
    lemma_subcommands_differ();
    lemma_attached_value(name, Seq::empty());
    let option = seq!['-', '-'] + name;
    let line = seq![program, "run"@, option] + rest;
    assert(line.skip(1)[0] == "run"@);
    let args = line.skip(1).skip(1);
    assert(args[0] == option);
}

/// An option of `run` has one value: a second one is refused, whatever it is. The transport has to
/// be one of three by its exact name, and the port has to be a number of a port.
pub proof fn options_have_one_good_value(form: RunForm, option: RunOption, value: Seq<char>)
    ensures
        match option {
            RunOption::Transport => form.set_option(option, value) == if form.transport is Some {
                Err::<RunForm, CliErrorKind>(CliErrorKind::ArgumentConflict)
            } else if value == "stdio"@ {
                Ok(RunForm { transport: Some(RunTransport::Stdio), ..form })
            } else if value == "http"@ {
                Ok(RunForm { transport: Some(RunTransport::Http), ..form })
            } else if value == "ws"@ {
                Ok(RunForm { transport: Some(RunTransport::Ws), ..form })
            } else {
                Err(CliErrorKind::InvalidValue)
            },
            RunOption::Host => form.set_option(option, value) == if form.host is Some {
                Err::<RunForm, CliErrorKind>(CliErrorKind::ArgumentConflict)
            } else {
                Ok(RunForm { host: Some(value), ..form })
            },
            RunOption::Port => form.set_option(option, value) == if form.port is Some {
                Err::<RunForm, CliErrorKind>(CliErrorKind::ArgumentConflict)
            } else if port_number(value) is Some {
                Ok(RunForm { port: port_number(value), ..form })
            } else {
                Err(CliErrorKind::ValueValidation)
            },
        },
{
}

/// Digits denote ten times what all but the last of them denote, and the last.
pub proof fn digits_denote_their_number(digits: Seq<char>, last: char)
    requires
        '0' <= last <= '9',
    ensures
        digits_value(digits.push(last)) == 10 * digits_value(digits) + (last as int - '0' as int),
        digits_value(Seq::empty()) == 0,
{
    assert(digits.push(last).drop_last() =~= digits);
}

/// A command line is read with all of its arguments, each as it is.
pub proof fn every_argument_is_read(args: Seq<&str>)
    ensures
        arg_texts(args).len() == args.len(),
        forall|i: int| 0 <= i < args.len() ==> #[trigger] arg_texts(args)[i] == args[i]@,
{
}

/// Before a subcommand and behind one, `--help` and `-h` ask for the help text, and before it
/// `--version` and `-V` for the version, whatever follows.
pub proof fn help_is_given_when_asked_for(program: Seq<char>, rest: Seq<Seq<char>>)
    ensures
        command_line(seq![program, "--help"@] + rest) == Err::<CommandForm, CliErrorKind>(
            CliErrorKind::DisplayHelp,
        ),
        command_line(seq![program, "-h"@] + rest) == Err::<CommandForm, CliErrorKind>(
            CliErrorKind::DisplayHelp,
        ),
        command_line(seq![program, "--version"@] + rest) == Err::<CommandForm, CliErrorKind>(
            CliErrorKind::DisplayVersion,
        ),
        command_line(seq![program, "-V"@] + rest) == Err::<CommandForm, CliErrorKind>(
            CliErrorKind::DisplayVersion,
        ),
        command_line(seq![program, "list"@, "--help"@] + rest) == Err::<CommandForm, CliErrorKind>(
            CliErrorKind::DisplayHelp,
        ),
        command_line(seq![program, "search"@, "--help"@] + rest) == Err::<
            CommandForm,
            CliErrorKind,
        >(CliErrorKind::DisplayHelp),
        command_line(seq![program, "install"@, "-h"@] + rest) == Err::<CommandForm, CliErrorKind>(
            CliErrorKind::DisplayHelp,
        ),
        command_line(seq![program, "run"@, "--help"@] + rest) == Err::<CommandForm, CliErrorKind>(
            CliErrorKind::DisplayHelp,
        ),
{
    lemma_subcommands_differ();
    reveal_strlit("list");
    reveal_strlit("search");
    reveal_strlit("install-env");
    reveal_strlit("install");
    reveal_strlit("run");
    reveal_strlit("help");
    reveal_strlit("version");
    reveal_strlit("transport");
    reveal_strlit("host");
    reveal_strlit("port");
    reveal_strlit("--help");
    reveal_strlit("-h");
    reveal_strlit("--version");
    reveal_strlit("-V");
    assert("list"@[0] == 'l' && "search"@[0] == 's' && "install-env"@[0] == 'i' && "install"@[0]
        == 'i' && "run"@[0] == 'r' && "help"@[0] == 'h' && "version"@[0] == 'v');
    assert("help"@[1] == 'e' && "host"@[1] == 'o' && "transport"@[0] == 't' && "port"@[0] == 'p');
    assert("--help"@[0] == '-' && "-h"@[0] == '-' && "--version"@[0] == '-' && "-V"@[0] == '-');
    assert("--help"@ =~= seq!['-', '-'] + "help"@);
    assert("--version"@ =~= seq!['-', '-'] + "version"@);
    lemma_attached_value("help"@, Seq::empty());
    lemma_attached_value("version"@, Seq::empty());
    let h = "-h"@.skip(1);
    let v = "-V"@.skip(1);
    assert(h[0] == 'h' && v[0] == 'V');
    assert(token_form("-h"@) == (TokenForm::Short { letters: h }));
    assert(token_form("-V"@) == (TokenForm::Short { letters: v }));
    let line = seq![program, "--help"@] + rest;
    assert(line.skip(1)[0] == "--help"@);
    let line = seq![program, "-h"@] + rest;
    assert(line.skip(1)[0] == "-h"@);
    let line = seq![program, "--version"@] + rest;
    assert(line.skip(1)[0] == "--version"@);
    let line = seq![program, "-V"@] + rest;
    assert(line.skip(1)[0] == "-V"@);
    let long = seq!["--help"@] + rest;
    assert(long[0] == "--help"@);
    let short = seq!["-h"@] + rest;
    assert(short[0] == "-h"@);
    let line = seq![program, "list"@, "--help"@] + rest;
    assert(line.skip(1)[0] == "list"@ && line.skip(1).skip(1) =~= long);
    let line = seq![program, "search"@, "--help"@] + rest;
    assert(line.skip(1)[0] == "search"@ && line.skip(1).skip(1) =~= long);
    let line = seq![program, "install"@, "-h"@] + rest;
    assert(line.skip(1)[0] == "install"@ && line.skip(1).skip(1) =~= short);
    let line = seq![program, "run"@, "--help"@] + rest;
    assert(line.skip(1)[0] == "run"@ && line.skip(1).skip(1) =~= long);
    assert(RunForm::start().next("--help"@) == Err::<RunForm, CliErrorKind>(
        CliErrorKind::DisplayHelp,
    ));
}

} // verus!
