//! The decisions of the command line front end: which subcommand an
//! argument list names, how the list is to be parsed, and what is run after a
//! parse.

use vstd::prelude::*;

verus! {

/// The subcommands of the tool.
#[derive(Clone, Copy, Debug, PartialEq, Eq, Structural)]
pub enum Subcommand {
    /// Run a WebAssembly file.
    Run,
    /// Manage the cache.
    Cache,
    /// Validate a WebAssembly binary.
    Validate,
    /// Compile a WebAssembly binary.
    Compile,
    /// Compile a WebAssembly binary into a native executable.
    CreateExe,
    /// Print configuration information.
    Config,
    /// Update the tool.
    SelfUpdate,
    /// Inspect a WebAssembly file.
    Inspect,
    /// Run a suite of conformance tests.
    Wast,
}

/// The parsed command line: one subcommand with the arguments handed to it.
#[derive(Debug)]
pub enum WasmerCLIOptions {
    /// Run a WebAssembly file.
    Run(Vec<String>),
    /// Manage the cache.
    Cache(Vec<String>),
    /// Validate a WebAssembly binary.
    Validate(Vec<String>),
    /// Compile a WebAssembly binary.
    Compile(Vec<String>),
    /// Compile a WebAssembly binary into a native executable.
    CreateExe(Vec<String>),
    /// Print configuration information.
    Config(Vec<String>),
    /// Update the tool.
    SelfUpdate(Vec<String>),
    /// Inspect a WebAssembly file.
    Inspect(Vec<String>),
    /// Run a suite of conformance tests.
    Wast(Vec<String>),
}

/// What is to be run: a subcommand and its arguments.
#[derive(Clone, Copy, Debug)]
pub struct Invocation<'a> {
    pub command: Subcommand,
    pub arguments: &'a Vec<String>,
}

impl WasmerCLIOptions {
    /// The subcommand that these options select.
    pub open spec fn subcommand(&self) -> Subcommand {
        match self {
            WasmerCLIOptions::Run(_) => Subcommand::Run,
            WasmerCLIOptions::Cache(_) => Subcommand::Cache,
            WasmerCLIOptions::Validate(_) => Subcommand::Validate,
            WasmerCLIOptions::Compile(_) => Subcommand::Compile,
            WasmerCLIOptions::CreateExe(_) => Subcommand::CreateExe,
            WasmerCLIOptions::Config(_) => Subcommand::Config,
            WasmerCLIOptions::SelfUpdate(_) => Subcommand::SelfUpdate,
            WasmerCLIOptions::Inspect(_) => Subcommand::Inspect,
            WasmerCLIOptions::Wast(_) => Subcommand::Wast,
        }
    }

    /// The arguments that these options carry.
    pub open spec fn arguments(&self) -> Vec<String> {
        match self {
            WasmerCLIOptions::Run(a) => *a,
            WasmerCLIOptions::Cache(a) => *a,
            WasmerCLIOptions::Validate(a) => *a,
            WasmerCLIOptions::Compile(a) => *a,
            WasmerCLIOptions::CreateExe(a) => *a,
            WasmerCLIOptions::Config(a) => *a,
            WasmerCLIOptions::SelfUpdate(a) => *a,
            WasmerCLIOptions::Inspect(a) => *a,
            WasmerCLIOptions::Wast(a) => *a,
        }
    }

    /// Selects what is to be run: the subcommand of these options, with the
    /// arguments they carry.
    pub fn execute(&self) -> (invocation: Invocation<'_>)
        ensures
            invocation.command == self.subcommand(),
            *invocation.arguments == self.arguments(),
    {
        match self {
            WasmerCLIOptions::Run(a) => Invocation { command: Subcommand::Run, arguments: a },
            WasmerCLIOptions::Cache(a) => Invocation { command: Subcommand::Cache, arguments: a },
            WasmerCLIOptions::Validate(a) => Invocation {
                command: Subcommand::Validate,
                arguments: a,
            },
            WasmerCLIOptions::Compile(a) => Invocation {
                command: Subcommand::Compile,
                arguments: a,
            },
            WasmerCLIOptions::CreateExe(a) => Invocation {
                command: Subcommand::CreateExe,
                arguments: a,
            },
            WasmerCLIOptions::Config(a) => Invocation { command: Subcommand::Config, arguments: a },
            WasmerCLIOptions::SelfUpdate(a) => Invocation {
                command: Subcommand::SelfUpdate,
                arguments: a,
            },
            WasmerCLIOptions::Inspect(a) => Invocation {
                command: Subcommand::Inspect,
                arguments: a,
            },
            WasmerCLIOptions::Wast(a) => Invocation { command: Subcommand::Wast, arguments: a },
        }
    }
}

/// Whether two strings hold the same characters.
fn same_text(a: &str, b: &str) -> (same: bool)
    ensures
        same == (a@ == b@),
{
    let left = a.to_owned();
    let right = b.to_owned();
    left == right
}

/// The words that name a subcommand, or ask for the list of them, as the
/// first argument.
pub open spec fn is_subcommand_word(word: Seq<char>) -> bool {
    ||| word == "cache"@
    ||| word == "compile"@
    ||| word == "config"@
    ||| word == "create-exe"@
    ||| word == "help"@
    ||| word == "inspect"@
    ||| word == "run"@
    ||| word == "self-update"@
    ||| word == "validate"@
    ||| word == "wast"@
}

/// Tells whether `word` names a subcommand or asks for help.
pub fn is_subcommand_name(word: &str) -> (known: bool)
    ensures
        known == is_subcommand_word(word@),
{
    same_text(word, "cache") || same_text(word, "compile") || same_text(word, "config")
        || same_text(word, "create-exe") || same_text(word, "help") || same_text(
        word,
        "inspect",
    ) || same_text(word, "run") || same_text(word, "self-update") || same_text(word, "validate")
        || same_text(word, "wast")
}

/// How an argument list is to be parsed.
#[derive(Clone, Copy, Debug, PartialEq, Eq, Structural)]
pub enum ParseMode {
    /// The first argument names a subcommand: the list is parsed as it
    /// stands, and a failure ends the program.
    Subcommand,
    /// The first argument names no subcommand: the list is tried as it
    /// stands, and a failure falls back as `after_parse_error` says.
    Lenient,
}

/// The first argument behind the program's name; the empty word where there
/// is none.
pub open spec fn command_word(args: Seq<String>) -> Seq<char> {
    if args.len() > 1 {
        args[1]@
    } else {
        Seq::empty()
    }
}

/// Chooses how `args`, the program's name included, is to be parsed.
pub fn parse_mode(args: &Vec<String>) -> (mode: ParseMode)
    ensures
        mode == if is_subcommand_word(command_word(args@)) {
            ParseMode::Subcommand
        } else {
            ParseMode::Lenient
        },
{
    if args.len() > 1 {
        if is_subcommand_name(args[1].as_str()) {
            ParseMode::Subcommand
        } else {
            ParseMode::Lenient
        }
    } else {
        proof {
            empty_word_names_nothing();
        }
        ParseMode::Lenient
    }
}

/// The empty word names no subcommand.
pub proof fn empty_word_names_nothing()
    ensures
        !is_subcommand_word(Seq::empty()),
{
    reveal_strlit("cache");
    reveal_strlit("compile");
    reveal_strlit("config");
    reveal_strlit("create-exe");
    reveal_strlit("help");
    reveal_strlit("inspect");
    reveal_strlit("run");
    reveal_strlit("self-update");
    reveal_strlit("validate");
    reveal_strlit("wast");
    assert("cache"@.len() == 5);
    assert("compile"@.len() == 7);
    assert("config"@.len() == 6);
    assert("create-exe"@.len() == 10);
    assert("help"@.len() == 4);
    assert("inspect"@.len() == 7);
    assert("run"@.len() == 3);
    assert("self-update"@.len() == 11);
    assert("validate"@.len() == 8);
    assert("wast"@.len() == 4);
}

/// Why a lenient parse failed.
#[derive(Clone, Copy, Debug, PartialEq, Eq, Structural)]
pub enum ParseErrorKind {
    /// The arguments asked for the version.
    DisplayVersion,
    /// The arguments asked for help.
    DisplayHelp,
    /// Any other failure.
    Other,
}

/// What follows a failed lenient parse.
#[derive(Clone, Copy, Debug, PartialEq, Eq, Structural)]
pub enum Fallback {
    /// Report the failure as it is and end the program.
    Exit,
    /// Parse the arguments again as those of the `run` subcommand.
    RunSubcommand,
}

/// Decides what follows a failed lenient parse: a request for the version or
/// for help is answered once and ends the program, anything else is taken for
/// the arguments of `run`.
pub fn after_parse_error(kind: ParseErrorKind) -> (fallback: Fallback)
    ensures
        fallback == match kind {
            ParseErrorKind::DisplayVersion | ParseErrorKind::DisplayHelp => Fallback::Exit,
            ParseErrorKind::Other => Fallback::RunSubcommand,
        },
{
    match kind {
        ParseErrorKind::DisplayVersion => Fallback::Exit,
        ParseErrorKind::DisplayHelp => Fallback::Exit,
        ParseErrorKind::Other => Fallback::RunSubcommand,
    }
}

} // verus!
