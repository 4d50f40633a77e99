use wasmer_dylib::cli::after_parse_error;
use wasmer_dylib::cli::is_subcommand_name;
use wasmer_dylib::cli::parse_mode;
use wasmer_dylib::cli::Fallback;
use wasmer_dylib::cli::ParseErrorKind;
use wasmer_dylib::cli::ParseMode;
use wasmer_dylib::cli::Subcommand;
use wasmer_dylib::cli::WasmerCLIOptions;

fn words(list: &[&str]) -> Vec<String> {
    list.iter().map(|word| word.to_string()).collect()
}

#[test]
fn subcommand_words_are_known() {
    for word in [
        "cache",
        "compile",
        "config",
        "create-exe",
        "help",
        "inspect",
        "run",
        "self-update",
        "validate",
        "wast",
    ] {
        assert!(is_subcommand_name(word));
    }
}

#[test]
fn other_words_are_not_subcommands() {
    for word in ["", "Run", "run ", "file.wasm", "--help", "-V", "selfupdate", "create_exe"] {
        assert!(!is_subcommand_name(word));
    }
}

#[test]
fn first_argument_chooses_the_parse() {
    assert_eq!(parse_mode(&words(&["wasmer", "run", "file.wasm"])), ParseMode::Subcommand);
    assert_eq!(parse_mode(&words(&["wasmer", "help"])), ParseMode::Subcommand);
    assert_eq!(parse_mode(&words(&["wasmer", "file.wasm", "--dir=."])), ParseMode::Lenient);
    assert_eq!(parse_mode(&words(&["wasmer", "--version"])), ParseMode::Lenient);
    assert_eq!(parse_mode(&words(&["wasmer"])), ParseMode::Lenient);
    assert_eq!(parse_mode(&words(&[])), ParseMode::Lenient);
    assert_eq!(parse_mode(&words(&["run"])), ParseMode::Lenient);
    assert_eq!(parse_mode(&words(&["wasmer", "file.wasm", "run"])), ParseMode::Lenient);
}

#[test]
fn help_and_version_end_the_program() {
    assert_eq!(after_parse_error(ParseErrorKind::DisplayHelp), Fallback::Exit);
    assert_eq!(after_parse_error(ParseErrorKind::DisplayVersion), Fallback::Exit);
    assert_eq!(after_parse_error(ParseErrorKind::Other), Fallback::RunSubcommand);
}

#[test]
fn options_select_their_subcommand() {
    let arguments = words(&["file.wasm", "--dir=."]);
    let cases = vec![
        (WasmerCLIOptions::Run(arguments.clone()), Subcommand::Run),
        (WasmerCLIOptions::Cache(arguments.clone()), Subcommand::Cache),
        (WasmerCLIOptions::Validate(arguments.clone()), Subcommand::Validate),
        (WasmerCLIOptions::Compile(arguments.clone()), Subcommand::Compile),
        (WasmerCLIOptions::CreateExe(arguments.clone()), Subcommand::CreateExe),
        (WasmerCLIOptions::Config(arguments.clone()), Subcommand::Config),
        (WasmerCLIOptions::SelfUpdate(arguments.clone()), Subcommand::SelfUpdate),
        (WasmerCLIOptions::Inspect(arguments.clone()), Subcommand::Inspect),
        (WasmerCLIOptions::Wast(arguments.clone()), Subcommand::Wast),
    ];
    for (options, command) in cases {
        let invocation = options.execute();
        assert_eq!(invocation.command, command);
        assert_eq!(invocation.arguments, &arguments);
    }
}

#[test]
fn options_hand_on_their_own_arguments() {
    let options = WasmerCLIOptions::Config(Vec::new());
    assert!(options.execute().arguments.is_empty());
    let options = WasmerCLIOptions::Run(words(&["a.wasm"]));
    assert_eq!(options.execute().arguments, &words(&["a.wasm"]));
}
