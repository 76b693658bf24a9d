use acp_agent::commands::run::RunTransport;
use acp_agent::commands::{Cli, CliErrorKind, Commands};
use clap::{Arg, ArgAction, Command};

#[test]
fn parses_install_subcommand() {
    let cli = Cli::try_parse_from(&["acp-agent", "install", "demo-agent"]).unwrap();

    match cli.command {
        Commands::Install { agent_id } => assert_eq!(agent_id, "demo-agent"),
        command => panic!("unexpected command: {command:?}"),
    }
}

#[test]
fn parses_list_subcommand() {
    let cli = Cli::try_parse_from(&["acp-agent", "list"]).unwrap();

    match cli.command {
        Commands::List => {}
        command => panic!("unexpected command: {command:?}"),
    }
}

#[test]
fn parses_search_subcommand() {
    let cli = Cli::try_parse_from(&["acp-agent", "search", "demo"]).unwrap();

    match cli.command {
        Commands::Search { agent_id } => assert_eq!(agent_id, "demo"),
        command => panic!("unexpected command: {command:?}"),
    }
}

#[test]
fn parses_install_env_subcommand() {
    let cli = Cli::try_parse_from(&["acp-agent", "install-env"]).unwrap();

    match cli.command {
        Commands::InstallEnv { yes } => assert!(!yes),
        command => panic!("unexpected command: {command:?}"),
    }
}

#[test]
fn parses_install_env_subcommand_with_yes_flag() {
    let cli = Cli::try_parse_from(&["acp-agent", "install-env", "-y"]).unwrap();

    match cli.command {
        Commands::InstallEnv { yes } => assert!(yes),
        command => panic!("unexpected command: {command:?}"),
    }
}

#[test]
fn parses_run_subcommand_with_default_stdio_transport() {
    let cli = Cli::try_parse_from(&["acp-agent", "run", "demo-agent", "--", "--model", "gpt-5"])
        .unwrap();

    match cli.command {
        Commands::Run {
            agent_id,
            transport,
            host,
            port,
            args,
        } => {
            assert_eq!(agent_id, "demo-agent");
            assert_eq!(transport, RunTransport::Stdio);
            assert_eq!(host, "127.0.0.1");
            assert_eq!(port, 0);
            assert_eq!(args, vec!["--model", "gpt-5"]);
        }
        command => panic!("unexpected command: {command:?}"),
    }
}

#[test]
fn parses_run_subcommand_with_explicit_stdio_transport() {
    let cli = Cli::try_parse_from(&[
        "acp-agent",
        "run",
        "demo-agent",
        "--transport",
        "stdio",
        "--host",
        "0.0.0.0",
        "--port",
        "8080",
    ])
    .unwrap();

    match cli.command {
        Commands::Run {
            transport,
            host,
            port,
            ..
        } => {
            assert_eq!(transport, RunTransport::Stdio);
            assert_eq!(host, "0.0.0.0");
            assert_eq!(port, 8080);
        }
        command => panic!("unexpected command: {command:?}"),
    }
}

#[test]
fn parses_run_subcommand_with_http_transport() {
    let cli = Cli::try_parse_from(&[
        "acp-agent",
        "run",
        "demo-agent",
        "--transport",
        "http",
        "--host",
        "127.0.0.1",
        "--port",
        "9000",
    ])
    .unwrap();

    match cli.command {
        Commands::Run {
            transport,
            host,
            port,
            ..
        } => {
            assert_eq!(transport, RunTransport::Http);
            assert_eq!(host, "127.0.0.1");
            assert_eq!(port, 9000);
        }
        command => panic!("unexpected command: {command:?}"),
    }
}

#[test]
fn parses_run_subcommand_with_ws_transport() {
    let cli = Cli::try_parse_from(&[
        "acp-agent",
        "run",
        "demo-agent",
        "--transport",
        "ws",
        "--host",
        "127.0.0.1",
        "--port",
        "9010",
    ])
    .unwrap();

    match cli.command {
        Commands::Run {
            transport,
            host,
            port,
            ..
        } => {
            assert_eq!(transport, RunTransport::Ws);
            assert_eq!(host, "127.0.0.1");
            assert_eq!(port, 9010);
        }
        command => panic!("unexpected command: {command:?}"),
    }
}

#[test]
fn rejects_archived_serve_subcommand() {
    let error = Cli::try_parse_from(&["acp-agent", "serve", "demo-agent"]).unwrap_err();

    assert_eq!(error.kind(), CliErrorKind::InvalidSubcommand);
}

/// The command line as `clap` reads it: the subcommand in one line, or the kind of error.
fn read_by_clap(args: &[&str]) -> String {
    let command = Command::new("acp-agent")
        .version("0.0.0")
        .subcommand_required(true)
        .arg_required_else_help(true)
        .subcommand(Command::new("list"))
        .subcommand(Command::new("search").arg(Arg::new("agent_id").required(true)))
        .subcommand(
            Command::new("install-env").arg(
                Arg::new("yes")
                    .short('y')
                    .long("yes")
                    .action(ArgAction::SetTrue),
            ),
        )
        .subcommand(Command::new("install").arg(Arg::new("agent_id").required(true)))
        .subcommand(
            Command::new("run")
                .arg(Arg::new("agent_id").required(true))
                .arg(
                    Arg::new("transport")
                        .long("transport")
                        .default_value("stdio")
                        .value_parser(["stdio", "http", "ws"]),
                )
                .arg(Arg::new("host").long("host").default_value("127.0.0.1"))
                .arg(
                    Arg::new("port")
                        .long("port")
                        .default_value("0")
                        .value_parser(clap::builder::RangedI64ValueParser::<u16>::new()),
                )
                .arg(
                    Arg::new("args")
                        .num_args(1..)
                        .action(ArgAction::Append)
                        .trailing_var_arg(true)
                        .allow_hyphen_values(true),
                ),
        );
    match command.try_get_matches_from(args.iter().copied()) {
        Ok(matches) => match matches.subcommand() {
            Some(("list", _)) => "list".to_string(),
            Some(("search", m)) => {
                format!("search {:?}", m.get_one::<String>("agent_id").unwrap())
            }
            Some(("install", m)) => {
                format!("install {:?}", m.get_one::<String>("agent_id").unwrap())
            }
            Some(("install-env", m)) => format!("install-env {}", m.get_flag("yes")),
            Some(("run", m)) => {
                let args: Vec<&String> = m
                    .get_many::<String>("args")
                    .map(|values| values.collect())
                    .unwrap_or_default();
                format!(
                    "run {:?} {} {:?} {} {:?}",
                    m.get_one::<String>("agent_id").unwrap(),
                    m.get_one::<String>("transport").unwrap(),
                    m.get_one::<String>("host").unwrap(),
                    m.get_one::<u16>("port").unwrap(),
                    args
                )
            }
            other => panic!("unexpected subcommand: {other:?}"),
        },
        Err(error) => format!("error {:?}", error.kind()),
    }
}

/// The command line as the library reads it, in the same form.
fn read_by_library(args: &[&str]) -> String {
    match Cli::try_parse_from(args) {
        Ok(cli) => match cli.command {
            Commands::List => "list".to_string(),
            Commands::Search { agent_id } => format!("search {agent_id:?}"),
            Commands::Install { agent_id } => format!("install {agent_id:?}"),
            Commands::InstallEnv { yes } => format!("install-env {yes}"),
            Commands::Run {
                agent_id,
                transport,
                host,
                port,
                args,
            } => {
                let transport = match transport {
                    RunTransport::Stdio => "stdio",
                    RunTransport::Http => "http",
                    RunTransport::Ws => "ws",
                };
                format!("run {agent_id:?} {transport} {host:?} {port} {args:?}")
            }
        },
        Err(error) => format!("error {:?}", error.kind()),
    }
}

fn assert_read_alike(args: &[&str]) {
    assert_eq!(read_by_library(args), read_by_clap(args), "{args:?}");
}

const ROOT_TOKENS: [&str; 24] = [
    "list",
    "search",
    "install-env",
    "install",
    "run",
    "help",
    "serve",
    "lis",
    "",
    "-",
    "--",
    "-h",
    "-V",
    "-hV",
    "-x",
    "-y",
    "-yh",
    "-yy",
    "--help",
    "--help=1",
    "--version",
    "--version=1",
    "--yes",
    "--yes=",
];

#[test]
fn reads_every_short_command_line_as_clap_does() {
    assert_read_alike(&[]);
    assert_read_alike(&["acp-agent"]);
    for a in ROOT_TOKENS {
        assert_read_alike(&["acp-agent", a]);
        for b in ROOT_TOKENS {
            assert_read_alike(&["acp-agent", a, b]);
            for c in ["list", "x", "--", "-h", "-y", "--yes"] {
                assert_read_alike(&["acp-agent", a, b, c]);
            }
        }
    }
}

const RUN_TOKENS: [&str; 26] = [
    "a",
    "ws",
    "80",
    "",
    "-",
    "--",
    "-h",
    "-hh",
    "-hx",
    "-xh",
    "-1",
    "--help",
    "--help=1",
    "--transport",
    "--transport=ws",
    "--transport=WS",
    "--transport=",
    "--host",
    "--host=b",
    "--host=",
    "--port",
    "--port=9000",
    "--port=x",
    "--foo",
    "--foo=1",
    "--=1",
];

#[test]
fn reads_run_arguments_as_clap_does() {
    assert_read_alike(&["acp-agent", "run"]);
    for a in RUN_TOKENS {
        assert_read_alike(&["acp-agent", "run", a]);
        for b in RUN_TOKENS {
            assert_read_alike(&["acp-agent", "run", a, b]);
            for c in RUN_TOKENS {
                assert_read_alike(&["acp-agent", "run", a, b, c]);
            }
        }
    }
}

#[test]
fn reads_long_run_command_lines_as_clap_does() {
    // A fixed sequence of pseudo-random choices.
    let mut state: u64 = 0x2545_f491_4f6c_dd1d;
    for _ in 0..6000 {
        let mut line = vec!["acp-agent", "run"];
        for _ in 0..6 {
            state ^= state << 13;
            state ^= state >> 7;
            state ^= state << 17;
            line.push(RUN_TOKENS[(state % RUN_TOKENS.len() as u64) as usize]);
        }
        assert_read_alike(&line);
    }
}

#[test]
fn reads_ports_as_clap_does() {
    for port in [
        "0", "00", "+0", "-0", "7", "+7", "-7", "65535", "65536", "065535", "99999", "+", "-", "",
        " 7", "7 ", "0x10", "1e3", "9223372036854775808", "18446744073709551616", "١",
    ] {
        assert_read_alike(&["acp-agent", "run", "a", &format!("--port={port}")]);
    }
}

#[test]
fn double_dash_hands_everything_to_the_agent() {
    let cli = Cli::try_parse_from(&[
        "acp-agent", "run", "demo", "--", "--host", "x", "--", "-h", "",
    ])
    .unwrap();
    match cli.command {
        Commands::Run { host, args, .. } => {
            assert_eq!(host, "127.0.0.1");
            assert_eq!(args, vec!["--host", "x", "--", "-h", ""]);
        }
        command => panic!("unexpected command: {command:?}"),
    }
}

#[test]
fn attached_and_separate_option_values_agree() {
    let attached = Cli::try_parse_from(&["acp-agent", "run", "--port=81", "demo"]).unwrap();
    let separate = Cli::try_parse_from(&["acp-agent", "run", "--port", "81", "demo"]).unwrap();
    assert_eq!(attached, separate);
    assert!(matches!(attached.command, Commands::Run { port: 81, .. }));
}

#[test]
fn every_kind_of_error_has_a_command_line() {
    for (line, kind) in [
        (vec!["acp-agent", "list", "--help"], CliErrorKind::DisplayHelp),
        (vec!["acp-agent", "-V"], CliErrorKind::DisplayVersion),
        (
            vec!["acp-agent"],
            CliErrorKind::DisplayHelpOnMissingArgumentOrSubcommand,
        ),
        (vec!["acp-agent", "lists"], CliErrorKind::InvalidSubcommand),
        (
            vec!["acp-agent", "list", "more"],
            CliErrorKind::UnknownArgument,
        ),
        (
            vec!["acp-agent", "install-env", "--yes=1"],
            CliErrorKind::TooManyValues,
        ),
        (
            vec!["acp-agent", "install"],
            CliErrorKind::MissingRequiredArgument,
        ),
        (
            vec!["acp-agent", "install-env", "-yy"],
            CliErrorKind::ArgumentConflict,
        ),
        (
            vec!["acp-agent", "run", "a", "--transport", "tcp"],
            CliErrorKind::InvalidValue,
        ),
        (
            vec!["acp-agent", "run", "a", "--port", "65536"],
            CliErrorKind::ValueValidation,
        ),
    ] {
        let error = Cli::try_parse_from(&line).unwrap_err();
        assert_eq!(error.kind(), kind, "{line:?}");
    }
}
