use sidex_app::cli::{parse_cli_args, CliArgs, CliSubcommand};

fn parse(args: &[&str]) -> Result<CliArgs, String> {
    parse_cli_args(args)
}

#[test]
fn open_current_dir() {
    let args = parse(&["sidex", "."]).unwrap();
    assert_eq!(args.paths, vec![".".to_string()]);
}

#[test]
fn open_file() {
    let args = parse(&["sidex", "file.rs"]).unwrap();
    assert_eq!(args.paths, vec!["file.rs".to_string()]);
}

#[test]
fn new_window_flag() {
    let args = parse(&["sidex", "--new-window"]).unwrap();
    assert!(args.new_window);
}

#[test]
fn reuse_window_flag() {
    let args = parse(&["sidex", "--reuse-window"]).unwrap();
    assert!(args.reuse_window);
}

#[test]
fn wait_flag() {
    let args = parse(&["sidex", "--wait"]).unwrap();
    assert!(args.wait);
}

#[test]
fn diff_two_files() {
    let args = parse(&["sidex", "--diff", "a.rs", "b.rs"]).unwrap();
    let (f1, f2) = args.diff.unwrap();
    assert_eq!(f1, "a.rs");
    assert_eq!(f2, "b.rs");
}

#[test]
fn goto_file_line_col() {
    let args = parse(&["sidex", "--goto", "main.rs:10:5"]).unwrap();
    let goto = args.goto.unwrap();
    assert_eq!(goto.path, "main.rs");
    assert_eq!(goto.line, 10);
    assert_eq!(goto.column, 5);
}

#[test]
fn goto_file_line() {
    let args = parse(&["sidex", "--goto", "main.rs:42"]).unwrap();
    let goto = args.goto.unwrap();
    assert_eq!(goto.line, 42);
    assert_eq!(goto.column, 1);
}

#[test]
fn locale_flag() {
    let args = parse(&["sidex", "--locale", "de"]).unwrap();
    assert_eq!(args.locale.as_deref(), Some("de"));
}

#[test]
fn install_extension() {
    let args = parse(&["sidex", "--install-extension", "rust-lang.rust-analyzer"]).unwrap();
    assert_eq!(
        args.install_extension.as_deref(),
        Some("rust-lang.rust-analyzer")
    );
}

#[test]
fn uninstall_extension() {
    let args = parse(&["sidex", "--uninstall-extension", "some.ext"]).unwrap();
    assert_eq!(args.uninstall_extension.as_deref(), Some("some.ext"));
}

#[test]
fn list_extensions() {
    let args = parse(&["sidex", "--list-extensions"]).unwrap();
    assert!(args.list_extensions);
}

#[test]
fn disable_extensions() {
    let args = parse(&["sidex", "--disable-extensions"]).unwrap();
    assert!(args.disable_extensions);
}

#[test]
fn verbose() {
    let args = parse(&["sidex", "--verbose"]).unwrap();
    assert!(args.verbose);
}

#[test]
fn tunnel_subcommand() {
    let args = parse(&["sidex", "tunnel"]).unwrap();
    assert!(matches!(args.subcommand, Some(CliSubcommand::Tunnel { name: None })));
}

#[test]
fn tunnel_with_name() {
    let args = parse(&["sidex", "tunnel", "--name", "my-machine"]).unwrap();
    match args.subcommand {
        Some(CliSubcommand::Tunnel { name }) => assert_eq!(name.as_deref(), Some("my-machine")),
        other => panic!("expected Tunnel, got {other:?}"),
    }
}

#[test]
fn serve_subcommand() {
    let args = parse(&["sidex", "serve", "3000"]).unwrap();
    match args.subcommand {
        Some(CliSubcommand::Serve { port }) => assert_eq!(port, 3000),
        other => panic!("expected Serve, got {other:?}"),
    }
}

#[test]
fn serve_with_port_flag() {
    let args = parse(&["sidex", "serve", "--port", "9090"]).unwrap();
    match args.subcommand {
        Some(CliSubcommand::Serve { port }) => assert_eq!(port, 9090),
        other => panic!("expected Serve, got {other:?}"),
    }
}

#[test]
fn serve_default_port() {
    let args = parse(&["sidex", "serve"]).unwrap();
    match args.subcommand {
        Some(CliSubcommand::Serve { port }) => assert_eq!(port, 8080),
        other => panic!("expected Serve, got {other:?}"),
    }
}

#[test]
fn version_subcommand() {
    let args = parse(&["sidex", "--version"]).unwrap();
    assert!(matches!(args.subcommand, Some(CliSubcommand::Version)));
}

#[test]
fn diff_missing_args() {
    assert!(parse(&["sidex", "--diff", "a.rs"]).is_err());
}

#[test]
fn unknown_flag() {
    assert!(parse(&["sidex", "--unknown-flag"]).is_err());
}

#[test]
fn positional_goto() {
    let args = parse(&["sidex", "src/main.rs:15:3"]).unwrap();
    let goto = args.goto.unwrap();
    assert_eq!(goto.path, "src/main.rs");
    assert_eq!(goto.line, 15);
    assert_eq!(goto.column, 3);
}

#[test]
fn empty_args() {
    let args = parse(&["sidex"]).unwrap();
    assert!(args.paths.is_empty());
    assert!(args.subcommand.is_none());
}

#[test]
fn extensions_dir_flag() {
    let args = parse(&["sidex", "--extensions-dir", "/tmp/exts"]).unwrap();
    assert_eq!(args.extensions_dir, Some("/tmp/exts".to_string()));
}

#[test]
fn log_flag() {
    let args = parse(&["sidex", "--log", "/tmp/sidex.log"]).unwrap();
    assert_eq!(args.log_file, Some("/tmp/sidex.log".to_string()));
}

#[test]
fn multiple_paths() {
    let args = parse(&["sidex", "a.rs", "b.rs", "src/"]).unwrap();
    assert_eq!(args.paths.len(), 3);
}

#[test]
fn combined_flags() {
    let args = parse(&[
        "sidex",
        "--new-window",
        "--verbose",
        "--disable-extensions",
        "--locale",
        "fr",
        "project/",
    ])
    .unwrap();
    assert!(args.new_window);
    assert!(args.verbose);
    assert!(args.disable_extensions);
    assert_eq!(args.locale.as_deref(), Some("fr"));
    assert_eq!(args.paths, vec!["project/".to_string()]);
}

// ── Further cases ────────────────────────────────────────────────────────────

#[test]
fn error_messages_are_exact() {
    assert_eq!(
        parse(&["sidex", "--diff", "a.rs"]).unwrap_err(),
        "--diff requires two file arguments"
    );
    assert_eq!(
        parse(&["sidex", "--bogus"]).unwrap_err(),
        "unknown flag: --bogus"
    );
    assert_eq!(
        parse(&["sidex", "--goto", "main.rs:x:5"]).unwrap_err(),
        "invalid line: x"
    );
    assert_eq!(
        parse(&["sidex", "--goto", "main.rs:1:y"]).unwrap_err(),
        "invalid column: y"
    );
    assert_eq!(
        parse(&["sidex", "--goto", "main.rs"]).unwrap_err(),
        "invalid goto format: main.rs (expected file:line or file:line:column)"
    );
    assert_eq!(
        parse(&["sidex", "--locale"]).unwrap_err(),
        "--locale requires a language code"
    );
}

#[test]
fn serve_with_bad_port_keeps_default_and_next_arg() {
    let args = parse(&["sidex", "serve", "--port", "nope"]).unwrap_err();
    assert_eq!(args, "unknown flag: --port");
    let ok = parse(&["sidex", "serve", "70000"]).unwrap();
    match ok.subcommand {
        Some(CliSubcommand::Serve { port }) => assert_eq!(port, 8080),
        other => panic!("expected Serve, got {other:?}"),
    }
    assert_eq!(ok.paths, vec!["70000".to_string()]);
}

#[test]
fn goto_keeps_colons_in_path() {
    let args = parse(&["sidex", "--goto", "C:/x:3:4"]).unwrap();
    let goto = args.goto.unwrap();
    assert_eq!(goto.path, "C:/x");
    assert_eq!(goto.line, 3);
    assert_eq!(goto.column, 4);
}

#[test]
fn positional_with_plus_line_parses() {
    let args = parse(&["sidex", "a.rs:+7"]).unwrap();
    assert!(args.goto.is_none());
    assert_eq!(args.paths, vec!["a.rs:+7".to_string()]);
}
