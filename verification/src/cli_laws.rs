//! Laws of command-line parsing, stated over `spec_parse_cli`.

use vstd::prelude::*;

use crate::cli::{cli_from, empty_model, serve_port, spec_goto, spec_parse_cli, spec_try_goto, CliModel, SubcommandModel};

verus! {

/// Processing from index `i` reads only the arguments from `i` on: two
/// lists that agree there give the same result.
proof fn lemma_cli_reads_suffix(a: Seq<Seq<char>>, b: Seq<Seq<char>>, i: int, m: CliModel)
    requires
        0 <= i,
        a.len() == b.len(),
        forall|k: int| i <= k < a.len() ==> a[k] == b[k],
    ensures
        cli_from(a, i, m) == cli_from(b, i, m),
    decreases a.len() - i,
{
    if i < a.len() {
        let x = a[i];
        assert(x == b[i]);
        let n = a.len();
        if i + 1 < n {
            assert(a[i + 1] == b[i + 1]);
        }
        if i + 2 < n {
            assert(a[i + 2] == b[i + 2]);
        }
        if x == "--new-window"@ || x == "-n"@ {
            lemma_cli_reads_suffix(a, b, i + 1, CliModel { new_window: true, ..m });
        } else if x == "--reuse-window"@ || x == "-r"@ {
            lemma_cli_reads_suffix(a, b, i + 1, CliModel { reuse_window: true, ..m });
        } else if x == "--wait"@ || x == "-w"@ {
            lemma_cli_reads_suffix(a, b, i + 1, CliModel { wait: true, ..m });
        } else if x == "--verbose"@ {
            lemma_cli_reads_suffix(a, b, i + 1, CliModel { verbose: true, ..m });
        } else if x == "--disable-extensions"@ {
            lemma_cli_reads_suffix(a, b, i + 1, CliModel { disable_extensions: true, ..m });
        } else if x == "--list-extensions"@ {
            lemma_cli_reads_suffix(a, b, i + 1, CliModel { list_extensions: true, ..m });
        } else if x == "--diff"@ || x == "-d"@ {
            if i + 2 < n {
                lemma_cli_reads_suffix(a, b, i + 3, CliModel { diff: Some((a[i + 1], a[i + 2])), ..m });
            }
        } else if x == "--goto"@ || x == "-g"@ {
            if i + 1 < n {
                if let Ok(g) = spec_goto(a[i + 1]) {
                    lemma_cli_reads_suffix(a, b, i + 2, CliModel { goto: Some(g), ..m });
                }
            }
        } else if x == "--locale"@ {
            if i + 1 < n {
                lemma_cli_reads_suffix(a, b, i + 2, CliModel { locale: Some(a[i + 1]), ..m });
            }
        } else if x == "--install-extension"@ {
            if i + 1 < n {
                lemma_cli_reads_suffix(a, b, i + 2, CliModel { install_extension: Some(a[i + 1]), ..m });
            }
        } else if x == "--uninstall-extension"@ {
            if i + 1 < n {
                lemma_cli_reads_suffix(a, b, i + 2, CliModel { uninstall_extension: Some(a[i + 1]), ..m });
            }
        } else if x == "--user-data-dir"@ {
            if i + 1 < n {
                lemma_cli_reads_suffix(a, b, i + 2, CliModel { user_data_dir: Some(a[i + 1]), ..m });
            }
        } else if x == "--extensions-dir"@ {
            if i + 1 < n {
                lemma_cli_reads_suffix(a, b, i + 2, CliModel { extensions_dir: Some(a[i + 1]), ..m });
            }
        } else if x == "--log"@ {
            if i + 1 < n {
                lemma_cli_reads_suffix(a, b, i + 2, CliModel { log_file: Some(a[i + 1]), ..m });
            }
        } else if x == "tunnel"@ {
            if i + 2 < n && a[i + 1] == "--name"@ {
                lemma_cli_reads_suffix(
                    a,
                    b,
                    i + 3,
                    CliModel { subcommand: Some(SubcommandModel::Tunnel(Some(a[i + 2]))), ..m },
                );
            } else {
                lemma_cli_reads_suffix(a, b, i + 1, CliModel { subcommand: Some(SubcommandModel::Tunnel(None)), ..m });
            }
        } else if x == "serve"@ {
            assert(serve_port(a, i) == serve_port(b, i));
            let (port, last) = serve_port(a, i);
            lemma_cli_reads_suffix(a, b, last + 1, CliModel { subcommand: Some(SubcommandModel::Serve(port)), ..m });
        } else if x == "version"@ || x == "--version"@ || x == "-v"@ {
            lemma_cli_reads_suffix(a, b, i + 1, CliModel { subcommand: Some(SubcommandModel::Version), ..m });
        } else if x == "status"@ {
            lemma_cli_reads_suffix(a, b, i + 1, CliModel { subcommand: Some(SubcommandModel::Status), ..m });
        } else if x.len() > 0 && x[0] == '-' {
        } else {
            match spec_try_goto(x) {
                Some(g) => lemma_cli_reads_suffix(a, b, i + 1, CliModel { goto: Some(g), ..m }),
                None => lemma_cli_reads_suffix(a, b, i + 1, CliModel { paths: m.paths.push(x), ..m }),
            }
        }
    }
}

/// The flag that `short` abbreviates, if it is one.
pub open spec fn long_form(short: Seq<char>) -> Option<Seq<char>> {
    if short == "-n"@ {
        Some("--new-window"@)
    } else if short == "-r"@ {
        Some("--reuse-window"@)
    } else if short == "-w"@ {
        Some("--wait"@)
    } else if short == "-d"@ {
        Some("--diff"@)
    } else if short == "-g"@ {
        Some("--goto"@)
    } else if short == "-v"@ {
        Some("--version"@)
    } else {
        None
    }
}

/// Each short flag parses exactly as its long form: where an argument read
/// as a flag is `-w` (likewise `-n`, `-r`, `-d`, `-g`, `-v`), writing
/// `--wait` (the long form) there instead gives the same result.
pub proof fn lemma_short_flag_as_long(args: Seq<Seq<char>>, i: int, m: CliModel)
    requires
        0 <= i < args.len(),
        long_form(args[i]) is Some,
    ensures
        cli_from(args, i, m) == cli_from(args.update(i, long_form(args[i])->0), i, m),
{
    reveal_strlit("-n");
    reveal_strlit("--new-window");
    reveal_strlit("-r");
    reveal_strlit("--reuse-window");
    reveal_strlit("-w");
    reveal_strlit("--wait");
    reveal_strlit("--verbose");
    reveal_strlit("--disable-extensions");
    reveal_strlit("--list-extensions");
    reveal_strlit("--diff");
    reveal_strlit("-d");
    reveal_strlit("--goto");
    reveal_strlit("-g");
    reveal_strlit("--locale");
    reveal_strlit("--install-extension");
    reveal_strlit("--uninstall-extension");
    reveal_strlit("--user-data-dir");
    reveal_strlit("--extensions-dir");
    reveal_strlit("--log");
    reveal_strlit("tunnel");
    reveal_strlit("serve");
    reveal_strlit("version");
    reveal_strlit("--version");
    reveal_strlit("-v");
    reveal_strlit("status");
    let x = args[i];
    let b = args.update(i, long_form(x)->0);
    let m2 = if x == "-n"@ {
        CliModel { new_window: true, ..m }
    } else if x == "-r"@ {
        CliModel { reuse_window: true, ..m }
    } else if x == "-w"@ {
        CliModel { wait: true, ..m }
    } else {
        m
    };
    if x == "-n"@ || x == "-r"@ || x == "-w"@ || x == "-v"@ {
        let m3 = if x == "-v"@ {
            CliModel { subcommand: Some(SubcommandModel::Version), ..m }
        } else {
            m2
        };
        lemma_cli_reads_suffix(args, b, i + 1, m3);
    } else if x == "-d"@ {
        if i + 2 < args.len() {
            lemma_cli_reads_suffix(args, b, i + 3, CliModel { diff: Some((args[i + 1], args[i + 2])), ..m });
        }
    } else {
        if i + 1 < args.len() {
            if let Ok(g) = spec_goto(args[i + 1]) {
                lemma_cli_reads_suffix(args, b, i + 2, CliModel { goto: Some(g), ..m });
            }
        }
    }
}

/// On a whole command line, a short flag as the first argument after the
/// program parses as its long form does.
pub proof fn lemma_short_flag_parses_as_long(args: Seq<Seq<char>>)
    requires
        args.len() > 1,
        long_form(args[1]) is Some,
    ensures
        spec_parse_cli(args) == spec_parse_cli(args.update(1, long_form(args[1])->0)),
{
    lemma_short_flag_as_long(args, 1, empty_model());
}

/// `-w` alone asks to wait and opens nothing else: the line of a program
/// started as an editor that waits.
pub proof fn lemma_wait_short_form(prog: Seq<char>, rest: Seq<Seq<char>>)
    ensures
        spec_parse_cli(seq![prog, "-w"@] + rest) == spec_parse_cli(seq![prog, "--wait"@] + rest),
{
    let a = seq![prog, "-w"@] + rest;
    reveal_strlit("-w");
    reveal_strlit("-n");
    reveal_strlit("-r");
    assert(a[1] == "-w"@);
    assert(long_form(a[1]) == Some("--wait"@));
    lemma_short_flag_parses_as_long(a);
    assert(a.update(1, "--wait"@) =~= seq![prog, "--wait"@] + rest);
}

} // verus!
