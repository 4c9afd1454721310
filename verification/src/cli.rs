//! Command-line interface: subcommands and flags such as `--diff`, `--goto`,
//! `--wait`, `--install-extension`, `--locale`, `tunnel` and `serve`.

use vstd::prelude::*;

use crate::text::{
    owned, parse_u16, parse_u32, rfind_char, spec_parse_u16, spec_parse_u32, spec_rfind, str_eq,
};

verus! {

// ── Parsed values ────────────────────────────────────────────────────────────

/// A `file:line:column` location parsed from `--goto`.
#[derive(Debug, Clone)]
pub struct GotoLocation {
    pub path: String,
    pub line: u32,
    pub column: u32,
}

/// Subcommands of the command line.
#[derive(Debug, Clone)]
pub enum CliSubcommand {
    /// Start a remote tunnel server.
    Tunnel { name: Option<String> },
    /// Start a headless server.
    Serve { port: u16 },
    /// Print the version and exit.
    Version,
    /// Print status information.
    Status,
}

/// Everything the command line asked for.
#[derive(Debug, Clone)]
pub struct CliArgs {
    /// Files or folders to open.
    pub paths: Vec<String>,
    /// Force a new window.
    pub new_window: bool,
    /// Reuse an existing window if available.
    pub reuse_window: bool,
    /// Wait until the editor is closed.
    pub wait: bool,
    /// Diff two files.
    pub diff: Option<(String, String)>,
    /// Open a file at a location.
    pub goto: Option<GotoLocation>,
    /// Display locale override.
    pub locale: Option<String>,
    /// Install an extension by id.
    pub install_extension: Option<String>,
    /// Uninstall an extension by id.
    pub uninstall_extension: Option<String>,
    /// List installed extensions and exit.
    pub list_extensions: bool,
    /// Start with all extensions disabled.
    pub disable_extensions: bool,
    /// Verbose logging.
    pub verbose: bool,
    /// Subcommand mode.
    pub subcommand: Option<CliSubcommand>,
    /// User-data directory override.
    pub user_data_dir: Option<String>,
    /// Extensions directory override.
    pub extensions_dir: Option<String>,
    /// Log to a file instead of stderr.
    pub log_file: Option<String>,
}

// ── Models ───────────────────────────────────────────────────────────────────

/// A goto location as text and numbers.
pub struct GotoModel {
    pub path: Seq<char>,
    pub line: u32,
    pub column: u32,
}

/// A subcommand as text and numbers.
pub enum SubcommandModel {
    Tunnel(Option<Seq<char>>),
    Serve(u16),
    Version,
    Status,
}

/// The parsed command line as text and numbers.
pub struct CliModel {
    pub paths: Seq<Seq<char>>,
    pub new_window: bool,
    pub reuse_window: bool,
    pub wait: bool,
    pub diff: Option<(Seq<char>, Seq<char>)>,
    pub goto: Option<GotoModel>,
    pub locale: Option<Seq<char>>,
    pub install_extension: Option<Seq<char>>,
    pub uninstall_extension: Option<Seq<char>>,
    pub list_extensions: bool,
    pub disable_extensions: bool,
    pub verbose: bool,
    pub subcommand: Option<SubcommandModel>,
    pub user_data_dir: Option<Seq<char>>,
    pub extensions_dir: Option<Seq<char>>,
    pub log_file: Option<Seq<char>>,
}

pub open spec fn opt_text(o: Option<String>) -> Option<Seq<char>> {
    match o {
        Some(s) => Some(s@),
        None => None,
    }
}

impl GotoLocation {
    pub open spec fn model(self) -> GotoModel {
        GotoModel { path: self.path@, line: self.line, column: self.column }
    }
}

impl CliSubcommand {
    pub open spec fn model(self) -> SubcommandModel {
        match self {
            CliSubcommand::Tunnel { name } => SubcommandModel::Tunnel(opt_text(name)),
            CliSubcommand::Serve { port } => SubcommandModel::Serve(port),
            CliSubcommand::Version => SubcommandModel::Version,
            CliSubcommand::Status => SubcommandModel::Status,
        }
    }
}

impl CliArgs {
    pub open spec fn model(self) -> CliModel {
        CliModel {
            paths: self.paths@.map_values(|s: String| s@),
            new_window: self.new_window,
            reuse_window: self.reuse_window,
            wait: self.wait,
            diff: match self.diff {
                Some(d) => Some((d.0@, d.1@)),
                None => None,
            },
            goto: match self.goto {
                Some(g) => Some(g.model()),
                None => None,
            },
            locale: opt_text(self.locale),
            install_extension: opt_text(self.install_extension),
            uninstall_extension: opt_text(self.uninstall_extension),
            list_extensions: self.list_extensions,
            disable_extensions: self.disable_extensions,
            verbose: self.verbose,
            subcommand: match self.subcommand {
                Some(c) => Some(c.model()),
                None => None,
            },
            user_data_dir: opt_text(self.user_data_dir),
            extensions_dir: opt_text(self.extensions_dir),
            log_file: opt_text(self.log_file),
        }
    }
}

/// Nothing asked for.
pub open spec fn empty_model() -> CliModel {
    CliModel {
        paths: Seq::empty(),
        new_window: false,
        reuse_window: false,
        wait: false,
        diff: None,
        goto: None,
        locale: None,
        install_extension: None,
        uninstall_extension: None,
        list_extensions: false,
        disable_extensions: false,
        verbose: false,
        subcommand: None,
        user_data_dir: None,
        extensions_dir: None,
        log_file: None,
    }
}

// ── Specification of the parse ───────────────────────────────────────────────

/// `file:line:column` or `file:line`, split at the last two colons.
pub open spec fn spec_goto(s: Seq<char>) -> Result<GotoModel, Seq<char>> {
    match spec_rfind(s, ':') {
        None => Err(
            "invalid goto format: "@ + s + " (expected file:line or file:line:column)"@,
        ),
        Some(k1) => {
            let last = s.skip(k1 + 1);
            match spec_rfind(s.take(k1), ':') {
                None => match spec_parse_u32(last) {
                    Some(line) => Ok(GotoModel { path: s.take(k1), line: line, column: 1 }),
                    None => Err("invalid line: "@ + last),
                },
                Some(k2) => {
                    let mid = s.subrange(k2 + 1, k1);
                    match spec_parse_u32(last) {
                        None => Err("invalid column: "@ + last),
                        Some(column) => match spec_parse_u32(mid) {
                            None => Err("invalid line: "@ + mid),
                            Some(line) => Ok(
                                GotoModel { path: s.take(k2), line: line, column: column },
                            ),
                        },
                    }
                },
            }
        },
    }
}

pub open spec fn is_ascii_digit(c: char) -> bool {
    '0' <= c && c <= '9'
}

/// A positional argument read as a goto location: it needs a colon whose
/// tail is all digits, and must then parse as one.
pub open spec fn spec_try_goto(s: Seq<char>) -> Option<GotoModel> {
    match spec_rfind(s, ':') {
        Some(k1) => if forall|j: int| k1 + 1 <= j < s.len() ==> is_ascii_digit(#[trigger] s[j]) {
            match spec_goto(s) {
                Ok(g) => Some(g),
                Err(_) => None,
            }
        } else {
            None
        },
        None => None,
    }
}

/// The port that `serve` at index `i` takes, and the index of the last
/// argument it consumes.
pub open spec fn serve_port(args: Seq<Seq<char>>, i: int) -> (u16, int) {
    if i + 1 < args.len() {
        if args[i + 1] == "--port"@ && i + 2 < args.len() {
            match spec_parse_u16(args[i + 2]) {
                Some(p) => (p, i + 2),
                None => (8080u16, i),
            }
        } else {
            match spec_parse_u16(args[i + 1]) {
                Some(p) => (p, i + 1),
                None => (8080u16, i),
            }
        }
    } else {
        (8080u16, i)
    }
}

/// Processing of the arguments from index `i` on, starting from `m`.
pub open spec fn cli_from(args: Seq<Seq<char>>, i: int, m: CliModel) -> Result<CliModel, Seq<char>>
    decreases args.len() - i,
{
    if i < 0 || i >= args.len() {
        Ok(m)
    } else {
        let a = args[i];
        if a == "--new-window"@ || a == "-n"@ {
            cli_from(args, i + 1, CliModel { new_window: true, ..m })
        } else if a == "--reuse-window"@ || a == "-r"@ {
            cli_from(args, i + 1, CliModel { reuse_window: true, ..m })
        } else if a == "--wait"@ || a == "-w"@ {
            cli_from(args, i + 1, CliModel { wait: true, ..m })
        } else if a == "--verbose"@ {
            cli_from(args, i + 1, CliModel { verbose: true, ..m })
        } else if a == "--disable-extensions"@ {
            cli_from(args, i + 1, CliModel { disable_extensions: true, ..m })
        } else if a == "--list-extensions"@ {
            cli_from(args, i + 1, CliModel { list_extensions: true, ..m })
        } else if a == "--diff"@ || a == "-d"@ {
            if i + 2 >= args.len() {
                Err("--diff requires two file arguments"@)
            } else {
                cli_from(args, i + 3, CliModel { diff: Some((args[i + 1], args[i + 2])), ..m })
            }
        } else if a == "--goto"@ || a == "-g"@ {
            if i + 1 >= args.len() {
                Err("--goto requires a file:line:column argument"@)
            } else {
                match spec_goto(args[i + 1]) {
                    Ok(g) => cli_from(args, i + 2, CliModel { goto: Some(g), ..m }),
                    Err(e) => Err(e),
                }
            }
        } else if a == "--locale"@ {
            if i + 1 >= args.len() {
                Err("--locale requires a language code"@)
            } else {
                cli_from(args, i + 2, CliModel { locale: Some(args[i + 1]), ..m })
            }
        } else if a == "--install-extension"@ {
            if i + 1 >= args.len() {
                Err("--install-extension requires an extension id"@)
            } else {
                cli_from(args, i + 2, CliModel { install_extension: Some(args[i + 1]), ..m })
            }
        } else if a == "--uninstall-extension"@ {
            if i + 1 >= args.len() {
                Err("--uninstall-extension requires an extension id"@)
            } else {
                cli_from(args, i + 2, CliModel { uninstall_extension: Some(args[i + 1]), ..m })
            }
        } else if a == "--user-data-dir"@ {
            if i + 1 >= args.len() {
                Err("--user-data-dir requires a path"@)
            } else {
                cli_from(args, i + 2, CliModel { user_data_dir: Some(args[i + 1]), ..m })
            }
        } else if a == "--extensions-dir"@ {
            if i + 1 >= args.len() {
                Err("--extensions-dir requires a path"@)
            } else {
                cli_from(args, i + 2, CliModel { extensions_dir: Some(args[i + 1]), ..m })
            }
        } else if a == "--log"@ {
            if i + 1 >= args.len() {
                Err("--log requires a file path"@)
            } else {
                cli_from(args, i + 2, CliModel { log_file: Some(args[i + 1]), ..m })
            }
        } else if a == "tunnel"@ {
            if i + 2 < args.len() && args[i + 1] == "--name"@ {
                cli_from(
                    args,
                    i + 3,
                    CliModel { subcommand: Some(SubcommandModel::Tunnel(Some(args[i + 2]))), ..m },
                )
            } else {
                cli_from(args, i + 1, CliModel { subcommand: Some(SubcommandModel::Tunnel(None)), ..m })
            }
        } else if a == "serve"@ {
            let (port, last) = serve_port(args, i);
            cli_from(args, last + 1, CliModel { subcommand: Some(SubcommandModel::Serve(port)), ..m })
        } else if a == "version"@ || a == "--version"@ || a == "-v"@ {
            cli_from(args, i + 1, CliModel { subcommand: Some(SubcommandModel::Version), ..m })
        } else if a == "status"@ {
            cli_from(args, i + 1, CliModel { subcommand: Some(SubcommandModel::Status), ..m })
        } else if a.len() > 0 && a[0] == '-' {
            Err("unknown flag: "@ + a)
        } else {
            match spec_try_goto(a) {
                Some(g) => cli_from(args, i + 1, CliModel { goto: Some(g), ..m }),
                None => cli_from(args, i + 1, CliModel { paths: m.paths.push(a), ..m }),
            }
        }
    }
}

/// The text of each argument.
pub open spec fn arg_texts(args: Seq<&str>) -> Seq<Seq<char>> {
    args.map_values(|s: &str| s@)
}

/// The whole command line; the first argument (the program) is skipped.
pub open spec fn spec_parse_cli(args: Seq<Seq<char>>) -> Result<CliModel, Seq<char>> {
    cli_from(args, 1, empty_model())
}

// ── Executable parse ─────────────────────────────────────────────────────────

impl CliArgs {
    /// Nothing asked for.
    pub fn empty() -> (r: Self)
        ensures
            r.model() == empty_model(),
    {
        let r = CliArgs {
            paths: Vec::new(),
            new_window: false,
            reuse_window: false,
            wait: false,
            diff: None,
            goto: None,
            locale: None,
            install_extension: None,
            uninstall_extension: None,
            list_extensions: false,
            disable_extensions: false,
            verbose: false,
            subcommand: None,
            user_data_dir: None,
            extensions_dir: None,
            log_file: None,
        };
        assert(r.model().paths =~= Seq::<Seq<char>>::empty());
        r
    }
}

impl Default for CliArgs {
    fn default() -> (r: Self)
        ensures
            r.model() == empty_model(),
    {
        CliArgs::empty()
    }
}

fn text(s: &str) -> (r: String)
    ensures
        r@ == s@,
{
    owned(s)
}

fn concat(a: &str, b: &str) -> (r: String)
    ensures
        r@ == a@ + b@,
{
    let mut s = owned(a);
    s.append(b);
    s
}

/// Parse a `file:line:column` (or `file:line`) string.
pub fn parse_goto_location(s: &str) -> (r: Result<GotoLocation, String>)
    ensures
        match spec_goto(s@) {
            Ok(g) => r matches Ok(x) && x.model() == g,
            Err(e) => r matches Err(x) && x@ == e,
        },
{
    let n = s.unicode_len();
    match rfind_char(s, ':') {
        None => {
            let mut e = concat("invalid goto format: ", s);
            e.append(" (expected file:line or file:line:column)");
            Err(e)
        },
        Some(k1) => {
            let last = s.substring_char(k1 + 1, n);
            let head = s.substring_char(0, k1);
            assert(last@ == s@.skip(k1 + 1));
            assert(head@ == s@.take(k1 as int));
            match rfind_char(head, ':') {
                None => match parse_u32(last) {
                    Some(line) => Ok(GotoLocation { path: text(head), line, column: 1 }),
                    None => Err(concat("invalid line: ", last)),
                },
                Some(k2) => {
                    let mid = s.substring_char(k2 + 1, k1);
                    let path = s.substring_char(0, k2);
                    match parse_u32(last) {
                        None => Err(concat("invalid column: ", last)),
                        Some(column) => match parse_u32(mid) {
                            None => Err(concat("invalid line: ", mid)),
                            Some(line) => Ok(GotoLocation { path: text(path), line, column }),
                        },
                    }
                },
            }
        },
    }
}

/// Whether every character of `s` from index `from` on is an ASCII digit.
fn all_ascii_digits_from(s: &str, from: usize) -> (r: bool)
    requires
        from <= s@.len(),
    ensures
        r == (forall|j: int| from <= j < s@.len() ==> is_ascii_digit(#[trigger] s@[j])),
{
    let n = s.unicode_len();
    let mut i = from;
    while i < n
        invariant
            from <= i <= n,
            n == s@.len(),
            forall|j: int| from <= j < i ==> is_ascii_digit(#[trigger] s@[j]),
        decreases n - i,
    {
        let c = s.get_char(i);
        if !('0' <= c && c <= '9') {
            return false;
        }
        i = i + 1;
    }
    true
}

/// Read a positional argument as a goto location, when it looks like one.
pub fn try_parse_goto(s: &str) -> (r: Option<GotoLocation>)
    ensures
        match spec_try_goto(s@) {
            Some(g) => r matches Some(x) && x.model() == g,
            None => r is None,
        },
{
    let n = s.unicode_len();
    match rfind_char(s, ':') {
        Some(k1) => {
            if all_ascii_digits_from(s, k1 + 1) {
                match parse_goto_location(s) {
                    Ok(g) => Some(g),
                    Err(_) => None,
                }
            } else {
                None
            }
        },
        None => None,
    }
}

/// Parse the command line. The first argument (the program) is skipped.
pub fn parse_cli_args(args: &[&str]) -> (r: Result<CliArgs, String>)
    ensures
        match spec_parse_cli(arg_texts(args@)) {
            Ok(m) => r matches Ok(x) && x.model() == m,
            Err(e) => r matches Err(x) && x@ == e,
        },
{
    let ghost av = arg_texts(args@);
    let n = args.len();
    let mut result = CliArgs::empty();
    let mut i: usize = 1;
    while i < n
        invariant
            1 <= i,
            n == args@.len(),
            av == arg_texts(args@),
            av.len() == n,
            cli_from(av, i as int, result.model()) == spec_parse_cli(av),
        decreases n - i,
    {
        let arg = args[i];
        assert(av[i as int] == arg@);
        let ghost m = result.model();
        let ghost i0 = i;
        if str_eq(arg, "--new-window") || str_eq(arg, "-n") {
            result.new_window = true;
        } else if str_eq(arg, "--reuse-window") || str_eq(arg, "-r") {
            result.reuse_window = true;
        } else if str_eq(arg, "--wait") || str_eq(arg, "-w") {
            result.wait = true;
        } else if str_eq(arg, "--verbose") {
            result.verbose = true;
        } else if str_eq(arg, "--disable-extensions") {
            result.disable_extensions = true;
        } else if str_eq(arg, "--list-extensions") {
            result.list_extensions = true;
        } else if str_eq(arg, "--diff") || str_eq(arg, "-d") {
            if n - i <= 2 {
                return Err(text("--diff requires two file arguments"));
            }
            assert(av[i + 1] == args@[i + 1]@);
            assert(av[i + 2] == args@[i + 2]@);
            result.diff = Some((text(args[i + 1]), text(args[i + 2])));
            i = i + 2;
        } else if str_eq(arg, "--goto") || str_eq(arg, "-g") {
            if i + 1 >= n {
                return Err(text("--goto requires a file:line:column argument"));
            }
            i = i + 1;
            assert(av[i as int] == args@[i as int]@);
            match parse_goto_location(args[i]) {
                Ok(g) => {
                    result.goto = Some(g);
                },
                Err(e) => {
                    return Err(e);
                },
            }
        } else if str_eq(arg, "--locale") {
            if i + 1 >= n {
                return Err(text("--locale requires a language code"));
            }
            i = i + 1;
            assert(av[i as int] == args@[i as int]@);
            result.locale = Some(text(args[i]));
        } else if str_eq(arg, "--install-extension") {
            if i + 1 >= n {
                return Err(text("--install-extension requires an extension id"));
            }
            i = i + 1;
            assert(av[i as int] == args@[i as int]@);
            result.install_extension = Some(text(args[i]));
        } else if str_eq(arg, "--uninstall-extension") {
            if i + 1 >= n {
                return Err(text("--uninstall-extension requires an extension id"));
            }
            i = i + 1;
            assert(av[i as int] == args@[i as int]@);
            result.uninstall_extension = Some(text(args[i]));
        } else if str_eq(arg, "--user-data-dir") {
            if i + 1 >= n {
                return Err(text("--user-data-dir requires a path"));
            }
            i = i + 1;
            assert(av[i as int] == args@[i as int]@);
            result.user_data_dir = Some(text(args[i]));
        } else if str_eq(arg, "--extensions-dir") {
            if i + 1 >= n {
                return Err(text("--extensions-dir requires a path"));
            }
            i = i + 1;
            assert(av[i as int] == args@[i as int]@);
            result.extensions_dir = Some(text(args[i]));
        } else if str_eq(arg, "--log") {
            if i + 1 >= n {
                return Err(text("--log requires a file path"));
            }
            i = i + 1;
            assert(av[i as int] == args@[i as int]@);
            result.log_file = Some(text(args[i]));
        } else if str_eq(arg, "tunnel") {
            let mut name = None;
            if n - i > 2 && str_eq(args[i + 1], "--name") {
                assert(av[i + 1] == args@[i + 1]@);
                assert(av[i + 2] == args@[i + 2]@);
                name = Some(text(args[i + 2]));
                i = i + 2;
            } else {
                proof {
                    if i + 2 < n {
                        assert(av[i + 1] == args@[i + 1]@);
                    }
                }
            }
            result.subcommand = Some(CliSubcommand::Tunnel { name });
        } else if str_eq(arg, "serve") {
            let ghost start = i as int;
            let mut port: u16 = 8080;
            if i + 1 < n {
                assert(av[i + 1] == args@[i + 1]@);
                if str_eq(args[i + 1], "--port") && n - i > 2 {
                    assert(av[i + 2] == args@[i + 2]@);
                    match parse_u16(args[i + 2]) {
                        Some(p) => {
                            port = p;
                            i = i + 2;
                        },
                        None => {},
                    }
                } else {
                    match parse_u16(args[i + 1]) {
                        Some(p) => {
                            port = p;
                            i = i + 1;
                        },
                        None => {},
                    }
                }
            }
            assert(serve_port(av, start) == (port, i as int));
            result.subcommand = Some(CliSubcommand::Serve { port });
        } else if str_eq(arg, "version") || str_eq(arg, "--version") || str_eq(arg, "-v") {
            result.subcommand = Some(CliSubcommand::Version);
        } else if str_eq(arg, "status") {
            result.subcommand = Some(CliSubcommand::Status);
        } else if arg.unicode_len() > 0 && arg.get_char(0) == '-' {
            return Err(concat("unknown flag: ", arg));
        } else {
            match try_parse_goto(arg) {
                Some(g) => {
                    result.goto = Some(g);
                },
                None => {
                    result.paths.push(text(arg));
                    assert(result.model().paths =~= m.paths.push(arg@));
                },
            }
        }
        assert(cli_from(av, i0 as int, m) == cli_from(av, i + 1, result.model()));
        i = i + 1;
    }
    Ok(result)
}

} // verus!
