//! Platform description: operating system, desktop, display server and
//! architecture, and how each is read from what the system reports. Asking
//! the system (environment, tools, standard directories) is the
//! application's part.

use vstd::prelude::*;

use crate::crash_reporter::{text_before, text_less};
use crate::text::{contains, spec_find, spec_trim, str_eq, to_lowercase, trim, unicode_lower};

verus! {

/// The operating system, with what is known of its version.
#[derive(Debug, Clone, PartialEq, Eq)]
pub enum OperatingSystem {
    MacOS { version: String },
    Linux { desktop: DesktopEnvironment, display_server: DisplayServer },
    Windows { version: String, build: u32 },
}

/// The Linux desktop environment.
#[derive(Debug, Clone, Copy, PartialEq, Eq, Structural)]
pub enum DesktopEnvironment {
    Gnome,
    Kde,
    Xfce,
    Unknown,
}

/// The Linux display server.
#[derive(Debug, Clone, Copy, PartialEq, Eq, Structural)]
pub enum DisplayServer {
    X11,
    Wayland,
}

/// The processor architecture.
#[derive(Debug, Clone, Copy, PartialEq, Eq, Structural)]
pub enum Architecture {
    X86_64,
    Aarch64,
    Arm,
    Unknown,
}

/// The architecture that Rust's `std::env::consts::ARCH` name stands for.
pub open spec fn architecture_named(name: Seq<char>) -> Architecture {
    if name == "x86_64"@ {
        Architecture::X86_64
    } else if name == "aarch64"@ {
        Architecture::Aarch64
    } else if name == "arm"@ {
        Architecture::Arm
    } else {
        Architecture::Unknown
    }
}

/// Whether `p` occurs in `s`.
pub open spec fn mentions(s: Seq<char>, p: Seq<char>) -> bool {
    spec_find(s, p) is Some
}

/// The desktop that an `XDG_CURRENT_DESKTOP` value names, matched
/// case-insensitively: GNOME, then KDE (or Plasma), then Xfce.
pub open spec fn desktop_named(value: Seq<char>) -> DesktopEnvironment {
    let lower = unicode_lower(value);
    if mentions(lower, "gnome"@) {
        DesktopEnvironment::Gnome
    } else if mentions(lower, "kde"@) || mentions(lower, "plasma"@) {
        DesktopEnvironment::Kde
    } else if mentions(lower, "xfce"@) {
        DesktopEnvironment::Xfce
    } else {
        DesktopEnvironment::Unknown
    }
}

/// The architecture an `ARCH` name stands for.
pub fn architecture_from_name(name: &str) -> (r: Architecture)
    ensures
        r == architecture_named(name@),
{
    if str_eq(name, "x86_64") {
        Architecture::X86_64
    } else if str_eq(name, "aarch64") {
        Architecture::Aarch64
    } else if str_eq(name, "arm") {
        Architecture::Arm
    } else {
        Architecture::Unknown
    }
}

/// The desktop an `XDG_CURRENT_DESKTOP` value names.
pub fn desktop_from_name(value: &str) -> (r: DesktopEnvironment)
    ensures
        r == desktop_named(value@),
{
    let lower = to_lowercase(value);
    let l = lower.as_str();
    if contains(l, "gnome") {
        DesktopEnvironment::Gnome
    } else if contains(l, "kde") || contains(l, "plasma") {
        DesktopEnvironment::Kde
    } else if contains(l, "xfce") {
        DesktopEnvironment::Xfce
    } else {
        DesktopEnvironment::Unknown
    }
}

/// The display server: Wayland exactly when `WAYLAND_DISPLAY` is set.
pub fn display_server_for(wayland_display_set: bool) -> (r: DisplayServer)
    ensures
        r == (if wayland_display_set {
            DisplayServer::Wayland
        } else {
            DisplayServer::X11
        }),
{
    if wayland_display_set {
        DisplayServer::Wayland
    } else {
        DisplayServer::X11
    }
}

impl OperatingSystem {
    /// Whether this is a Linux session on Wayland.
    pub fn is_wayland(&self) -> (r: bool)
        ensures
            r == (self matches OperatingSystem::Linux { display_server, .. }
                && display_server == DisplayServer::Wayland),
    {
        match self {
            OperatingSystem::Linux { display_server, .. } => *display_server
                == DisplayServer::Wayland,
            _ => false,
        }
    }

    /// The label of the primary accelerator key: `⌘` on macOS, `Ctrl`
    /// elsewhere.
    pub fn modifier_key_label(&self) -> (r: &'static str)
        ensures
            r@ == (if self is MacOS {
                "\u{2318}"@
            } else {
                "Ctrl"@
            }),
    {
        match self {
            OperatingSystem::MacOS { .. } => "\u{2318}",
            _ => "Ctrl",
        }
    }
}

// ── Font lists ───────────────────────────────────────────────────────────────

/// The lines of `s` from `start`, scanning at `i`: the pieces between
/// newline characters.
pub open spec fn lines_from(s: Seq<char>, start: int, i: int) -> Seq<Seq<char>>
    decreases s.len() - i,
{
    if i >= s.len() {
        seq![s.subrange(start, s.len() as int)]
    } else if s[i] == '\n' {
        seq![s.subrange(start, i)] + lines_from(s, i + 1, i + 1)
    } else {
        lines_from(s, start, i + 1)
    }
}

/// The lines of `s` (a final newline leaves an empty last line, which the
/// font lists ignore as `str::lines` drops it).
pub open spec fn split_lines(s: Seq<char>) -> Seq<Seq<char>> {
    lines_from(s, 0, 0)
}

/// `sorted` with `x` added in order, unless it is there already.
pub open spec fn insert_unique(sorted: Seq<Seq<char>>, x: Seq<char>) -> Seq<Seq<char>>
    decreases sorted.len(),
{
    if sorted.len() == 0 {
        seq![x]
    } else if text_before(sorted.last(), x) {
        sorted.push(x)
    } else if sorted.last() == x {
        sorted
    } else {
        insert_unique(sorted.drop_last(), x).push(sorted.last())
    }
}

/// The families `fc-list --format '%{family}\n'` printed as `lines`:
/// trimmed, empty ones dropped, sorted and without repeats.
pub open spec fn fc_families(lines: Seq<Seq<char>>) -> Seq<Seq<char>>
    decreases lines.len(),
{
    if lines.len() == 0 {
        Seq::empty()
    } else {
        let init = fc_families(lines.drop_last());
        let t = spec_trim(lines.last());
        if t.len() > 0 {
            insert_unique(init, t)
        } else {
            init
        }
    }
}

/// `t` without its trailing colons.
pub open spec fn without_trailing_colons(t: Seq<char>) -> Seq<char>
    decreases t.len(),
{
    if t.len() > 0 && t.last() == ':' {
        without_trailing_colons(t.drop_last())
    } else {
        t
    }
}

/// The families in `system_profiler SPFontsDataType` output lines: the
/// trimmed lines that end with a colon and do not start with `/`, without
/// their trailing colons, in order.
pub open spec fn profiler_families(lines: Seq<Seq<char>>) -> Seq<Seq<char>>
    decreases lines.len(),
{
    if lines.len() == 0 {
        Seq::empty()
    } else {
        let init = profiler_families(lines.drop_last());
        let t = spec_trim(lines.last());
        if t.len() > 0 && t.last() == ':' && t[0] != '/' {
            init.push(without_trailing_colons(t))
        } else {
            init
        }
    }
}

/// Adds `x` to a sorted list as `insert_unique` does.
fn insert_unique_exec(sorted: &mut Vec<String>, x: String)
    ensures
        crate::text::views(final(sorted)@) == insert_unique(crate::text::views(old(sorted)@), x@),
    decreases old(sorted)@.len(),
{
    let ghost before = crate::text::views(sorted@);
    let n = sorted.len();
    if n == 0 {
        sorted.push(x);
        assert(crate::text::views(sorted@) =~= seq![x@]);
        return;
    }
    if text_less(sorted[n - 1].as_str(), x.as_str()) {
        sorted.push(x);
        assert(crate::text::views(sorted@) =~= before.push(x@));
    } else if str_eq(sorted[n - 1].as_str(), x.as_str()) {
    } else {
        let last = sorted.pop().unwrap();
        assert(crate::text::views(sorted@) =~= before.drop_last());
        insert_unique_exec(sorted, x);
        let ghost mid = crate::text::views(sorted@);
        sorted.push(last);
        assert(crate::text::views(sorted@) =~= mid.push(last@));
    }
}

/// `t` without its trailing colons.
fn strip_trailing_colons(t: &str) -> (r: &str)
    ensures
        r@ == without_trailing_colons(t@),
{
    let n = t.unicode_len();
    let mut j: usize = n;
    assert(t@.subrange(0, n as int) =~= t@);
    while j > 0 && t.get_char(j - 1) == ':'
        invariant
            j <= n,
            n == t@.len(),
            without_trailing_colons(t@.subrange(0, j as int)) == without_trailing_colons(t@),
        decreases j,
    {
        assert(t@.subrange(0, j as int).drop_last() =~= t@.subrange(0, j - 1));
        j = j - 1;
    }
    assert(t@.subrange(0, n as int) =~= t@);
    t.substring_char(0, j)
}

/// The family list of `output`, from `system_profiler` output when
/// `profiler` is set and from `fc-list` output otherwise.
fn family_list(output: &str, profiler: bool) -> (r: Vec<String>)
    requires
        output@.len() < usize::MAX,
    ensures
        profiler ==> crate::text::views(r@) == profiler_families(split_lines(output@)),
        !profiler ==> crate::text::views(r@) == fc_families(split_lines(output@)),
{
    let ghost s = output@;
    let n = output.unicode_len();
    let mut out: Vec<String> = Vec::new();
    let mut start: usize = 0;
    let mut i: usize = 0;
    let ghost mut done: Seq<Seq<char>> = Seq::empty();
    while i <= n
        invariant
            n == s.len(),
            n < usize::MAX,
            s == output@,
            start <= i,
            i <= n + 1,
            i <= n ==> done + lines_from(s, start as int, i as int) == split_lines(s),
            i > n ==> done == split_lines(s),
            profiler ==> crate::text::views(out@) == profiler_families(done),
            !profiler ==> crate::text::views(out@) == fc_families(done),
        decreases n + 1 - i,
    {
        if i == n || output.get_char(i) == '\n' {
            let line = output.substring_char(start, i);
            let ghost new_done = done.push(line@);
            assert(new_done.drop_last() =~= done);
            let t = trim(line);
            if profiler {
                let tn = t.unicode_len();
                if tn > 0 && t.get_char(tn - 1) == ':' && t.get_char(0) != '/' {
                    let name = strip_trailing_colons(t);
                    let ghost before = crate::text::views(out@);
                    out.push(name.to_string());
                    assert(crate::text::views(out@) =~= before.push(name@));
                }
            } else if t.unicode_len() > 0 {
                insert_unique_exec(&mut out, t.to_string());
            }
            proof {
                if i == n {
                    assert(lines_from(s, start as int, i as int) == seq![s.subrange(start as int, i as int)]);
                    assert(done + seq![line@] =~= new_done);
                } else {
                    assert(lines_from(s, start as int, i as int) == seq![s.subrange(start as int, i as int)]
                        + lines_from(s, i + 1, i + 1));
                    assert(done + lines_from(s, start as int, i as int) =~= new_done + lines_from(s, i + 1, i + 1));
                }
                done = new_done;
            }
            start = i + 1;
        } else {
            proof {
                assert(lines_from(s, start as int, i as int) == lines_from(s, start as int, i + 1));
            }
        }
        i = i + 1;
    }
    out
}

/// The font families in `fc-list --format '%{family}\n'` output: trimmed,
/// empty lines dropped, sorted and without repeats.
pub fn font_families_from_fc_list(output: &str) -> (r: Vec<String>)
    requires
        output@.len() < usize::MAX,
    ensures
        crate::text::views(r@) == fc_families(split_lines(output@)),
{
    family_list(output, false)
}

/// The font families in `system_profiler SPFontsDataType -detailLevel
/// mini` output: the trimmed lines ending with a colon and not starting
/// with `/`, without their trailing colons.
pub fn font_families_from_system_profiler(output: &str) -> (r: Vec<String>)
    requires
        output@.len() < usize::MAX,
    ensures
        crate::text::views(r@) == profiler_families(split_lines(output@)),
{
    family_list(output, true)
}

// ── Laws of the font lists ───────────────────────────────────────────────────

/// Whether each entry sorts before the next.
pub open spec fn strictly_sorted(s: Seq<Seq<char>>) -> bool {
    forall|i: int, j: int| 0 <= i < j < s.len() ==> text_before(s[i], s[j])
}

proof fn lemma_text_before_irreflexive(a: Seq<char>)
    ensures
        !text_before(a, a),
    decreases a.len(),
{
    if a.len() > 0 {
        lemma_text_before_irreflexive(a.drop_first());
    }
}

proof fn lemma_text_before_transitive(a: Seq<char>, b: Seq<char>, c: Seq<char>)
    requires
        text_before(a, b),
        text_before(b, c),
    ensures
        text_before(a, c),
    decreases a.len(),
{
    if a.len() > 0 && b.len() > 0 && c.len() > 0 && a[0] == b[0] && b[0] == c[0] {
        lemma_text_before_transitive(a.drop_first(), b.drop_first(), c.drop_first());
    }
}

proof fn lemma_text_before_total(a: Seq<char>, b: Seq<char>)
    ensures
        a == b || text_before(a, b) || text_before(b, a),
    decreases a.len(),
{
    if a.len() > 0 && b.len() > 0 && a[0] == b[0] {
        lemma_text_before_total(a.drop_first(), b.drop_first());
        if a.drop_first() == b.drop_first() {
            assert(a =~= seq![a[0]] + a.drop_first());
            assert(b =~= seq![b[0]] + b.drop_first());
        }
    } else if a.len() == 0 && b.len() == 0 {
        assert(a =~= b);
    } else if a.len() > 0 && b.len() > 0 {
        let (x, y) = (a[0], b[0]);
        vstd::utf8::char_u32_cast(x, x as u32);
        vstd::utf8::char_u32_cast(y, y as u32);
    }
}

proof fn lemma_insert_unique(sorted: Seq<Seq<char>>, x: Seq<char>)
    requires
        strictly_sorted(sorted),
    ensures
        strictly_sorted(insert_unique(sorted, x)),
        forall|y: Seq<char>| #[trigger] insert_unique(sorted, x).contains(y) <==> (sorted.contains(y) || y == x),
    decreases sorted.len(),
{
    if sorted.len() == 0 {
        assert(insert_unique(sorted, x) == seq![x]);
        assert forall|y: Seq<char>| #[trigger] insert_unique(sorted, x).contains(y) <==> (sorted.contains(y) || y == x) by {
            if y == x {
                assert(seq![x][0] == x);
            }
        }
    } else {
        let last = sorted.last();
        let init = sorted.drop_last();
        assert(sorted =~= init.push(last));
        if text_before(last, x) {
            let r = sorted.push(x);
            assert forall|i: int, j: int| 0 <= i < j < r.len() implies text_before(r[i], r[j]) by {
                if j == r.len() - 1 && i < sorted.len() - 1 {
                    lemma_text_before_transitive(r[i], last, x);
                }
            }
            assert forall|y: Seq<char>| #[trigger] r.contains(y) <==> (sorted.contains(y) || y == x) by {
                if y == x {
                    assert(r[r.len() - 1] == x);
                }
                if sorted.contains(y) {
                    let k = choose|k: int| 0 <= k < sorted.len() && sorted[k] == y;
                    assert(r[k] == y);
                }
            }
        } else if last == x {
        } else {
            lemma_text_before_total(last, x);
            lemma_insert_unique(init, x);
            let m = insert_unique(init, x);
            let r = m.push(last);
            assert forall|i: int| 0 <= i < m.len() implies text_before(#[trigger] m[i], last) by {
                assert(m.contains(m[i]));
                if m[i] == x {
                } else {
                    assert(init.contains(m[i]));
                    let k = choose|k: int| 0 <= k < init.len() && init[k] == m[i];
                    assert(sorted[k] == init[k]);
                }
            }
            assert forall|i: int, j: int| 0 <= i < j < r.len() implies text_before(r[i], r[j]) by {
                if j == r.len() - 1 {
                    assert(r[i] == m[i]);
                } else {
                    assert(r[i] == m[i] && r[j] == m[j]);
                }
            }
            assert forall|y: Seq<char>| #[trigger] r.contains(y) <==> (sorted.contains(y) || y == x) by {
                if r.contains(y) {
                    let k = choose|k: int| 0 <= k < r.len() && r[k] == y;
                    if k < m.len() {
                        assert(m.contains(y));
                        if init.contains(y) {
                            let q = choose|q: int| 0 <= q < init.len() && init[q] == y;
                            assert(sorted[q] == y);
                        }
                    } else {
                        assert(sorted[sorted.len() - 1] == y);
                    }
                }
                if sorted.contains(y) {
                    let k = choose|k: int| 0 <= k < sorted.len() && sorted[k] == y;
                    if k < sorted.len() - 1 {
                        assert(init[k] == y);
                        assert(init.contains(y));
                        assert(m.contains(y));
                        let q = choose|q: int| 0 <= q < m.len() && m[q] == y;
                        assert(r[q] == y);
                    } else {
                        assert(r[r.len() - 1] == y);
                    }
                }
                if y == x {
                    assert(m.contains(x));
                    let q = choose|q: int| 0 <= q < m.len() && m[q] == x;
                    assert(r[q] == x);
                }
            }
        }
    }
}

/// The `fc-list` family list is sorted without repeats and holds exactly
/// the non-empty trimmed lines.
pub proof fn lemma_fc_families_sorted_unique(lines: Seq<Seq<char>>)
    ensures
        strictly_sorted(fc_families(lines)),
        forall|y: Seq<char>|
            #[trigger] fc_families(lines).contains(y) <==> (y.len() > 0 && exists|i: int|
                0 <= i < lines.len() && spec_trim(#[trigger] lines[i]) == y),
    decreases lines.len(),
{
    if lines.len() > 0 {
        let init = lines.drop_last();
        lemma_fc_families_sorted_unique(init);
        let t = spec_trim(lines.last());
        if t.len() > 0 {
            lemma_insert_unique(fc_families(init), t);
        }
        assert forall|y: Seq<char>|
            #[trigger] fc_families(lines).contains(y) <==> (y.len() > 0 && exists|i: int|
                0 <= i < lines.len() && spec_trim(#[trigger] lines[i]) == y) by {
            if y.len() > 0 && (exists|i: int| 0 <= i < lines.len() && spec_trim(#[trigger] lines[i]) == y) {
                let i = choose|i: int| 0 <= i < lines.len() && spec_trim(#[trigger] lines[i]) == y;
                if i < lines.len() - 1 {
                    assert(init[i] == lines[i]);
                }
            }
            if fc_families(init).contains(y) {
                let i = choose|i: int| 0 <= i < init.len() && spec_trim(#[trigger] init[i]) == y;
                assert(lines[i] == init[i]);
            }
        }
    }
}

} // verus!
