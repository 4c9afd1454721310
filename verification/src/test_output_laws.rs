//! Laws of reading test-runner output lines (`cargo test`, `go test -v`).

use vstd::prelude::*;

use crate::test_runner::{cargo_line_outcome, first_space_from, go_line_outcome, TestState};
use crate::text::{find_from, first_non_space_from, is_space, occurs_at, spec_find, spec_trim, trimmed_end_before};

verus! {

/// Trimming the end of `s` before `j` never cuts past a non-space
/// character at `k - 1`, and never goes past `j`.
proof fn lemma_trimmed_end_keeps(s: Seq<char>, j: int, k: int)
    requires
        0 < k <= j <= s.len(),
        !is_space(s[k - 1]),
    ensures
        k <= trimmed_end_before(s, j) <= j,
    decreases j,
{
    if j > k && is_space(s[j - 1]) {
        lemma_trimmed_end_keeps(s, j - 1, k);
    }
}

/// In a text that starts with the word `w` (no spaces in it) followed by
/// its end or a space, the first space from inside the word is at the
/// word's end.
proof fn lemma_word_end(s: Seq<char>, w: Seq<char>, i: int)
    requires
        0 <= i <= w.len() <= s.len(),
        forall|k: int| 0 <= k < w.len() ==> s[k] == w[k] && !is_space(w[k]),
        w.len() == s.len() || is_space(s[w.len() as int]),
    ensures
        first_space_from(s, i) == w.len(),
    decreases w.len() - i,
{
    if i < w.len() {
        assert(s[i] == w[i]);
        lemma_word_end(s, w, i + 1);
    }
}

/// A `go test -v` result line names the test by the first word after its
/// marker: for `--- PASS: `, `--- FAIL: ` or `--- SKIP: ` followed by a
/// word without spaces and then nothing or a space and anything, the line
/// reports that word with the marker's outcome.
pub proof fn lemma_go_line_names_first_word(
    marker: Seq<char>,
    state: TestState,
    name: Seq<char>,
    rest: Seq<char>,
)
    requires
        (marker == "--- PASS: "@ && state == TestState::Passed) || (marker == "--- FAIL: "@ && state
            == TestState::Failed) || (marker == "--- SKIP: "@ && state == TestState::Skipped),
        name.len() > 0,
        forall|k: int| 0 <= k < name.len() ==> !is_space(#[trigger] name[k]),
        rest.len() == 0 || is_space(rest[0]),
    ensures
        go_line_outcome(marker + name + rest) == Some((name, state)),
{
    reveal_strlit("--- PASS: ");
    reveal_strlit("--- FAIL: ");
    reveal_strlit("--- SKIP: ");
    let line = marker + name + rest;
    let ml = marker.len() as int;
    let nl = name.len() as int;
    assert(ml == 10);
    assert(line[0] == '-');
    assert(!is_space(line[0]));
    assert(first_non_space_from(line, 0) == 0);
    assert(line[ml + nl - 1] == name[nl - 1]);
    lemma_trimmed_end_keeps(line, line.len() as int, ml + nl);
    let end = trimmed_end_before(line, line.len() as int);
    let t = spec_trim(line);
    assert(t == line.subrange(0, end));
    assert forall|k: int| 0 <= k < ml implies t[k] == marker[k] by {
        assert(line[k] == marker[k]);
    }
    assert(marker.is_prefix_of(t));
    let after = t.subrange(ml, t.len() as int);
    assert forall|k: int| 0 <= k < nl implies after[k] == name[k] && !is_space(name[k]) by {
        assert(line[ml + k] == name[k]);
    }
    if after.len() > nl {
        assert(after[nl] == line[ml + nl]);
        assert(line[ml + nl] == rest[0]);
    }
    assert(!is_space(after[0]));
    assert(first_non_space_from(after, 0) == 0);
    lemma_word_end(after, name, 0);
    assert(after.subrange(0, nl) =~= name);
    if state == TestState::Failed {
        assert(t[4] == 'F');
        assert(!"--- PASS: "@.is_prefix_of(t)) by {
            assert("--- PASS: "@[4] == 'P');
        }
    } else if state == TestState::Skipped {
        assert(t[4] == 'S');
        assert(!"--- PASS: "@.is_prefix_of(t)) by {
            assert("--- PASS: "@[4] == 'P');
        }
        assert(!"--- FAIL: "@.is_prefix_of(t)) by {
            assert("--- FAIL: "@[4] == 'F');
        }
    }
}

/// In a text whose first `w` characters hold no space, a pattern that
/// starts with a space and occurs at `w` is first found at `w`.
proof fn lemma_found_after_word(s: Seq<char>, p: Seq<char>, w: int, i: int)
    requires
        0 <= i <= w,
        p.len() > 0,
        is_space(p[0]),
        occurs_at(s, p, w),
        forall|k: int| 0 <= k < w ==> !is_space(#[trigger] s[k]),
    ensures
        find_from(s, p, i) == Some(w),
    decreases w - i,
{
    if i < w {
        assert(!occurs_at(s, p, i)) by {
            if occurs_at(s, p, i) {
                assert(s.subrange(i, i + p.len())[0] == s[i]);
            }
        }
        lemma_found_after_word(s, p, w, i + 1);
    }
}

/// A `cargo test` result line names the test by what stands between
/// `test ` and ` ... `: for `test ` + a name without spaces + ` ... ` + `ok`,
/// `FAILED` or `ignored`, the line reports that name as passed, failed or
/// skipped.
pub proof fn lemma_cargo_line_names_test(name: Seq<char>, status: Seq<char>, state: TestState)
    requires
        (status == "ok"@ && state == TestState::Passed) || (status == "FAILED"@ && state == TestState::Failed)
            || (status == "ignored"@ && state == TestState::Skipped),
        forall|k: int| 0 <= k < name.len() ==> !is_space(#[trigger] name[k]),
    ensures
        cargo_line_outcome("test "@ + name + " ... "@ + status) == Some((name, state)),
{
    reveal_strlit("test ");
    reveal_strlit(" ... ");
    reveal_strlit("ok");
    reveal_strlit("FAILED");
    reveal_strlit("ignored");
    let line = "test "@ + name + " ... "@ + status;
    let sep = " ... "@;
    assert(line[0] == 't');
    assert(!is_space(line[0]));
    assert(first_non_space_from(line, 0) == 0);
    assert(!is_space(line[line.len() - 1]));
    assert(trimmed_end_before(line, line.len() as int) == line.len());
    let t = spec_trim(line);
    assert(t =~= line);
    assert("test "@.is_prefix_of(t)) by {
        assert(t.subrange(0, 5) =~= "test "@);
    }
    let rest = t.subrange(5, t.len() as int);
    let nl = name.len() as int;
    assert(rest =~= name + sep + status);
    assert(rest.subrange(nl, nl + 5) =~= sep);
    assert forall|k: int| 0 <= k < nl implies !is_space(#[trigger] rest[k]) by {
        assert(rest[k] == name[k]);
    }
    lemma_found_after_word(rest, sep, nl, 0);
    assert(spec_find(rest, sep) == Some(nl));
    assert(rest.subrange(0, nl) =~= name);
    let st = rest.subrange(nl + 5, rest.len() as int);
    assert(st =~= status);
    assert(!is_space(status[0]));
    assert(first_non_space_from(status, 0) == 0);
    assert(!is_space(status[status.len() - 1]));
    assert(trimmed_end_before(status, status.len() as int) == status.len());
    assert(spec_trim(status) =~= status);
}

} // verus!
