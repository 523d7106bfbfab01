//! The pinned ONNX Runtime selection: the two-line configuration file that
//! records the runtime library's path and SHA-256, and the check that a
//! chosen file is named like the platform's runtime library.
use vstd::prelude::*;
use vstd::string::*;
use crate::lens::ascii_fold;

verus! {

/// Index of the first line feed at or after `from`, or the text's length.
pub open spec fn line_end(s: Seq<char>, from: int) -> int
    decreases s.len() - from,
{
    if from >= s.len() {
        s.len() as int
    } else if s[from] == '\n' {
        from
    } else {
        line_end(s, from + 1)
    }
}

pub proof fn lemma_line_end_bounds(s: Seq<char>, from: int)
    requires
        0 <= from <= s.len(),
    ensures
        from <= line_end(s, from) <= s.len(),
    decreases s.len() - from,
{
    if from < s.len() && s[from] != '\n' {
        lemma_line_end_bounds(s, from + 1);
    }
}

/// A line with the carriage return of a CRLF ending removed.
pub open spec fn strip_cr(line: Seq<char>) -> Seq<char> {
    if line.len() > 0 && line.last() == '\r' {
        line.drop_last()
    } else {
        line
    }
}

/// The lines of a text as `str::lines` yields them: split at `\n` or
/// `\r\n`, without the endings, and without an empty line after a final
/// line ending.
pub open spec fn text_lines(s: Seq<char>) -> Seq<Seq<char>>
    decreases s.len(),
{
    if s.len() == 0 {
        Seq::empty()
    } else {
        let end = line_end(s, 0);
        if end >= s.len() {
            seq![s]
        } else {
            proof {
                lemma_line_end_bounds(s, 0);
            }
            seq![strip_cr(s.subrange(0, end))] + text_lines(s.subrange(end + 1, s.len() as int))
        }
    }
}

/// A lower-case hexadecimal digit.
pub open spec fn is_lower_hex(c: char) -> bool {
    ('0' <= c && c <= '9') || ('a' <= c && c <= 'f')
}

/// A SHA-256 digest written as 64 lower-case hexadecimal digits.
pub open spec fn is_sha256_hex(s: Seq<char>) -> bool {
    s.len() == 64 && forall|i: int| 0 <= i < s.len() ==> #[trigger] is_lower_hex(s[i])
}

pub open spec fn has_prefix(s: Seq<char>, prefix: Seq<char>) -> bool {
    prefix.len() <= s.len() && s.subrange(0, prefix.len() as int) == prefix
}

/// The recorded runtime, as `(path, sha256)`: exactly two lines,
/// `sha256=<digest>` and `path=<path>`, with a well-formed digest.
pub open spec fn parse_runtime_config(text: Seq<char>) -> Option<(Seq<char>, Seq<char>)> {
    let lines = text_lines(text);
    if lines.len() == 2 && has_prefix(lines[0], "sha256="@) && has_prefix(lines[1], "path="@)
        && is_sha256_hex(lines[0].skip(7)) {
        Some((lines[1].skip(5), lines[0].skip(7)))
    } else {
        None
    }
}

/// The configuration text that records `path` and its digest.
pub open spec fn runtime_config_text(path: Seq<char>, sha256: Seq<char>) -> Seq<char> {
    "sha256="@ + sha256 + "\n"@ + "path="@ + path + "\n"@
}

/// Whether a text holds a line break.
pub open spec fn has_line_break(s: Seq<char>) -> bool {
    exists|i: int| 0 <= i < s.len() && (s[i] == '\n' || s[i] == '\r')
}

/// The line end is the first line feed at or after `from`.
proof fn lemma_line_end_at(s: Seq<char>, from: int, k: int)
    requires
        0 <= from <= k <= s.len(),
        forall|i: int| from <= i < k ==> s[i] != '\n',
        k < s.len() ==> s[k] == '\n',
    ensures
        line_end(s, from) == k,
    decreases k - from,
{
    if from < k {
        lemma_line_end_at(s, from + 1, k);
    }
}

/// The lines of a text that starts with a line ended by a line feed.
proof fn lemma_text_lines_first(s: Seq<char>, k: int)
    requires
        0 <= k < s.len(),
        forall|i: int| 0 <= i < k ==> s[i] != '\n',
        s[k] == '\n',
    ensures
        text_lines(s) == seq![strip_cr(s.subrange(0, k))] + text_lines(s.subrange(k + 1, s.len() as int)),
{
    lemma_line_end_at(s, 0, k);
}

/// What the configuration file holds is what was written to it.
pub proof fn lemma_runtime_config_round_trip(path: Seq<char>, sha256: Seq<char>)
    requires
        is_sha256_hex(sha256),
        !has_line_break(path),
    ensures
        parse_runtime_config(runtime_config_text(path, sha256)) == Some((path, sha256)),
{
    let first = "sha256="@ + sha256;
    let second = "path="@ + path;
    let text = runtime_config_text(path, sha256);
    let tail = second + "\n"@;
    assert(text =~= first + "\n"@ + tail);
    assert("sha256="@.len() == 7) by {
        reveal_strlit("sha256=");
    }
    assert("path="@.len() == 5) by {
        reveal_strlit("path=");
    }
    assert("\n"@ =~= seq!['\n']) by {
        reveal_strlit("\n");
    }
    assert forall|i: int| 0 <= i < first.len() implies text[i] != '\n' by {
        reveal_strlit("sha256=");
        if i >= 7 {
            assert(is_lower_hex(sha256[i - 7]));
        }
    }
    lemma_text_lines_first(text, first.len() as int);
    assert(text.subrange(0, first.len() as int) =~= first);
    assert(text.subrange(first.len() as int + 1, text.len() as int) =~= tail);
    assert(first.last() == sha256[63]);
    assert(is_lower_hex(sha256[63]));
    assert(strip_cr(first) == first);
    assert forall|i: int| 0 <= i < second.len() implies tail[i] != '\n' by {
        reveal_strlit("path=");
        if i >= 5 {
            assert(!(path[i - 5] == '\n' || path[i - 5] == '\r'));
        }
    }
    lemma_text_lines_first(tail, second.len() as int);
    assert(tail.subrange(0, second.len() as int) =~= second);
    assert(tail.subrange(second.len() as int + 1, tail.len() as int) =~= Seq::<char>::empty());
    assert(second.last() != '\r') by {
        reveal_strlit("path=");
        if path.len() > 0 {
            assert(second.last() == path[path.len() - 1]);
            assert(!(path[path.len() - 1] == '\n' || path[path.len() - 1] == '\r'));
        }
    }
    assert(strip_cr(second) == second);
    let lines = text_lines(text);
    assert(lines =~= seq![first, second]);
    assert(first.subrange(0, 7) =~= "sha256="@);
    assert(second.subrange(0, 5) =~= "path="@);
    assert(first.skip(7) =~= sha256);
    assert(second.skip(5) =~= path);
}

/// Whether `s` starts with `prefix`.
fn starts_with(s: &str, prefix: &str) -> (found: bool)
    ensures
        found == has_prefix(s@, prefix@),
{
    let n = s.unicode_len();
    let m = prefix.unicode_len();
    if m > n {
        return false;
    }
    let mut i: usize = 0;
    while i < m
        invariant
            n == s@.len(),
            m == prefix@.len(),
            m <= n,
            i <= m,
            forall|k: int| 0 <= k < i ==> s@[k] == prefix@[k],
        decreases m - i,
    {
        if s.get_char(i) != prefix.get_char(i) {
            assert(s@.subrange(0, m as int)[i as int] != prefix@[i as int]);
            return false;
        }
        i += 1;
    }
    assert(s@.subrange(0, m as int) =~= prefix@);
    true
}

/// The lines of a text (`str::lines`).
pub fn split_lines(text: &str) -> (lines: Vec<String>)
    ensures
        lines@.map_values(|line: String| line@) == text_lines(text@),
{
    let n = text.unicode_len();
    let ghost s = text@;
    let mut lines: Vec<String> = Vec::new();
    let mut start: usize = 0;
    proof {
        assert(s.subrange(0, n as int) =~= s);
        assert(lines@.map_values(|line: String| line@) =~= Seq::<Seq<char>>::empty());
        assert(Seq::<Seq<char>>::empty() + text_lines(s) =~= text_lines(s));
    }
    while start < n
        invariant
            n == s.len(),
            s == text@,
            start <= n,
            lines@.map_values(|line: String| line@) + text_lines(s.subrange(start as int, n as int))
                == text_lines(s),
        decreases n - start,
    {
        let ghost rest = s.subrange(start as int, n as int);
        let mut end: usize = start;
        while end < n && text.get_char(end) != '\n'
            invariant
                n == s.len(),
                s == text@,
                start <= end <= n,
                forall|i: int| start <= i < end ==> s[i] != '\n',
            decreases n - end,
        {
            end += 1;
        }
        let ghost before = lines@.map_values(|line: String| line@);
        if end == n {
            let line = text.substring_char(start, n);
            lines.push(String::from_str(line));
            proof {
                lemma_line_end_at(rest, 0, rest.len() as int);
                assert(lines@.map_values(|line: String| line@) =~= before.push(rest));
                assert(text_lines(rest) =~= seq![rest]);
                assert(s.subrange(n as int, n as int) =~= Seq::<char>::empty());
                assert(before.push(rest) =~= before + seq![rest]);
            }
            start = n;
        } else {
            let cut = if end > start && text.get_char(end - 1) == '\r' {
                end - 1
            } else {
                end
            };
            let line = text.substring_char(start, cut);
            lines.push(String::from_str(line));
            proof {
                let k = end - start;
                assert forall|i: int| 0 <= i < k implies rest[i] != '\n' by {
                    assert(rest[i] == s[start + i]);
                }
                lemma_text_lines_first(rest, k as int);
                assert(rest.subrange(0, k as int) =~= s.subrange(start as int, end as int));
                assert(strip_cr(s.subrange(start as int, end as int)) =~= s.subrange(
                    start as int,
                    cut as int,
                ));
                assert(rest.subrange(k + 1, rest.len() as int) =~= s.subrange(end + 1, n as int));
                assert(lines@.map_values(|line: String| line@) =~= before.push(
                    s.subrange(start as int, cut as int),
                ));
                assert(before.push(s.subrange(start as int, cut as int)) + text_lines(
                    s.subrange(end + 1, n as int),
                ) =~= before + text_lines(rest));
            }
            start = end + 1;
        }
    }
    proof {
        assert(s.subrange(n as int, n as int) =~= Seq::<char>::empty());
        assert(lines@.map_values(|line: String| line@) + Seq::<Seq<char>>::empty()
            =~= lines@.map_values(|line: String| line@));
    }
    lines
}

/// Whether a text is a SHA-256 digest in lower-case hexadecimal.
fn is_sha256_text(s: &str) -> (valid: bool)
    ensures
        valid == is_sha256_hex(s@),
{
    if s.unicode_len() != 64 {
        return false;
    }
    let mut i: usize = 0;
    while i < 64
        invariant
            s@.len() == 64,
            i <= 64,
            forall|k: int| 0 <= k < i ==> #[trigger] is_lower_hex(s@[k]),
        decreases 64 - i,
    {
        let c = s.get_char(i);
        if !(('0' <= c && c <= '9') || ('a' <= c && c <= 'f')) {
            assert(!is_lower_hex(s@[i as int]));
            return false;
        }
        i += 1;
    }
    true
}

/// Reads the recorded runtime selection, as `(path, sha256)`, from the
/// configuration text. Whether the path still names a file is the caller's
/// check.
pub fn parse_runtime_selection(text: &str) -> (selection: Option<(String, String)>)
    ensures
        match selection {
            Some((path, sha256)) => parse_runtime_config(text@) == Some((path@, sha256@)),
            None => parse_runtime_config(text@) is None,
        },
{
    let lines = split_lines(text);
    proof {
        reveal_strlit("sha256=");
        reveal_strlit("path=");
    }
    if lines.len() != 2 {
        return None;
    }
    proof {
        assert(lines@.map_values(|line: String| line@)[0] == lines@[0]@);
        assert(lines@.map_values(|line: String| line@)[1] == lines@[1]@);
    }
    let sha_line = lines[0].as_str();
    let path_line = lines[1].as_str();
    if !starts_with(sha_line, "sha256=") || !starts_with(path_line, "path=") {
        return None;
    }
    let sha_len = sha_line.unicode_len();
    let path_len = path_line.unicode_len();
    let sha256 = sha_line.substring_char(7, sha_len);
    let path = path_line.substring_char(5, path_len);
    proof {
        assert(sha256@ =~= sha_line@.skip(7));
        assert(path@ =~= path_line@.skip(5));
    }
    if !is_sha256_text(sha256) {
        return None;
    }
    Some((String::from_str(path), String::from_str(sha256)))
}

/// The configuration text recording `path` and its digest; a path with a
/// line break cannot be recorded.
pub fn runtime_config_payload(path: &str, sha256: &str) -> (payload: Result<String, String>)
    ensures
        match payload {
            Ok(text) => !has_line_break(path@) && text@ == runtime_config_text(path@, sha256@),
            Err(message) => has_line_break(path@) && message@
                == "the ONNX Runtime path contains a line break"@,
        },
{
    let n = path.unicode_len();
    let mut i: usize = 0;
    while i < n
        invariant
            n == path@.len(),
            i <= n,
            forall|k: int| 0 <= k < i ==> !(path@[k] == '\n' || path@[k] == '\r'),
        decreases n - i,
    {
        let c = path.get_char(i);
        if c == '\n' || c == '\r' {
            return Err(String::from_str("the ONNX Runtime path contains a line break"));
        }
        i += 1;
    }
    let mut text = String::from_str("sha256=");
    text.append(sha256);
    text.append("\n");
    text.append("path=");
    text.append(path);
    text.append("\n");
    Ok(text)
}

/// The operating systems whose runtime library names differ.
#[derive(Clone, Copy, Debug, PartialEq, Eq, Structural)]
pub enum RuntimeOs {
    Windows,
    MacOs,
    Other,
}

/// Whether `lit` occurs in `name` at `at` when the name's ASCII capitals
/// are folded to lower case (`lit` being lower case).
pub open spec fn folded_match_at(name: Seq<char>, lit: Seq<char>, at: int) -> bool {
    &&& 0 <= at
    &&& at + lit.len() <= name.len()
    &&& forall|i: int| 0 <= i < lit.len() ==> #[trigger] ascii_fold(name[at + i]) == (lit[i] as u32)
}

/// Whether the name equals `lit` when its ASCII capitals are folded.
pub open spec fn folded_equals(name: Seq<char>, lit: Seq<char>) -> bool {
    name.len() == lit.len() && folded_match_at(name, lit, 0)
}

/// Whether a file name, compared without ASCII case, is that of the ONNX
/// Runtime shared library on `os`.
pub open spec fn looks_like_runtime(name: Seq<char>, os: RuntimeOs) -> bool {
    match os {
        RuntimeOs::Windows => folded_equals(name, "onnxruntime.dll"@),
        RuntimeOs::MacOs => folded_equals(name, "libonnxruntime.dylib"@) || (folded_match_at(
            name,
            "libonnxruntime."@,
            0,
        ) && folded_match_at(name, ".dylib"@, name.len() - ".dylib"@.len())),
        RuntimeOs::Other => folded_equals(name, "libonnxruntime.so"@) || folded_match_at(
            name,
            "libonnxruntime.so."@,
            0,
        ),
    }
}

fn folded_match_at_exec(name: &str, lit: &str, at: usize) -> (found: bool)
    ensures
        found == folded_match_at(name@, lit@, at as int),
{
    let n = name.unicode_len();
    let m = lit.unicode_len();
    if at > n || m > n - at {
        return false;
    }
    let mut i: usize = 0;
    while i < m
        invariant
            n == name@.len(),
            m == lit@.len(),
            at + m <= n,
            i <= m,
            forall|k: int| 0 <= k < i ==> #[trigger] ascii_fold(name@[at + k]) == (lit@[k] as u32),
        decreases m - i,
    {
        let c = name.get_char(at + i) as u32;
        let folded = if 65 <= c && c <= 90 {
            c + 32
        } else {
            c
        };
        if folded != lit.get_char(i) as u32 {
            assert(ascii_fold(name@[at as int + i as int]) != (lit@[i as int] as u32));
            return false;
        }
        i += 1;
    }
    true
}

/// The message shown when the chosen file is not the runtime library.
pub open spec fn runtime_name_message() -> Seq<char> {
    "Select the ONNX Runtime shared library (onnxruntime.dll, libonnxruntime.so, or libonnxruntime.dylib)."@
}

/// Checks a chosen runtime library before it is hashed and probed:
/// `is_file` says whether `path` names a file, and `file_name` is its last
/// component.
pub fn check_runtime_candidate(path: &str, is_file: bool, file_name: &str, os: RuntimeOs) -> (checked: Result<(), String>)
    ensures
        match checked {
            Ok(_) => is_file && looks_like_runtime(file_name@, os),
            Err(message) => if !is_file {
                message@ == path@ + " is not a file."@
            } else {
                !looks_like_runtime(file_name@, os) && message@ == runtime_name_message()
            },
        },
{
    if !is_file {
        let mut message = String::from_str(path);
        message.append(" is not a file.");
        return Err(message);
    }
    let n = file_name.unicode_len();
    proof {
        reveal_strlit("onnxruntime.dll");
        reveal_strlit("libonnxruntime.dylib");
        reveal_strlit("libonnxruntime.");
        reveal_strlit(".dylib");
        reveal_strlit("libonnxruntime.so");
        reveal_strlit("libonnxruntime.so.");
    }
    let looks = match os {
        RuntimeOs::Windows => n == 15 && folded_match_at_exec(file_name, "onnxruntime.dll", 0),
        RuntimeOs::MacOs => (n == 20 && folded_match_at_exec(file_name, "libonnxruntime.dylib", 0))
            || (folded_match_at_exec(file_name, "libonnxruntime.", 0) && n >= 6
            && folded_match_at_exec(file_name, ".dylib", n - 6)),
        RuntimeOs::Other => (n == 17 && folded_match_at_exec(file_name, "libonnxruntime.so", 0))
            || folded_match_at_exec(file_name, "libonnxruntime.so.", 0),
    };
    if looks {
        Ok(())
    } else {
        Err(
            String::from_str(
                "Select the ONNX Runtime shared library (onnxruntime.dll, libonnxruntime.so, or libonnxruntime.dylib).",
            ),
        )
    }
}

/// Why desktop AI tools cannot start: no runtime library was chosen, or
/// probing the chosen one failed with `error`.
pub enum RuntimeReadiness {
    NotChosen,
    ProbeFailed(String),
}

/// The notice for a runtime that is not ready.
pub open spec fn spec_runtime_notice(readiness: RuntimeReadiness) -> Seq<char> {
    match readiness {
        RuntimeReadiness::NotChosen => "Choose an ONNX Runtime library under Settings before using desktop AI tools."@,
        RuntimeReadiness::ProbeFailed(error) => "ONNX Runtime validation failed: "@ + error@
            + ". Select a different onnxruntime.dll in Settings."@,
    }
}

/// The notice for a runtime that is not ready.
pub fn runtime_notice(readiness: RuntimeReadiness) -> (notice: String)
    ensures
        notice@ == spec_runtime_notice(readiness),
{
    match readiness {
        RuntimeReadiness::NotChosen => String::from_str(
            "Choose an ONNX Runtime library under Settings before using desktop AI tools.",
        ),
        RuntimeReadiness::ProbeFailed(error) => {
            let mut notice = String::from_str("ONNX Runtime validation failed: ");
            notice.append(error.as_str());
            notice.append(". Select a different onnxruntime.dll in Settings.");
            notice
        },
    }
}

/// A failure while a chosen runtime library is vetted after its name check.
pub enum RuntimeVetting {
    /// Its SHA-256 digest could not be computed.
    HashFailed(String),
    /// Loading it in a probe process failed.
    ProbeFailed(String),
}

/// The error shown for a vetting failure.
pub open spec fn spec_vetting_error(failure: RuntimeVetting) -> Seq<char> {
    match failure {
        RuntimeVetting::HashFailed(error) => "Could not hash selected ONNX Runtime: "@ + error@,
        RuntimeVetting::ProbeFailed(error) => "This ONNX Runtime could not be loaded safely: "@
            + error@,
    }
}

/// The error shown for a vetting failure.
pub fn vetting_error(failure: RuntimeVetting) -> (message: String)
    ensures
        message@ == spec_vetting_error(failure),
{
    match failure {
        RuntimeVetting::HashFailed(error) => {
            let mut message = String::from_str("Could not hash selected ONNX Runtime: ");
            message.append(error.as_str());
            message
        },
        RuntimeVetting::ProbeFailed(error) => {
            let mut message = String::from_str("This ONNX Runtime could not be loaded safely: ");
            message.append(error.as_str());
            message
        },
    }
}

/// The notice once a runtime choice was saved (`true`) or cleared.
pub open spec fn spec_selection_notice(saved: bool) -> Seq<char> {
    if saved {
        "ONNX Runtime selection and SHA-256 pin saved. Restart AuRaw before generating another subject mask."@
    } else {
        "ONNX Runtime selection cleared. Restart AuRaw to apply the change."@
    }
}

/// The notice once a runtime choice was saved (`true`) or cleared.
pub fn selection_notice(saved: bool) -> (notice: String)
    ensures
        notice@ == spec_selection_notice(saved),
{
    if saved {
        String::from_str(
            "ONNX Runtime selection and SHA-256 pin saved. Restart AuRaw before generating another subject mask.",
        )
    } else {
        String::from_str("ONNX Runtime selection cleared. Restart AuRaw to apply the change.")
    }
}

} // verus!
