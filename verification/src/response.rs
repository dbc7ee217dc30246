//! Verified extraction of the download link from the generation API's
//! response document.
//!
//! The response is a JSON object whose `downloadLink` member holds the link;
//! the rest of the document (a preview payload) is skipped. The extractor is
//! a character-level automaton: it walks the document once, tracks strings,
//! escapes and nesting, captures the span of the string value belonging to
//! the top-level `downloadLink` key, and finally undoes the JSON escapes in
//! that span. Escapes that name a single character are supported; `\u`
//! escapes are rejected — a link never carries them.

use vstd::prelude::*;
use vstd::string::*;

use crate::request::GenerationError;

verus! {

/// The member name whose value is the link.
pub open spec fn link_key() -> Seq<char> {
    "downloadLink"@
}

/// JSON whitespace.
pub open spec fn is_json_ws(c: char) -> bool {
    c == ' ' || c == '\t' || c == '\n' || c == '\r'
}

/// Where the scan stands after some prefix of the document. Spans are
/// character positions into the document.
#[derive(Debug, Clone, Copy, PartialEq, Eq, Structural)]
pub enum ScanState {
    /// Before the object's opening brace.
    Start,
    /// Inside the object, before a member's key.
    ExpectKey,
    /// Inside a key string; `matched` counts how many characters of the
    /// link key have matched so far, if all did up to here (the key has 12
    /// characters).
    InKey { matched: Option<usize> },
    /// After a backslash inside a key string.
    KeyEscape,
    /// After a key's closing quote; `matched` says it was the link key.
    AfterKey { matched: bool },
    /// After the colon, before the member's value.
    ExpectValue { matched: bool },
    /// Inside the link's string value, which began at `start`.
    TargetValue { start: usize },
    /// After a backslash inside the link's value.
    TargetEscape { start: usize },
    /// Inside some other member's string value.
    SkipString,
    /// After a backslash inside some other member's string value.
    SkipStringEscape,
    /// Inside some other member's object or array value, `depth` levels in.
    SkipValue { depth: usize },
    /// Inside a string nested in such a value.
    SkipValueString { depth: usize },
    /// After a backslash inside such a nested string.
    SkipValueStringEscape { depth: usize },
    /// Inside some other member's bare scalar value.
    SkipScalar,
    /// After some other member's value, before the comma or closing brace.
    AfterValue,
    /// The link's value spans the positions `start` up to `end`.
    Done { start: usize, end: usize },
    /// The document ended or went wrong without yielding a link.
    Failed,
}

/// How far the key has matched after one more key character.
pub open spec fn spec_advance_key_match(matched: Option<usize>, c: char) -> Option<usize> {
    match matched {
        Some(k) => if k < 12 && c == link_key()[k as int] {
            Some((k + 1) as usize)
        } else {
            None
        },
        None => None,
    }
}

/// One automaton step: the state after reading character `c` at position
/// `pos`.
pub open spec fn spec_scan_step(st: ScanState, c: char, pos: usize) -> ScanState {
    match st {
        ScanState::Start => if c == '{' {
            ScanState::ExpectKey
        } else if is_json_ws(c) {
            ScanState::Start
        } else {
            ScanState::Failed
        },
        ScanState::ExpectKey => if c == '"' {
            ScanState::InKey { matched: Some(0) }
        } else if is_json_ws(c) {
            ScanState::ExpectKey
        } else {
            ScanState::Failed
        },
        ScanState::InKey { matched } => if c == '"' {
            ScanState::AfterKey { matched: matched == Some(12usize) }
        } else if c == '\\' {
            ScanState::KeyEscape
        } else {
            ScanState::InKey { matched: spec_advance_key_match(matched, c) }
        },
        ScanState::KeyEscape => ScanState::InKey { matched: None },
        ScanState::AfterKey { matched } => if c == ':' {
            ScanState::ExpectValue { matched }
        } else if is_json_ws(c) {
            ScanState::AfterKey { matched }
        } else {
            ScanState::Failed
        },
        ScanState::ExpectValue { matched } => if is_json_ws(c) {
            ScanState::ExpectValue { matched }
        } else if c == '"' {
            if matched {
                ScanState::TargetValue { start: (pos + 1) as usize }
            } else {
                ScanState::SkipString
            }
        } else if matched {
            ScanState::Failed
        } else if c == '{' || c == '[' {
            ScanState::SkipValue { depth: 1 }
        } else {
            ScanState::SkipScalar
        },
        ScanState::TargetValue { start } => if c == '"' {
            ScanState::Done { start, end: pos }
        } else if c == '\\' {
            ScanState::TargetEscape { start }
        } else {
            ScanState::TargetValue { start }
        },
        ScanState::TargetEscape { start } => ScanState::TargetValue { start },
        ScanState::SkipString => if c == '"' {
            ScanState::AfterValue
        } else if c == '\\' {
            ScanState::SkipStringEscape
        } else {
            ScanState::SkipString
        },
        ScanState::SkipStringEscape => ScanState::SkipString,
        ScanState::SkipValue { depth } => if c == '{' || c == '[' {
            ScanState::SkipValue {
                depth: if depth == usize::MAX {
                    depth
                } else {
                    (depth + 1) as usize
                },
            }
        } else if c == '}' || c == ']' {
            if depth <= 1 {
                ScanState::AfterValue
            } else {
                ScanState::SkipValue { depth: (depth - 1) as usize }
            }
        } else if c == '"' {
            ScanState::SkipValueString { depth }
        } else {
            ScanState::SkipValue { depth }
        },
        ScanState::SkipValueString { depth } => if c == '"' {
            ScanState::SkipValue { depth }
        } else if c == '\\' {
            ScanState::SkipValueStringEscape { depth }
        } else {
            ScanState::SkipValueString { depth }
        },
        ScanState::SkipValueStringEscape { depth } => ScanState::SkipValueString { depth },
        ScanState::SkipScalar => if c == ',' {
            ScanState::ExpectKey
        } else if c == '}' {
            ScanState::Failed
        } else {
            ScanState::SkipScalar
        },
        ScanState::AfterValue => if c == ',' {
            ScanState::ExpectKey
        } else if c == '}' {
            ScanState::Failed
        } else if is_json_ws(c) {
            ScanState::AfterValue
        } else {
            ScanState::Failed
        },
        ScanState::Done { start, end } => ScanState::Done { start, end },
        ScanState::Failed => ScanState::Failed,
    }
}

/// The state after scanning the first `n` characters of the document.
pub open spec fn spec_scan_prefix(s: Seq<char>, n: int) -> ScanState
    decreases n,
{
    if n <= 0 {
        ScanState::Start
    } else {
        spec_scan_step(spec_scan_prefix(s, n - 1), s[n - 1], (n - 1) as usize)
    }
}

/// The state after scanning the whole document.
pub open spec fn spec_scan(s: Seq<char>) -> ScanState {
    spec_scan_prefix(s, s.len() as int)
}

/// Captured spans never run ahead of the scan position.
pub open spec fn state_bounds(st: ScanState, pos: int) -> bool {
    match st {
        ScanState::TargetValue { start } => start <= pos,
        ScanState::TargetEscape { start } => start <= pos,
        ScanState::Done { start, end } => start <= end <= pos,
        _ => true,
    }
}

/// What one escape code stands for; `None` is an unsupported code.
pub open spec fn spec_escape_code(e: char) -> Option<char> {
    if e == '"' {
        Some('"')
    } else if e == '\\' {
        Some('\\')
    } else if e == '/' {
        Some('/')
    } else if e == 'n' {
        Some('\n')
    } else if e == 'r' {
        Some('\r')
    } else if e == 't' {
        Some('\t')
    } else {
        None
    }
}

/// The characters that the span from position `i` on denotes once its JSON
/// escapes are undone; `None` when an escape is unsupported or unfinished.
pub open spec fn spec_unescape_suffix(s: Seq<char>, i: int) -> Option<Seq<char>>
    decreases s.len() - i,
{
    if i < 0 || i >= s.len() {
        Some(Seq::empty())
    } else if s[i] == '\\' {
        if i + 1 >= s.len() {
            None
        } else {
            match spec_escape_code(s[i + 1]) {
                Some(c) => match spec_unescape_suffix(s, i + 2) {
                    Some(u) => Some(seq![c] + u),
                    None => None,
                },
                None => None,
            }
        }
    } else {
        match spec_unescape_suffix(s, i + 1) {
            Some(u) => Some(seq![s[i]] + u),
            None => None,
        }
    }
}

/// A whole span with its JSON escapes undone.
pub open spec fn spec_unescape(s: Seq<char>) -> Option<Seq<char>> {
    spec_unescape_suffix(s, 0)
}

/// The link the document yields: the unescaped string value of its
/// top-level `downloadLink` member, if the document has one and its escapes
/// are supported.
pub open spec fn spec_extracted_link(s: Seq<char>) -> Option<Seq<char>> {
    match spec_scan(s) {
        ScanState::Done { start, end } => if start <= end <= s.len() {
            spec_unescape(s.subrange(start as int, end as int))
        } else {
            None
        },
        _ => None,
    }
}

/// A run without backslashes unescapes to itself, followed by whatever the
/// rest unescapes to.
proof fn lemma_unescape_run(s: Seq<char>, start: int, end: int)
    requires
        0 <= start <= end <= s.len(),
        forall|j: int| start <= j < end ==> s[j] != '\\',
    ensures
        match spec_unescape_suffix(s, end) {
            Some(u) => spec_unescape_suffix(s, start) == Some(s.subrange(start, end) + u),
            None => spec_unescape_suffix(s, start) is None,
        },
    decreases end - start,
{
    if start == end {
        match spec_unescape_suffix(s, end) {
            Some(u) => {
                assert(s.subrange(start, end) + u =~= u);
            },
            None => {},
        }
    } else {
        lemma_unescape_run(s, start + 1, end);
        match spec_unescape_suffix(s, end) {
            Some(u) => {
                assert(spec_unescape_suffix(s, start) == Some(
                    seq![s[start]] + (s.subrange(start + 1, end) + u),
                ));
                assert(seq![s[start]] + (s.subrange(start + 1, end) + u) =~= s.subrange(start, end)
                    + u);
            },
            None => {},
        }
    }
}

/// One automaton step, executably.
fn scan_step(st: ScanState, c: char, pos: usize) -> (r: ScanState)
    requires
        pos < usize::MAX,
    ensures
        r == spec_scan_step(st, c, pos),
{
    proof {
        reveal_strlit("downloadLink");
    }
    let key = "downloadLink";
    match st {
        ScanState::Start => {
            if c == '{' {
                ScanState::ExpectKey
            } else if c == ' ' || c == '\t' || c == '\n' || c == '\r' {
                ScanState::Start
            } else {
                ScanState::Failed
            }
        },
        ScanState::ExpectKey => {
            if c == '"' {
                ScanState::InKey { matched: Some(0) }
            } else if c == ' ' || c == '\t' || c == '\n' || c == '\r' {
                ScanState::ExpectKey
            } else {
                ScanState::Failed
            }
        },
        ScanState::InKey { matched } => {
            if c == '"' {
                let matched_full = match matched {
                    Some(k) => k == 12,
                    None => false,
                };
                ScanState::AfterKey { matched: matched_full }
            } else if c == '\\' {
                ScanState::KeyEscape
            } else {
                let advanced = match matched {
                    Some(k) => {
                        if k < 12 && c == key.get_char(k) {
                            Some(k + 1)
                        } else {
                            None
                        }
                    },
                    None => None,
                };
                ScanState::InKey { matched: advanced }
            }
        },
        ScanState::KeyEscape => ScanState::InKey { matched: None },
        ScanState::AfterKey { matched } => {
            if c == ':' {
                ScanState::ExpectValue { matched }
            } else if c == ' ' || c == '\t' || c == '\n' || c == '\r' {
                ScanState::AfterKey { matched }
            } else {
                ScanState::Failed
            }
        },
        ScanState::ExpectValue { matched } => {
            if c == ' ' || c == '\t' || c == '\n' || c == '\r' {
                ScanState::ExpectValue { matched }
            } else if c == '"' {
                if matched {
                    ScanState::TargetValue { start: pos + 1 }
                } else {
                    ScanState::SkipString
                }
            } else if matched {
                ScanState::Failed
            } else if c == '{' || c == '[' {
                ScanState::SkipValue { depth: 1 }
            } else {
                ScanState::SkipScalar
            }
        },
        ScanState::TargetValue { start } => {
            if c == '"' {
                ScanState::Done { start, end: pos }
            } else if c == '\\' {
                ScanState::TargetEscape { start }
            } else {
                ScanState::TargetValue { start }
            }
        },
        ScanState::TargetEscape { start } => ScanState::TargetValue { start },
        ScanState::SkipString => {
            if c == '"' {
                ScanState::AfterValue
            } else if c == '\\' {
                ScanState::SkipStringEscape
            } else {
                ScanState::SkipString
            }
        },
        ScanState::SkipStringEscape => ScanState::SkipString,
        ScanState::SkipValue { depth } => {
            if c == '{' || c == '[' {
                let deeper = if depth == usize::MAX {
                    depth
                } else {
                    depth + 1
                };
                ScanState::SkipValue { depth: deeper }
            } else if c == '}' || c == ']' {
                if depth <= 1 {
                    ScanState::AfterValue
                } else {
                    ScanState::SkipValue { depth: depth - 1 }
                }
            } else if c == '"' {
                ScanState::SkipValueString { depth }
            } else {
                ScanState::SkipValue { depth }
            }
        },
        ScanState::SkipValueString { depth } => {
            if c == '"' {
                ScanState::SkipValue { depth }
            } else if c == '\\' {
                ScanState::SkipValueStringEscape { depth }
            } else {
                ScanState::SkipValueString { depth }
            }
        },
        ScanState::SkipValueStringEscape { depth } => ScanState::SkipValueString { depth },
        ScanState::SkipScalar => {
            if c == ',' {
                ScanState::ExpectKey
            } else if c == '}' {
                ScanState::Failed
            } else {
                ScanState::SkipScalar
            }
        },
        ScanState::AfterValue => {
            if c == ',' {
                ScanState::ExpectKey
            } else if c == '}' {
                ScanState::Failed
            } else if c == ' ' || c == '\t' || c == '\n' || c == '\r' {
                ScanState::AfterValue
            } else {
                ScanState::Failed
            }
        },
        ScanState::Done { start, end } => ScanState::Done { start, end },
        ScanState::Failed => ScanState::Failed,
    }
}

/// Append what one supported escape code stands for; say whether the code
/// was supported at all.
fn append_escape_code(out: &mut String, e: char) -> (ok: bool)
    ensures
        ok == (spec_escape_code(e) is Some),
        ok ==> final(out)@ == old(out)@ + seq![spec_escape_code(e).unwrap()],
        !ok ==> final(out)@ == old(out)@,
{
    proof {
        reveal_strlit("\"");
        reveal_strlit("\\");
        reveal_strlit("/");
        reveal_strlit("\n");
        reveal_strlit("\r");
        reveal_strlit("\t");
        assert("\""@ =~= seq!['"']);
        assert("\\"@ =~= seq!['\\']);
        assert("/"@ =~= seq!['/']);
        assert("\n"@ =~= seq!['\n']);
        assert("\r"@ =~= seq!['\r']);
        assert("\t"@ =~= seq!['\t']);
    }
    if e == '"' {
        out.append("\"");
        true
    } else if e == '\\' {
        out.append("\\");
        true
    } else if e == '/' {
        out.append("/");
        true
    } else if e == 'n' {
        out.append("\n");
        true
    } else if e == 'r' {
        out.append("\r");
        true
    } else if e == 't' {
        out.append("\t");
        true
    } else {
        false
    }
}

/// Undo the JSON escapes of a string value's span. Answers exactly when
/// the span's escapes are supported, with exactly the denoted characters.
pub fn unescape_json_string(s: &str) -> (r: Option<String>)
    ensures
        (r matches Some(t) ==> spec_unescape(s@) == Some(t@)),
        (r is None ==> spec_unescape(s@) is None),
{
    let len = s.unicode_len();
    let mut out = String::new();
    let mut start: usize = 0;
    let mut i: usize = 0;
    while i < len
        invariant
            len == s@.len(),
            start <= i <= len,
            forall|j: int| start <= j < i ==> s@[j] != '\\',
            (spec_unescape_suffix(s@, start as int) matches Some(u) ==> spec_unescape(s@) == Some(
                out@ + u,
            )),
            (spec_unescape_suffix(s@, start as int) is None ==> spec_unescape(s@) is None),
        decreases len - i,
    {
        let c = s.get_char(i);
        if c == '\\' {
            proof {
                lemma_unescape_run(s@, start as int, i as int);
            }
            let run = s.substring_char(start, i);
            out.append(run);
            if i + 1 == len {
                proof {
                    assert(spec_unescape_suffix(s@, i as int) is None);
                }
                return None;
            }
            let e = s.get_char(i + 1);
            let ok = append_escape_code(&mut out, e);
            if !ok {
                proof {
                    assert(spec_unescape_suffix(s@, i as int) is None);
                }
                return None;
            }
            i = i + 2;
            start = i;
            proof {
                assert(spec_unescape_suffix(s@, i - 2) matches Some(u) ==> u == seq![
                    spec_escape_code(s@[i - 1]).unwrap(),
                ] + spec_unescape_suffix(s@, i as int).unwrap());
            }
        } else {
            i = i + 1;
        }
    }
    proof {
        lemma_unescape_run(s@, start as int, len as int);
        assert(spec_unescape_suffix(s@, len as int) == Some(Seq::<char>::empty()));
    }
    let tail = s.substring_char(start, len);
    out.append(tail);
    proof {
        assert(out@ =~= spec_unescape(s@).unwrap());
    }
    Some(out)
}

/// Pull the download link out of a generation response. Succeeds exactly
/// when the document yields one, with exactly that link; everything else is
/// a `Failed` error.
pub fn extract_download_link(body: &str) -> (r: Result<String, GenerationError>)
    ensures
        (spec_extracted_link(body@) matches Some(link) ==> r matches Ok(l) && l@ == link),
        (spec_extracted_link(body@) is None ==> r is Err),
        (r matches Err(e) ==> e is Failed),
{
    let len = body.unicode_len();
    let mut st = ScanState::Start;
    let mut i: usize = 0;
    while i < len
        invariant
            len == body@.len(),
            i <= len,
            st == spec_scan_prefix(body@, i as int),
            state_bounds(st, i as int),
        decreases len - i,
    {
        let c = body.get_char(i);
        st = scan_step(st, c, i);
        i = i + 1;
    }
    match st {
        ScanState::Done { start, end } => {
            let span = body.substring_char(start, end);
            match unescape_json_string(span) {
                Some(link) => Ok(link),
                None => Err(GenerationError::Failed(String::from_str(
                    "response held an unsupported escape in its download link",
                ))),
            }
        },
        _ => Err(GenerationError::Failed(String::from_str(
            "response held no download link",
        ))),
    }
}

} // verus!
