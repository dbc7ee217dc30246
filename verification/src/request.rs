//! The parameters of one generation call, and their verified framing into
//! the JSON document the generation API expects. The field names are fixed
//! by the API contract; the values are rendered by the verified decimal
//! functions and a verified string escaper.

use vstd::prelude::*;
use vstd::string::*;

use crate::numfmt::{spec_dec_digits, spec_milli_digits, spec_signed_digits, append_i32,
    append_milli, append_u64};
use crate::messages::Note;
use crate::style::Style;

verus! {

/// Everything one generation request carries. The coordinator fills it from
/// the session; the network worker encodes it and posts it to the API.
pub struct GenerateRequest {
    /// Tempo in thousandths of a beat per minute.
    pub bpm_milli: u64,
    /// Requested length in beats; the service currently ignores it.
    pub duration: u32,
    /// The scale's root note.
    pub scale: Note,
    /// The instrument style to generate with.
    pub style: Style,
    /// Numerator of the host's time signature.
    pub time_signature_num: i32,
    /// Denominator of the host's time signature.
    pub time_signature_den: i32,
}

/// Why no request was issued or no link came back.
#[derive(Debug, Clone, PartialEq, Eq)]
pub enum GenerationError {
    /// No style was selected, so no network call was made.
    NoStyleSelected,
    /// The call itself failed: transport, status or response shape.
    Failed(String),
}

/// Characters the JSON string escaper rewrites.
pub open spec fn is_escaped_char(c: char) -> bool {
    c == '"' || c == '\\' || c == '\n' || c == '\r' || c == '\t'
}

/// What one character becomes inside a JSON string literal. The values
/// framed here — note names, style names — contain no other control
/// characters, so the escaper handles exactly these five.
pub open spec fn spec_escape_char(c: char) -> Seq<char> {
    if c == '"' {
        seq!['\\', '"']
    } else if c == '\\' {
        seq!['\\', '\\']
    } else if c == '\n' {
        seq!['\\', 'n']
    } else if c == '\r' {
        seq!['\\', 'r']
    } else if c == '\t' {
        seq!['\\', 't']
    } else {
        seq![c]
    }
}

/// A whole string's contents escaped for a JSON string literal.
pub open spec fn spec_json_escape(s: Seq<char>) -> Seq<char>
    decreases s.len(),
{
    if s.len() == 0 {
        Seq::empty()
    } else {
        spec_json_escape(s.drop_last()) + spec_escape_char(s.last())
    }
}

/// Append one escape sequence.
fn append_escape(out: &mut String, c: char)
    requires
        is_escaped_char(c),
    ensures
        final(out)@ == old(out)@ + spec_escape_char(c),
{
    proof {
        reveal_strlit("\\\"");
        reveal_strlit("\\\\");
        reveal_strlit("\\n");
        reveal_strlit("\\r");
        reveal_strlit("\\t");
        assert("\\\""@ =~= spec_escape_char('"'));
        assert("\\\\"@ =~= spec_escape_char('\\'));
        assert("\\n"@ =~= spec_escape_char('\n'));
        assert("\\r"@ =~= spec_escape_char('\r'));
        assert("\\t"@ =~= spec_escape_char('\t'));
    }
    if c == '"' {
        out.append("\\\"");
    } else if c == '\\' {
        out.append("\\\\");
    } else if c == '\n' {
        out.append("\\n");
    } else if c == '\r' {
        out.append("\\r");
    } else {
        out.append("\\t");
    }
}

/// Append a string with its JSON escapes applied.
pub fn append_json_escaped(out: &mut String, s: &str)
    ensures
        final(out)@ == old(out)@ + spec_json_escape(s@),
{
    let len = s.unicode_len();
    let mut start: usize = 0;
    let mut i: usize = 0;
    while i < len
        invariant
            len == s@.len(),
            start <= i <= len,
            forall|j: int| start <= j < i ==> !is_escaped_char(#[trigger] s@[j]),
            out@ + s@.subrange(start as int, i as int) == old(out)@ + spec_json_escape(
                s@.take(i as int),
            ),
        decreases len - i,
    {
        let c = s.get_char(i);
        proof {
            assert(s@.take(i + 1).drop_last() =~= s@.take(i as int));
            assert(s@.take(i + 1).last() == s@[i as int]);
            assert(spec_json_escape(s@.take(i + 1)) == spec_json_escape(s@.take(i as int))
                + spec_escape_char(s@[i as int]));
        }
        if c == '"' || c == '\\' || c == '\n' || c == '\r' || c == '\t' {
            let run = s.substring_char(start, i);
            out.append(run);
            append_escape(out, c);
            proof {
                assert(out@ =~= old(out)@ + spec_json_escape(s@.take(i + 1)));
                assert(out@ + s@.subrange(i + 1, i + 1) =~= out@);
            }
            i = i + 1;
            start = i;
        } else {
            proof {
                assert(spec_escape_char(s@[i as int]) =~= seq![s@[i as int]]);
                assert(s@.subrange(start as int, i + 1) =~= s@.subrange(start as int, i as int)
                    + seq![s@[i as int]]);
                assert(out@ + s@.subrange(start as int, i + 1) =~= (out@ + s@.subrange(
                    start as int,
                    i as int,
                )) + seq![s@[i as int]]);
                assert((out@ + s@.subrange(start as int, i as int)) + seq![s@[i as int]] == (old(
                    out,
                )@ + spec_json_escape(s@.take(i as int))) + seq![s@[i as int]]);
                assert((old(out)@ + spec_json_escape(s@.take(i as int))) + seq![s@[i as int]] =~= old(
                    out,
                )@ + spec_json_escape(s@.take(i + 1)));
                assert(out@ + s@.subrange(start as int, i + 1) =~= old(out)@ + spec_json_escape(
                    s@.take(i + 1),
                ));
            }
            i = i + 1;
        }
    }
    let tail = s.substring_char(start, len);
    out.append(tail);
    proof {
        assert(s@.take(len as int) =~= s@);
        assert(final(out)@ =~= old(out)@ + spec_json_escape(s@));
    }
}

/// The exact JSON document sent for given request values: the API's fixed
/// field names around the rendered values.
pub open spec fn spec_encoded_body(
    bpm_milli: nat,
    duration: nat,
    scale: Note,
    style: Style,
    time_signature_num: int,
    time_signature_den: int,
) -> Seq<char> {
    "{\"bpm\":"@ + spec_milli_digits(bpm_milli) + ",\"duration\":"@ + spec_dec_digits(duration)
        + ",\"scale\":\""@ + spec_json_escape(scale.spec_name()) + "\",\"style\":\""@ + spec_json_escape(
        style.spec_name(),
    ) + "\",\"timeSignatureNum\":"@ + spec_signed_digits(time_signature_num)
        + ",\"timeSignatureDen\":"@ + spec_signed_digits(time_signature_den) + "}"@
}

/// The exact JSON document sent for a request.
pub open spec fn spec_encoded_request(req: GenerateRequest) -> Seq<char> {
    spec_encoded_body(
        req.bpm_milli as nat,
        req.duration as nat,
        req.scale,
        req.style,
        req.time_signature_num as int,
        req.time_signature_den as int,
    )
}

/// Frame a request as the JSON body to post.
pub fn encode_generate_request(req: &GenerateRequest) -> (r: String)
    ensures
        r@ == spec_encoded_request(*req),
{
    let mut out = String::new();
    out.append("{\"bpm\":");
    append_milli(&mut out, req.bpm_milli);
    out.append(",\"duration\":");
    append_u64(&mut out, req.duration as u64);
    out.append(",\"scale\":\"");
    append_json_escaped(&mut out, req.scale.name());
    out.append("\",\"style\":\"");
    append_json_escaped(&mut out, req.style.name());
    out.append("\",\"timeSignatureNum\":");
    append_i32(&mut out, req.time_signature_num);
    out.append(",\"timeSignatureDen\":");
    append_i32(&mut out, req.time_signature_den);
    out.append("}");
    proof {
        assert(out@ =~= spec_encoded_request(*req));
    }
    out
}

/// The front half of a generation call: check the style is selected before
/// any network work, then frame the body. Fails with `NoStyleSelected`, and
/// only then, when no style is given.
pub fn build_generate_body(
    bpm_milli: u64,
    style: Option<Style>,
    scale: Note,
    time_signature_num: i32,
    time_signature_den: i32,
) -> (r: Result<String, GenerationError>)
    ensures
        style is Some ==> (r matches Ok(body) && body@ == spec_encoded_body(
            bpm_milli as nat,
            128,
            scale,
            style.unwrap(),
            time_signature_num as int,
            time_signature_den as int,
        )),
        style is None ==> r == Err::<String, GenerationError>(GenerationError::NoStyleSelected),
{
    match style {
        Some(style) => {
            let req = GenerateRequest {
                bpm_milli,
                duration: 128,
                scale,
                style,
                time_signature_num,
                time_signature_den,
            };
            Ok(encode_generate_request(&req))
        },
        None => Err(GenerationError::NoStyleSelected),
    }
}

} // verus!
