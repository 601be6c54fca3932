//! Output sanitizer: strips terminal escape sequences from a raw line of
//! worker output, decodes it permissively, and tags it with the worker's
//! identity for the log sink.

use vstd::prelude::*;

verus! {

/// The bytes that remain after ANSI/terminal escape sequences are removed
/// from `b`; the result depends on the bytes alone.
pub uninterp spec fn stripped_of(b: Seq<u8>) -> Seq<u8>;

/// The characters obtained by decoding `b` permissively as UTF-8, with
/// invalid sequences replaced; the result depends on the bytes alone.
pub uninterp spec fn lossy_decoded(b: Seq<u8>) -> Seq<char>;

/// Relies on `strip_ansi_escapes::strip`: removes ANSI escape sequences
/// from the bytes and never fails; an empty input leaves nothing to emit.
#[verifier::external_body]
fn strip_ansi(b: &Vec<u8>) -> (r: Vec<u8>)
    ensures
        r@ == stripped_of(b@),
        b@.len() == 0 ==> r@.len() == 0,
{
    strip_ansi_escapes::strip(b)
}

/// Relies on `String::from_utf8_lossy`: decodes the bytes as UTF-8 with
/// invalid sequences replaced, never failing; an empty input decodes to
/// the empty string.
#[verifier::external_body]
fn decode_lossy(b: &Vec<u8>) -> (r: String)
    ensures
        r@ == lossy_decoded(b@),
        b@.len() == 0 ==> r@.len() == 0,
{
    String::from_utf8_lossy(b).into_owned()
}

/// Which of the worker's two output streams a line came from.
#[derive(Clone, Copy, Debug, PartialEq, Eq, Structural)]
pub enum StreamKind {
    Stdout,
    Stderr,
}

/// The tag that opens a log line for the given stream.
pub open spec fn stream_tag(kind: StreamKind) -> Seq<char> {
    match kind {
        StreamKind::Stdout => "FRPC STDOUT ["@,
        StreamKind::Stderr => "FRPC STDERR ["@,
    }
}

/// Cleans one raw line of worker output: escape sequences are stripped
/// first, and what remains is decoded permissively, so that an invalid
/// byte sequence is replaced rather than fatal.
pub fn sanitize_line(raw: &Vec<u8>) -> (r: String)
    ensures
        r@ == lossy_decoded(stripped_of(raw@)),
        raw@.len() == 0 ==> r@.len() == 0,
{
    let stripped = strip_ansi(raw);
    decode_lossy(&stripped)
}

/// Builds the log-sink line for a sanitized line of worker output,
/// tagged with the originating worker's identity and stream.
pub fn format_log_line(identity: &String, kind: StreamKind, line: &String) -> (r: String)
    ensures
        r@ == stream_tag(kind) + identity@ + "]: "@ + line@,
{
    let mut out = match kind {
        StreamKind::Stdout => String::from_str("FRPC STDOUT ["),
        StreamKind::Stderr => String::from_str("FRPC STDERR ["),
    };
    out.append(identity.as_str());
    out.append("]: ");
    out.append(line.as_str());
    out
}

} // verus!
