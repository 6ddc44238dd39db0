//! Construction of the service's JSON response bodies, byte for byte:
//! the status document, the fixed error document and the greeting.
//!
//! Bodies are built as UTF-8 bytes. String fields are JSON-escaped: the
//! quote and the backslash get a backslash, control bytes become `\u00..`
//! escapes, and every other byte stands unchanged.

use vstd::prelude::*;
use vstd::string::StringSliceAdditionalSpecFns;
use vstd::utf8::encode_utf8;

use crate::metadata::{Metadata, MetadataView};

verus! {

/// The lower-case hexadecimal digit for `n`, as an ASCII byte.
pub open spec fn hex_digit(n: u8) -> u8 {
    if n < 10 {
        (48 + n) as u8
    } else {
        (87 + n) as u8
    }
}

/// How one byte of a JSON string field is written.
pub open spec fn escaped_byte(b: u8) -> Seq<u8> {
    if b == 34 || b == 92 {
        seq![92u8, b]
    } else if b < 32 {
        seq![92u8, 117u8, 48u8, 48u8, hex_digit(b / 16), hex_digit(b % 16)]
    } else {
        seq![b]
    }
}

/// The JSON escaping of a string field's bytes.
pub open spec fn json_escape(s: Seq<u8>) -> Seq<u8>
    decreases s.len(),
{
    if s.len() == 0 {
        Seq::empty()
    } else {
        escaped_byte(s[0]) + json_escape(s.drop_first())
    }
}

/// The bytes of a JSON string literal holding `s`: quoted and escaped.
pub open spec fn quoted(s: Seq<u8>) -> Seq<u8> {
    seq![34u8] + json_escape(s) + seq![34u8]
}

proof fn lemma_json_escape_step(s: Seq<u8>, i: int)
    requires
        0 <= i < s.len(),
    ensures
        json_escape(s.take(i + 1)) == json_escape(s.take(i)) + escaped_byte(s[i]),
    decreases i,
{
    if i == 0 {
        assert(s.take(1).drop_first() =~= Seq::<u8>::empty());
        assert(s.take(1)[0] == s[0]);
        assert(s.take(0) =~= Seq::<u8>::empty());
        assert(json_escape(s.take(1)) == escaped_byte(s[0]) + json_escape(Seq::<u8>::empty()));
        assert(escaped_byte(s[0]) + Seq::<u8>::empty() =~= escaped_byte(s[0]));
        assert(json_escape(s.take(0)) + escaped_byte(s[0]) =~= escaped_byte(s[0]));
    } else {
        let t = s.drop_first();
        lemma_json_escape_step(t, i - 1);
        assert(s.take(i + 1).drop_first() =~= t.take(i));
        assert(s.take(i).drop_first() =~= t.take(i - 1));
        assert(s.take(i + 1)[0] == s[0]);
        assert(s.take(i)[0] == s[0]);
        assert(json_escape(s.take(i + 1)) == escaped_byte(s[0]) + json_escape(t.take(i)));
        assert(escaped_byte(s[0]) + (json_escape(t.take(i - 1)) + escaped_byte(t[i - 1]))
            =~= (escaped_byte(s[0]) + json_escape(t.take(i - 1))) + escaped_byte(t[i - 1]));
        assert(json_escape(s.take(i)) == escaped_byte(s[0]) + json_escape(t.take(i - 1)));
        assert(t[i - 1] == s[i]);
    }
}

/// Append the bytes of `s` to `out` unchanged.
fn append_bytes(out: &mut Vec<u8>, s: &[u8])
    ensures
        final(out)@ == old(out)@ + s@,
{
    let n = s.len();
    let mut i: usize = 0;
    while i < n
        invariant
            n == s@.len(),
            0 <= i <= n,
            out@ == old(out)@ + s@.take(i as int),
        decreases n - i,
    {
        out.push(s[i]);
        proof {
            assert((old(out)@ + s@.take(i as int)).push(s@[i as int]) =~= old(out)@ + s@.take(
                i + 1,
            ));
        }
        i = i + 1;
    }
    proof {
        assert(s@.take(n as int) =~= s@);
    }
}

/// Append the bytes of the string `s` to `out`.
fn append_str(out: &mut Vec<u8>, s: &str)
    ensures
        final(out)@ == old(out)@ + encode_utf8(s@),
{
    append_bytes(out, s.as_bytes());
}

fn hex_low(n: u8) -> (r: u8)
    requires
        n < 16,
    ensures
        r == hex_digit(n),
{
    if n < 10 {
        48 + n
    } else {
        87 + n
    }
}

/// Append the JSON escaping of the bytes of `s` to `out`.
fn append_escaped(out: &mut Vec<u8>, s: &[u8])
    ensures
        final(out)@ == old(out)@ + json_escape(s@),
{
    let n = s.len();
    let mut i: usize = 0;
    while i < n
        invariant
            n == s@.len(),
            0 <= i <= n,
            out@ == old(out)@ + json_escape(s@.take(i as int)),
        decreases n - i,
    {
        let b = s[i];
        if b == 34 || b == 92 {
            out.push(92);
            out.push(b);
        } else if b < 32 {
            out.push(92);
            out.push(117);
            out.push(48);
            out.push(48);
            out.push(hex_low(b / 16));
            out.push(hex_low(b % 16));
        }
        if !(b == 34 || b == 92 || b < 32) {
            out.push(b);
        }
        proof {
            lemma_json_escape_step(s@, i as int);
            assert(out@ =~= old(out)@ + json_escape(s@.take(i + 1)));
        }
        i = i + 1;
    }
    proof {
        assert(s@.take(n as int) =~= s@);
    }
}

/// Append a JSON string literal holding the bytes of `s` to `out`.
fn append_quoted(out: &mut Vec<u8>, s: &[u8])
    ensures
        final(out)@ == old(out)@ + quoted(s@),
{
    out.push(34);
    proof {
        assert(old(out)@.push(34u8) =~= old(out)@ + seq![34u8]);
    }
    append_escaped(out, s);
    out.push(34);
    proof {
        assert(((old(out)@ + seq![34u8]) + json_escape(s@)).push(34u8) =~= old(out)@ + quoted(
            s@,
        ));
    }
}

/// The version field of the status document: the metadata version, a dash,
/// and the build number.
pub open spec fn spec_version_field(version: Seq<char>, build: Seq<char>) -> Seq<u8> {
    encode_utf8(version) + seq![45u8] + encode_utf8(build)
}

/// The build number to report: the given one, or `"0"` when none is set.
pub open spec fn spec_build_number(build: Option<&str>) -> Seq<char> {
    match build {
        Some(b) => b@,
        None => "0"@,
    }
}

/// The status document for a snapshot's fields, byte for byte.
pub open spec fn spec_status_body(m: MetadataView, build: Seq<char>, sha: Seq<char>) -> Seq<u8> {
    encode_utf8("{\"my-application\":[{\"description\":"@) + quoted(encode_utf8(m.description))
        + encode_utf8(",\"version\":"@) + quoted(spec_version_field(m.version, build))
        + encode_utf8(",\"sha\":"@) + quoted(encode_utf8(sha)) + encode_utf8("}]}"@)
}

/// The error document for a message, byte for byte.
pub open spec fn spec_error_body(message: Seq<char>) -> Seq<u8> {
    encode_utf8("{\"error\":"@) + quoted(encode_utf8(message)) + encode_utf8("}"@)
}

/// Build the status document: the snapshot's description, its version with
/// the build number appended (defaulting to `"0"`), and its revision hash.
pub fn status_body(metadata: &Metadata, build: Option<&str>, sha: &str) -> (r: Vec<u8>)
    ensures
        r@ == spec_status_body(metadata@, spec_build_number(build), sha@),
{
    let build_str: &str = match build {
        Some(b) => b,
        None => "0",
    };
    let mut version_field: Vec<u8> = Vec::new();
    append_str(&mut version_field, metadata.version.as_str());
    version_field.push(45);
    proof {
        assert((encode_utf8(metadata.version@) + Seq::<u8>::empty()).push(45u8) =~= encode_utf8(
            metadata.version@,
        ) + seq![45u8]);
    }
    append_str(&mut version_field, build_str);
    proof {
        assert(version_field@ =~= spec_version_field(metadata.version@, spec_build_number(build)));
    }
    let mut out: Vec<u8> = Vec::new();
    append_str(&mut out, "{\"my-application\":[{\"description\":");
    append_quoted(&mut out, metadata.description.as_str().as_bytes());
    append_str(&mut out, ",\"version\":");
    append_quoted(&mut out, version_field.as_slice());
    append_str(&mut out, ",\"sha\":");
    append_quoted(&mut out, sha.as_bytes());
    append_str(&mut out, "}]}");
    proof {
        assert(out@ =~= spec_status_body(metadata@, spec_build_number(build), sha@));
    }
    out
}

/// Build the error document carrying `message`.
pub fn error_body(message: &str) -> (r: Vec<u8>)
    ensures
        r@ == spec_error_body(message@),
{
    let mut out: Vec<u8> = Vec::new();
    append_str(&mut out, "{\"error\":");
    append_quoted(&mut out, message.as_bytes());
    append_str(&mut out, "}");
    proof {
        assert(out@ =~= spec_error_body(message@));
    }
    out
}

/// Build the greeting document of the root route.
pub fn greeting_body() -> (r: Vec<u8>)
    ensures
        r@ == encode_utf8("{\"message\":\"Hello World\"}"@),
{
    let mut out: Vec<u8> = Vec::new();
    append_str(&mut out, "{\"message\":\"Hello World\"}");
    proof {
        assert(out@ =~= encode_utf8("{\"message\":\"Hello World\"}"@));
    }
    out
}

} // verus!
