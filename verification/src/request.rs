//! Verified serializer for the request side of the wire protocol.
//!
//! A request is one JSON line, `{"command":<string>,"args":{<pairs>}}`,
//! followed by a single line feed written by the caller.  The serializer is
//! specified byte for byte, including the escaping of string values, and a
//! proved law states that an encoded request holds no line feed: a writer
//! that emits it and then one line feed therefore writes exactly one
//! complete protocol line.

use vstd::prelude::*;

use vstd::string::{is_ascii, StringSliceAdditionalSpecFns};
use vstd::utf8::encode_utf8;

verus! {

/// The lowercase hexadecimal digit for a value below 16.
pub open spec fn hex_digit(n: u8) -> u8 {
    if n < 10 {
        (48 + n) as u8
    } else {
        (87 + n) as u8
    }
}

/// How one byte of a string value appears inside a JSON string: the short
/// escapes of the quote, the backslash and the usual control characters, a
/// `\u00..` escape for the remaining control bytes, and the byte itself
/// otherwise.
pub open spec fn escape_byte(b: u8) -> Seq<u8> {
    if b == 34 {  // `"`
        seq![92u8, 34u8]
    } else if b == 92 {  // `\`
        seq![92u8, 92u8]
    } else if b == 8 {
        seq![92u8, 98u8]  // \b
    } else if b == 12 {
        seq![92u8, 102u8]  // \f
    } else if b == 10 {
        seq![92u8, 110u8]  // \n
    } else if b == 13 {
        seq![92u8, 114u8]  // \r
    } else if b == 9 {
        seq![92u8, 116u8]  // \t
    } else if b < 32 {
        seq![92u8, 117u8, 48u8, 48u8, hex_digit(b / 16), hex_digit(b % 16)]  // \u00..
    } else {
        seq![b]
    }
}

/// The bytes of a string value with every byte escaped as JSON asks.
pub open spec fn spec_escape(s: Seq<u8>) -> Seq<u8>
    decreases s.len(),
{
    if s.len() == 0 {
        Seq::empty()
    } else {
        spec_escape(s.drop_last()) + escape_byte(s.last())
    }
}

/// A JSON string: the escaped bytes between two quotes.
pub open spec fn spec_quoted(s: Seq<u8>) -> Seq<u8> {
    "\"".spec_bytes() + spec_escape(s) + "\"".spec_bytes()
}

/// The decimal digits of an unsigned value, most significant first.
pub open spec fn spec_u64_dec(n: nat) -> Seq<u8>
    decreases n,
{
    if n < 10 {
        seq![(48 + n) as u8]
    } else {
        spec_u64_dec(n / 10) + seq![(48 + (n % 10)) as u8]
    }
}

/// One argument value of a request: a string, an unsigned number or a
/// boolean.
#[derive(Debug, Clone, PartialEq, Eq)]
pub enum ArgValue {
    Text(String),
    Unsigned(u64),
    Flag(bool),
}

/// One `"key":value` pair of a request's argument object.
#[derive(Debug, Clone)]
pub struct RequestArg {
    pub key: String,
    pub value: ArgValue,
}

/// How one argument value is serialized.
pub open spec fn spec_value(v: ArgValue) -> Seq<u8> {
    match v {
        ArgValue::Text(s) => spec_quoted(encode_utf8(s@)),
        ArgValue::Unsigned(n) => spec_u64_dec(n as nat),
        ArgValue::Flag(b) => if b {
            "true".spec_bytes()
        } else {
            "false".spec_bytes()
        },
    }
}

/// How one `"key":value` pair is serialized.
pub open spec fn spec_pair(a: RequestArg) -> Seq<u8> {
    spec_quoted(encode_utf8(a.key@)) + ":".spec_bytes() + spec_value(a.value)
}

/// How the pairs of the argument object are serialized, joined by commas.
pub open spec fn spec_args(args: Seq<RequestArg>) -> Seq<u8>
    decreases args.len(),
{
    if args.len() == 0 {
        Seq::empty()
    } else if args.len() == 1 {
        spec_pair(args[0])
    } else {
        spec_args(args.drop_last()) + ",".spec_bytes() + spec_pair(args.last())
    }
}

/// The whole request line (without its trailing line feed).
pub open spec fn spec_request_line(command: Seq<char>, args: Seq<RequestArg>) -> Seq<u8> {
    "{\"command\":".spec_bytes() + spec_quoted(encode_utf8(command)) + ",\"args\":{".spec_bytes()
        + spec_args(args) + "}}".spec_bytes()
}

/// Append the bytes of a slice.
fn push_bytes(out: &mut Vec<u8>, src: &[u8])
    ensures
        final(out)@ == old(out)@ + src@,
{
    let n = src.len();
    let mut i: usize = 0;
    while i < n
        invariant
            n == src@.len(),
            0 <= i <= n,
            out@ == old(out)@ + src@.take(i as int),
        decreases n - i,
    {
        let b = src[i];
        out.push(b);
        proof {
            assert(src@.take(i + 1 as int) =~= src@.take(i as int).push(src@[i as int]));
        }
        i = i + 1;
    }
    proof {
        assert(src@.take(n as int) =~= src@);
    }
}

/// Append the escape of one byte.
fn push_escaped_byte(out: &mut Vec<u8>, b: u8)
    ensures
        final(out)@ == old(out)@ + escape_byte(b),
{
    if b == 34 {
        out.push(92);
        out.push(34);
    } else if b == 92 {
        out.push(92);
        out.push(92);
    } else if b == 8 {
        out.push(92);
        out.push(98);
    } else if b == 12 {
        out.push(92);
        out.push(102);
    } else if b == 10 {
        out.push(92);
        out.push(110);
    } else if b == 13 {
        out.push(92);
        out.push(114);
    } else if b == 9 {
        out.push(92);
        out.push(116);
    } else if b < 32 {
        out.push(92);
        out.push(117);
        out.push(48);
        out.push(48);
        let hi = b / 16;
        let lo = b % 16;
        out.push(if hi < 10 { 48 + hi } else { 87 + hi });
        out.push(if lo < 10 { 48 + lo } else { 87 + lo });
    } else {
        out.push(b);
    }
}

/// Append a string's bytes with JSON escaping.
fn push_escaped(out: &mut Vec<u8>, src: &[u8])
    ensures
        final(out)@ == old(out)@ + spec_escape(src@),
{
    let n = src.len();
    let mut i: usize = 0;
    while i < n
        invariant
            n == src@.len(),
            0 <= i <= n,
            out@ == old(out)@ + spec_escape(src@.take(i as int)),
        decreases n - i,
    {
        let b = src[i];
        push_escaped_byte(out, b);
        proof {
            let t = src@.take(i + 1 as int);
            assert(t.drop_last() =~= src@.take(i as int));
            assert(t.last() == src@[i as int]);
        }
        i = i + 1;
    }
    proof {
        assert(src@.take(n as int) =~= src@);
    }
}

/// Append a string value as a quoted, escaped JSON string.
fn push_quoted(out: &mut Vec<u8>, s: &str)
    ensures
        final(out)@ == old(out)@ + spec_quoted(encode_utf8(s@)),
{
    push_bytes(out, "\"".as_bytes());
    push_escaped(out, s.as_bytes());
    push_bytes(out, "\"".as_bytes());
}

/// Append the decimal digits of an unsigned value.
fn push_u64_dec(out: &mut Vec<u8>, n: u64)
    ensures
        final(out)@ == old(out)@ + spec_u64_dec(n as nat),
    decreases n,
{
    if n < 10 {
        out.push((48 + n) as u8);
    } else {
        proof {
            assert(n as nat / 10 < n as nat) by (nonlinear_arith)
                requires
                    n >= 10,
            ;
        }
        push_u64_dec(out, n / 10);
        out.push((48 + (n % 10)) as u8);
    }
}

/// Append one `"key":value` pair.
fn push_pair(out: &mut Vec<u8>, a: &RequestArg)
    ensures
        final(out)@ == old(out)@ + spec_pair(*a),
{
    push_quoted(out, a.key.as_str());
    push_bytes(out, ":".as_bytes());
    match &a.value {
        ArgValue::Text(s) => push_quoted(out, s.as_str()),
        ArgValue::Unsigned(n) => push_u64_dec(out, *n),
        ArgValue::Flag(b) => push_bytes(out, if *b { "true".as_bytes() } else { "false".as_bytes() }),
    }
}

/// Serialize one request: the command name and its argument pairs, as the
/// single JSON line the worker reads.
pub fn encode_request(command: &str, args: &Vec<RequestArg>) -> (r: Vec<u8>)
    ensures
        r@ == spec_request_line(command@, args@),
        no_lf(r@),
{
    proof {
        lemma_request_line_single_line(command@, args@);
    }
    let mut out: Vec<u8> = Vec::new();
    push_bytes(&mut out, "{\"command\":".as_bytes());
    push_quoted(&mut out, command);
    push_bytes(&mut out, ",\"args\":{".as_bytes());
    let ghost head = "{\"command\":".spec_bytes() + spec_quoted(encode_utf8(command@))
        + ",\"args\":{".spec_bytes();
    let n = args.len();
    let mut i: usize = 0;
    while i < n
        invariant
            n == args@.len(),
            0 <= i <= n,
            out@ == head + spec_args(args@.take(i as int)),
        decreases n - i,
    {
        if i > 0 {
            push_bytes(&mut out, ",".as_bytes());
        }
        push_pair(&mut out, &args[i]);
        proof {
            let t = args@.take(i + 1 as int);
            assert(t.drop_last() =~= args@.take(i as int));
            assert(t.last() == args@[i as int]);
            if i == 0 {
                assert(t =~= seq![args@[0]]);
            }
        }
        i = i + 1;
    }
    proof {
        assert(args@.take(n as int) =~= args@);
    }
    push_bytes(&mut out, "}}".as_bytes());
    out
}

/// The duration a recording request asks for, in seconds: a decimal value
/// as given, with `auto`, an absent value and an unreadable value all
/// falling back to three seconds.
pub open spec fn spec_duration_value(duration: Option<String>) -> u64 {
    match duration {
        Some(d) => if d@ == "auto"@ {
            3u64
        } else {
            match crate::strutil::spec_parse_u64(d@) {
                Some(n) => n,
                None => 3u64,
            }
        },
        None => 3u64,
    }
}

/// The argument pairs of a `record` request: the requested mode and the
/// duration in seconds.
pub fn record_request_args(mode: &str, duration: &Option<String>) -> (r: Vec<RequestArg>)
    ensures
        r@.len() == 2,
        r@[0].key@ == "mode"@,
        r@[0].value matches ArgValue::Text(s) && s@ == mode@,
        r@[1].key@ == "duration"@,
        r@[1].value == ArgValue::Unsigned(spec_duration_value(*duration)),
{
    let seconds: u64 = match duration {
        Some(d) => {
            if crate::strutil::str_eq(d.as_str(), "auto") {
                3
            } else {
                match crate::strutil::parse_u64(d.as_str()) {
                    Some(n) => n,
                    None => 3,
                }
            }
        },
        None => 3,
    };
    let mut args: Vec<RequestArg> = Vec::new();
    args.push(RequestArg { key: "mode".to_owned(), value: ArgValue::Text(mode.to_owned()) });
    args.push(RequestArg { key: "duration".to_owned(), value: ArgValue::Unsigned(seconds) });
    args
}

/// No line feed occurs in the bytes.
pub open spec fn no_lf(s: Seq<u8>) -> bool {
    forall|i: int| 0 <= i < s.len() ==> s[i] != 10
}

proof fn lemma_no_lf_concat(a: Seq<u8>, b: Seq<u8>)
    requires
        no_lf(a),
        no_lf(b),
    ensures
        no_lf(a + b),
{
    assert forall|i: int| 0 <= i < (a + b).len() implies (a + b)[i] != 10 by {
        if i < a.len() {
            assert((a + b)[i] == a[i]);
        } else {
            assert((a + b)[i] == b[i - a.len()]);
        }
    }
}

proof fn lemma_escape_byte_no_lf(b: u8)
    ensures
        no_lf(escape_byte(b)),
{
}

proof fn lemma_escape_no_lf(s: Seq<u8>)
    ensures
        no_lf(spec_escape(s)),
    decreases s.len(),
{
    if s.len() > 0 {
        lemma_escape_no_lf(s.drop_last());
        lemma_escape_byte_no_lf(s.last());
        lemma_no_lf_concat(spec_escape(s.drop_last()), escape_byte(s.last()));
    }
}

proof fn lemma_dec_no_lf(n: nat)
    ensures
        no_lf(spec_u64_dec(n)),
    decreases n,
{
    if n >= 10 {
        assert(n / 10 < n) by (nonlinear_arith)
            requires
                n >= 10,
        ;
        lemma_dec_no_lf(n / 10);
        lemma_no_lf_concat(spec_u64_dec(n / 10), seq![(48 + (n % 10)) as u8]);
    }
}

proof fn lemma_lits_no_lf()
    ensures
        no_lf("{\"command\":".spec_bytes()),
        no_lf(",\"args\":{".spec_bytes()),
        no_lf("}}".spec_bytes()),
        no_lf("\"".spec_bytes()),
        no_lf(":".spec_bytes()),
        no_lf(",".spec_bytes()),
        no_lf("true".spec_bytes()),
        no_lf("false".spec_bytes()),
{
    reveal_strlit("{\"command\":");
    reveal_strlit(",\"args\":{");
    reveal_strlit("}}");
    reveal_strlit("\"");
    reveal_strlit(":");
    reveal_strlit(",");
    reveal_strlit("true");
    reveal_strlit("false");
    broadcast use vstd::string::is_ascii_spec_bytes;

    assert(is_ascii("{\"command\":"));
    assert(is_ascii(",\"args\":{"));
    assert(is_ascii("}}"));
    assert(is_ascii("\""));
    assert(is_ascii(":"));
    assert(is_ascii(","));
    assert(is_ascii("true"));
    assert(is_ascii("false"));
}

proof fn lemma_quoted_no_lf(s: Seq<u8>)
    ensures
        no_lf(spec_quoted(s)),
{
    lemma_lits_no_lf();
    lemma_escape_no_lf(s);
    lemma_no_lf_concat("\"".spec_bytes(), spec_escape(s));
    lemma_no_lf_concat("\"".spec_bytes() + spec_escape(s), "\"".spec_bytes());
}

proof fn lemma_value_no_lf(v: ArgValue)
    ensures
        no_lf(spec_value(v)),
{
    lemma_lits_no_lf();
    match v {
        ArgValue::Text(s) => lemma_quoted_no_lf(encode_utf8(s@)),
        ArgValue::Unsigned(n) => lemma_dec_no_lf(n as nat),
        ArgValue::Flag(_) => {},
    }
}

proof fn lemma_pair_no_lf(a: RequestArg)
    ensures
        no_lf(spec_pair(a)),
{
    lemma_lits_no_lf();
    lemma_quoted_no_lf(encode_utf8(a.key@));
    lemma_value_no_lf(a.value);
    lemma_no_lf_concat(spec_quoted(encode_utf8(a.key@)), ":".spec_bytes());
    lemma_no_lf_concat(spec_quoted(encode_utf8(a.key@)) + ":".spec_bytes(), spec_value(a.value));
}

proof fn lemma_args_no_lf(args: Seq<RequestArg>)
    ensures
        no_lf(spec_args(args)),
    decreases args.len(),
{
    lemma_lits_no_lf();
    if args.len() == 1 {
        lemma_pair_no_lf(args[0]);
    } else if args.len() > 1 {
        lemma_args_no_lf(args.drop_last());
        lemma_pair_no_lf(args.last());
        lemma_no_lf_concat(spec_args(args.drop_last()), ",".spec_bytes());
        lemma_no_lf_concat(spec_args(args.drop_last()) + ",".spec_bytes(), spec_pair(args.last()));
    }
}

/// An encoded request holds no line feed.  Writes of whole requests under
/// the handle's exclusive lock therefore put exactly one complete,
/// parseable line on the pipe each, and two round trips can never
/// interleave their bytes into a torn line.
pub proof fn lemma_request_line_single_line(command: Seq<char>, args: Seq<RequestArg>)
    ensures
        no_lf(spec_request_line(command, args)),
{
    lemma_lits_no_lf();
    lemma_quoted_no_lf(encode_utf8(command));
    lemma_args_no_lf(args);
    let a = "{\"command\":".spec_bytes();
    let b = spec_quoted(encode_utf8(command));
    let c = ",\"args\":{".spec_bytes();
    let d = spec_args(args);
    let e = "}}".spec_bytes();
    lemma_no_lf_concat(a, b);
    lemma_no_lf_concat(a + b, c);
    lemma_no_lf_concat(a + b + c, d);
    lemma_no_lf_concat(a + b + c + d, e);
}

/// The position of the first line feed in a byte stream.
pub open spec fn spec_first_lf(s: Seq<u8>) -> Option<int>
    decreases s.len(),
{
    if s.len() == 0 {
        None
    } else if s[0] == 10 {
        Some(0)
    } else {
        match spec_first_lf(s.drop_first()) {
            None => None,
            Some(i) => Some(i + 1),
        }
    }
}

proof fn lemma_first_lf_found(s: Seq<u8>, i: int)
    requires
        0 <= i < s.len(),
        forall|k: int| 0 <= k < i ==> s[k] != 10,
        s[i] == 10,
    ensures
        spec_first_lf(s) == Some(i),
    decreases i,
{
    if i > 0 {
        let rest = s.drop_first();
        assert forall|k: int| 0 <= k < i - 1 implies rest[k] != 10 by {
            assert(rest[k] == s[k + 1]);
        }
        assert(rest[i - 1] == s[i]);
        lemma_first_lf_found(rest, i - 1);
    }
}

/// What a line-oriented reader takes from the stream: the bytes before
/// the first line feed, and everything after it.
pub open spec fn spec_read_line(s: Seq<u8>) -> Option<(Seq<u8>, Seq<u8>)> {
    match spec_first_lf(s) {
        None => None,
        Some(i) => Some((s.subrange(0, i), s.skip(i + 1))),
    }
}

/// Two whole request writes never tear: a line-oriented reader of the
/// concatenated stream takes the first request exactly, leaving the
/// second write untouched.  With the handle's exclusive lock serializing
/// whole writes, this is what keeps response correlation sound on a
/// protocol without request identifiers.
pub proof fn lemma_whole_writes_never_tear(first: Seq<u8>, second: Seq<u8>)
    requires
        no_lf(first),
    ensures
        spec_read_line(first + seq![10u8] + second) == Some((first, second)),
{
    let s = first + seq![10u8] + second;
    assert forall|k: int| 0 <= k < first.len() implies s[k] != 10 by {
        assert(s[k] == first[k]);
    }
    assert(s[first.len() as int] == 10);
    lemma_first_lf_found(s, first.len() as int);
    assert(s.subrange(0, first.len() as int) =~= first);
    assert(s.skip(first.len() as int + 1) =~= second);
}

/// A request write — the encoded line followed by one line feed — holds
/// exactly one line feed, at its end.  However two such writes from
/// different round trips are ordered, the reader on the other side of the
/// pipe sees each as one complete line.
pub proof fn lemma_request_write_is_one_line(command: Seq<char>, args: Seq<RequestArg>)
    ensures
        ({
            let w = spec_request_line(command, args) + seq![10u8];
            &&& w.len() >= 1
            &&& w[w.len() - 1] == 10
            &&& forall|i: int| 0 <= i < w.len() - 1 ==> w[i] != 10
        }),
{
    lemma_request_line_single_line(command, args);
    let line = spec_request_line(command, args);
    let w = line + seq![10u8];
    assert forall|i: int| 0 <= i < w.len() - 1 implies w[i] != 10 by {
        assert(w[i] == line[i]);
    }
}

} // verus!
