//! URL construction for the REST client: joining the base URL with an
//! endpoint, percent-encoding parameter values over their UTF-8 bytes, and
//! assembling the full query string. The HTTP transport itself lives outside
//! the library and sends exactly the URL built here.

use vstd::prelude::*;
use vstd::string::StringExecFns;
use crate::text::append_str_chars;
use crate::text::chars_to_string;
use crate::text::str_to_chars;

verus! {

/// Whether a byte passes through percent-encoding unchanged: the ASCII
/// letters and digits, hyphen, period, underscore and tilde.
pub open spec fn is_unreserved(b: u8) -> bool {
    ||| 0x41 <= b <= 0x5a
    ||| 0x61 <= b <= 0x7a
    ||| 0x30 <= b <= 0x39
    ||| b == 0x2d
    ||| b == 0x2e
    ||| b == 0x5f
    ||| b == 0x7e
}

/// The uppercase hexadecimal digit for a value below sixteen.
pub open spec fn hex_digit(d: nat) -> char
    recommends
        d < 16,
{
    if d < 10 {
        ((0x30 + d) as u8) as char
    } else {
        ((0x37 + d) as u8) as char
    }
}

/// One byte of the output: unreserved bytes verbatim, anything else as a
/// percent sign and two uppercase hexadecimal digits.
pub open spec fn encode_byte(b: u8) -> Seq<char> {
    if is_unreserved(b) {
        seq![b as char]
    } else {
        seq!['%', hex_digit((b / 16) as nat), hex_digit((b % 16) as nat)]
    }
}

/// The percent-encoding of a byte sequence.
pub open spec fn percent_encode_bytes(bs: Seq<u8>) -> Seq<char>
    decreases bs.len(),
{
    if bs.len() == 0 {
        Seq::empty()
    } else {
        percent_encode_bytes(bs.drop_last()) + encode_byte(bs.last())
    }
}

/// Encoding one more byte appends its encoded form.
proof fn lemma_percent_encode_snoc(bs: Seq<u8>, i: int)
    requires
        0 <= i < bs.len(),
    ensures
        percent_encode_bytes(bs.subrange(0, i + 1)) == percent_encode_bytes(bs.subrange(0, i))
            + encode_byte(bs[i]),
{
    let ext = bs.subrange(0, i + 1);
    assert(ext.drop_last() =~= bs.subrange(0, i));
    assert(ext.last() == bs[i]);
}

/// The uppercase hexadecimal digit character for a value below sixteen.
fn hex_digit_char(d: u8) -> (r: char)
    requires
        d < 16,
    ensures
        r == hex_digit(d as nat),
{
    if d < 10 {
        (0x30 + d) as char
    } else {
        (0x37 + d) as char
    }
}

/// Appends the percent-encoding of a string's UTF-8 bytes to the output.
fn percent_encode_into(out: &mut Vec<char>, s: &str)
    ensures
        final(out)@ == old(out)@ + percent_encode_bytes(vstd::utf8::encode_utf8(s@)),
{
    let bytes = s.as_bytes();
    let ghost bs = vstd::utf8::encode_utf8(s@);
    let mut i: usize = 0;
    while i < bytes.len()
        invariant
            0 <= i <= bs.len(),
            bytes@ == bs,
            out@ == old(out)@ + percent_encode_bytes(bs.subrange(0, i as int)),
        decreases bytes.len() - i,
    {
        let b = bytes[i];
        if (0x41 <= b && b <= 0x5a) || (0x61 <= b && b <= 0x7a) || (0x30 <= b && b <= 0x39) || b
            == 0x2d || b == 0x2e || b == 0x5f || b == 0x7e {
            out.push(b as char);
        } else {
            out.push('%');
            out.push(hex_digit_char(b / 16));
            out.push(hex_digit_char(b % 16));
        }
        proof {
            lemma_percent_encode_snoc(bs, i as int);
        }
        i = i + 1;
        assert(out@ =~= old(out)@ + percent_encode_bytes(bs.subrange(0, i as int)));
    }
    assert(bs.subrange(0, bs.len() as int) =~= bs);
}

/// Percent-encodes a parameter value over its UTF-8 bytes.
pub fn percent_encode(s: &str) -> (r: String)
    ensures
        r@ == percent_encode_bytes(vstd::utf8::encode_utf8(s@)),
{
    let mut out: Vec<char> = Vec::new();
    percent_encode_into(&mut out, s);
    chars_to_string(&out)
}

/// Joins the base URL and an endpoint with a single slash.
pub fn build_url(base: &str, endpoint: &str) -> (r: String)
    ensures
        r@ == base@ + "/"@ + endpoint@,
{
    proof {
        reveal_strlit("/");
    }
    let mut out = str_to_chars(base);
    out.push('/');
    append_str_chars(&mut out, endpoint);
    assert(out@ =~= base@ + "/"@ + endpoint@);
    chars_to_string(&out)
}

/// The views of a parameter list: each key and value as character sequences.
pub open spec fn query_pairs(params: Seq<(&str, String)>) -> Seq<(Seq<char>, Seq<char>)> {
    params.map_values(|p: (&str, String)| (p.0@, p.1@))
}

/// One query item: the key verbatim, an equals sign, and the value
/// percent-encoded over its UTF-8 bytes.
pub open spec fn query_item(key: Seq<char>, value: Seq<char>) -> Seq<char> {
    key + seq!['='] + percent_encode_bytes(vstd::utf8::encode_utf8(value))
}

/// The query text for the parameters from position `i` on, joined by
/// ampersands.
pub open spec fn query_string_from(ps: Seq<(Seq<char>, Seq<char>)>, i: int) -> Seq<char>
    decreases ps.len() - i,
{
    if i < 0 || i >= ps.len() {
        Seq::empty()
    } else {
        query_item(ps[i].0, ps[i].1) + (if i < ps.len() - 1 {
            seq!['&']
        } else {
            Seq::empty()
        }) + query_string_from(ps, i + 1)
    }
}

/// The full query string: empty for no parameters, else a question mark and
/// the items joined by ampersands.
pub open spec fn query_string(ps: Seq<(Seq<char>, Seq<char>)>) -> Seq<char> {
    if ps.len() == 0 {
        Seq::empty()
    } else {
        seq!['?'] + query_string_from(ps, 0)
    }
}


/// No query pairs.
pub open spec fn no_pairs() -> Seq<(Seq<char>, Seq<char>)> {
    Seq::empty()
}

/// A single query pair.
pub open spec fn one_pair(k: Seq<char>, v: Seq<char>) -> Seq<(Seq<char>, Seq<char>)> {
    seq![(k, v)]
}


/// Appends one query pair.
pub fn push_pair<'a>(params: &mut Vec<(&'a str, String)>, key: &'a str, value: String)
    ensures
        query_pairs(final(params)@) == query_pairs(old(params)@) + one_pair(key@, value@),
{
    let ghost vg = value@;
    let ghost pre = params@;
    params.push((key, value));
    assert(query_pairs(params@) =~= query_pairs(pre) + one_pair(key@, vg));
}


/// Appends the pair of an optional string filter, when it is set.
pub fn push_opt_string<'a>(params: &mut Vec<(&'a str, String)>, key: &'a str, v: &Option<String>)
    ensures
        query_pairs(final(params)@) == query_pairs(old(params)@) + (if v is Some {
            one_pair(key@, v->0@)
        } else {
            no_pairs()
        }),
{
    match v {
        Some(value) => {
            push_pair(params, key, value.clone());
        },
        None => {
            assert(query_pairs(params@) =~= query_pairs(params@) + no_pairs());
        },
    }
}

/// Appends the decimal pair of an optional signed filter, when it is set.
pub fn push_opt_i32<'a>(params: &mut Vec<(&'a str, String)>, key: &'a str, v: &Option<i32>)
    ensures
        query_pairs(final(params)@) == query_pairs(old(params)@) + (if v is Some {
            one_pair(key@, crate::text::dec_rep_signed(v->0 as int))
        } else {
            no_pairs()
        }),
{
    match v {
        Some(value) => {
            push_pair(
                params,
                key,
                crate::text::chars_to_string(&crate::text::i64_to_chars(*value as i64)),
            );
        },
        None => {
            assert(query_pairs(params@) =~= query_pairs(params@) + no_pairs());
        },
    }
}

/// Appends the decimal pair of an optional small unsigned filter, when it is
/// set.
pub fn push_opt_u8<'a>(params: &mut Vec<(&'a str, String)>, key: &'a str, v: &Option<u8>)
    ensures
        query_pairs(final(params)@) == query_pairs(old(params)@) + (if v is Some {
            one_pair(key@, crate::text::dec_rep(v->0 as nat))
        } else {
            no_pairs()
        }),
{
    match v {
        Some(value) => {
            push_pair(
                params,
                key,
                crate::text::chars_to_string(&crate::text::u64_to_chars(*value as u64)),
            );
        },
        None => {
            assert(query_pairs(params@) =~= query_pairs(params@) + no_pairs());
        },
    }
}

/// Appends the decimal pair of an optional page-sized filter, when it is
/// set.
pub fn push_opt_u32<'a>(params: &mut Vec<(&'a str, String)>, key: &'a str, v: &Option<u32>)
    ensures
        query_pairs(final(params)@) == query_pairs(old(params)@) + (if v is Some {
            one_pair(key@, crate::text::dec_rep(v->0 as nat))
        } else {
            no_pairs()
        }),
{
    match v {
        Some(value) => {
            push_pair(
                params,
                key,
                crate::text::chars_to_string(&crate::text::u64_to_chars(*value as u64)),
            );
        },
        None => {
            assert(query_pairs(params@) =~= query_pairs(params@) + no_pairs());
        },
    }
}

/// Appends the pair of a boolean filter, when it is set: the API writes such
/// flags as the literal text "true".
pub fn push_flag<'a>(params: &mut Vec<(&'a str, String)>, key: &'a str, v: bool)
    ensures
        query_pairs(final(params)@) == query_pairs(old(params)@) + (if v {
            one_pair(key@, "true"@)
        } else {
            no_pairs()
        }),
{
    if v {
        push_pair(params, key, String::from_str("true"));
    } else {
        assert(query_pairs(params@) =~= query_pairs(params@) + no_pairs());
    }
}

/// Taking pair views distributes over concatenation.
pub proof fn lemma_query_pairs_concat(a: Seq<(&str, String)>, b: Seq<(&str, String)>)
    ensures
        query_pairs(a + b) =~= query_pairs(a) + query_pairs(b),
{
}

/// Appends every parameter of `src` to `dst`.
pub fn append_params<'a>(dst: &mut Vec<(&'a str, String)>, src: Vec<(&'a str, String)>)
    ensures
        final(dst)@ == old(dst)@ + src@,
{
    let mut src = src;
    let ghost all = src@;
    let mut i: usize = 0;
    while i < src.len()
        invariant
            0 <= i <= all.len(),
            src@ == all,
            dst@ == old(dst)@ + all.subrange(0, i as int),
        decreases src.len() - i,
    {
        let (k, v) = (src[i].0, src[i].1.clone());
        dst.push((k, v));
        proof {
            assert(all[i as int].1 == src@[i as int].1);
        }
        assert(dst@ =~= old(dst)@ + all.subrange(0, i as int + 1));
        i = i + 1;
    }
    assert(dst@ =~= old(dst)@ + all);
}

/// Builds the full request URL: the base, a slash, the endpoint and the
/// query string of the given parameters.
pub fn request_url(base: &str, endpoint: &str, params: &Vec<(&str, String)>) -> (r: String)
    ensures
        r@ == base@ + "/"@ + endpoint@ + query_string(query_pairs(params@)),
{
    proof {
        reveal_strlit("/");
    }
    let ghost ps = query_pairs(params@);
    let mut out = str_to_chars(base);
    out.push('/');
    append_str_chars(&mut out, endpoint);
    let ghost head = out@;
    assert(head =~= base@ + "/"@ + endpoint@);
    if params.len() == 0 {
        assert(out@ =~= base@ + "/"@ + endpoint@ + query_string(ps));
        return chars_to_string(&out);
    }
    out.push('?');
    let mut i: usize = 0;
    while i < params.len()
        invariant
            0 <= i <= params@.len(),
            params@.len() > 0,
            ps == query_pairs(params@),
            ps.len() == params@.len(),
            head + seq!['?'] + query_string_from(ps, 0) =~= out@ + query_string_from(
                ps,
                i as int,
            ),
        decreases params.len() - i,
    {
        proof {
            reveal_strlit("=");
            assert(ps[i as int].0 == params@[i as int].0@);
            assert(ps[i as int].1 == params@[i as int].1@);
        }
        append_str_chars(&mut out, params[i].0);
        out.push('=');
        percent_encode_into(&mut out, params[i].1.as_str());
        if i + 1 < params.len() {
            out.push('&');
        }
        proof {
            assert(query_string_from(ps, i as int) == query_item(ps[i as int].0, ps[i as int].1)
                + (if i < ps.len() - 1 {
                seq!['&']
            } else {
                Seq::<char>::empty()
            }) + query_string_from(ps, i as int + 1));
        }
        i = i + 1;
        assert(head + seq!['?'] + query_string_from(ps, 0) =~= out@ + query_string_from(
            ps,
            i as int,
        ));
    }
    assert(out@ =~= base@ + "/"@ + endpoint@ + query_string(ps));
    chars_to_string(&out)
}

} // verus!
