//! Percent-encoding of rendered parameters into the query string appended
//! to an authorization URL. The encoder handles the ASCII range:
//! unreserved characters pass through, everything else becomes `%XX`; a
//! character outside ASCII is an encoding failure.

use vstd::prelude::*;

use vstd::string::StrSliceExecFns;
use vstd::utf8::is_ascii_chars;

use crate::code_verifier::is_unreserved_byte;

verus! {

/// A parameter value that cannot be percent-encoded.
#[derive(Clone, Copy, Debug, PartialEq, Eq, Structural)]
pub struct EncodingError;

/// Relies on String::push: appends exactly one character.
#[verifier::external_body]
fn push_char(s: &mut String, c: char)
    ensures
        final(s)@ == old(s)@ + seq![c],
{
    s.push(c);
}

/// The upper-case hexadecimal digit of a value below 16.
pub open spec fn hex_upper_char(v: u8) -> char {
    if v < 10 {
        ((0x30 + v) as u8) as char
    } else {
        ((0x37 + v) as u8) as char
    }
}

fn hex_upper(v: u8) -> (r: char)
    requires
        v < 16,
    ensures
        r == hex_upper_char(v),
{
    if v < 10 {
        (0x30 + v) as char
    } else {
        (0x37 + v) as char
    }
}

/// The percent-encoded form of one ASCII character: itself when
/// unreserved, `%XX` otherwise.
pub open spec fn spec_encode_char(c: char) -> Seq<char> {
    if is_unreserved_byte(c as u8) {
        seq![c]
    } else {
        seq!['%', hex_upper_char((c as u8) / 16), hex_upper_char((c as u8) % 16)]
    }
}

/// The percent-encoded form of an ASCII character sequence.
pub open spec fn spec_encode_str(s: Seq<char>) -> Seq<char>
    decreases s.len(),
{
    if s.len() == 0 {
        Seq::empty()
    } else {
        spec_encode_str(s.drop_last()) + spec_encode_char(s.last())
    }
}

/// The query string of a rendered parameter list: `k=v` pairs joined by
/// `&`, keys and values percent-encoded.
pub open spec fn spec_query_string(pairs: Seq<(Seq<char>, Seq<char>)>) -> Seq<char>
    decreases pairs.len(),
{
    if pairs.len() == 0 {
        Seq::empty()
    } else if pairs.len() == 1 {
        spec_encode_str(pairs[0].0) + seq!['='] + spec_encode_str(pairs[0].1)
    } else {
        spec_query_string(pairs.drop_last()) + seq!['&'] + spec_encode_str(pairs.last().0) + seq![
            '=',
        ] + spec_encode_str(pairs.last().1)
    }
}

/// Whether every key and value of a rendered parameter list is ASCII —
/// exactly the lists the encoder accepts.
pub open spec fn pairs_all_ascii(pairs: Seq<(Seq<char>, Seq<char>)>) -> bool {
    forall|i: int|
        0 <= i < pairs.len() ==> is_ascii_chars((#[trigger] pairs[i]).0) && is_ascii_chars(
            pairs[i].1,
        )
}

/// Appends the encoding of one character, or reports that the character
/// lies outside ASCII and appends nothing.
fn encode_char_into(out: &mut String, c: char) -> (ok: bool)
    ensures
        ok ==> '\0' <= c <= '\u{7f}' && final(out)@ == old(out)@ + spec_encode_char(c),
        !ok ==> !('\0' <= c <= '\u{7f}') && final(out)@ == old(out)@,
{
    let code = c as u32;
    if code >= 0x80 {
        return false;
    }
    let b = code as u8;
    if (0x41 <= b && b <= 0x5A) || (0x61 <= b && b <= 0x7A) || (0x30 <= b && b <= 0x39)
        || b == 0x2D || b == 0x2E || b == 0x5F || b == 0x7E {
        push_char(out, c);
        proof {
            assert(out@ =~= old(out)@ + spec_encode_char(c));
        }
    } else {
        push_char(out, '%');
        push_char(out, hex_upper(b / 16));
        push_char(out, hex_upper(b % 16));
        proof {
            assert(out@ =~= old(out)@ + spec_encode_char(c));
        }
    }
    true
}

/// Appends the encoding of a whole string, or reports its first
/// non-ASCII character; what was already appended stays.
fn encode_str_into(out: &mut String, s: &str) -> (ok: bool)
    ensures
        ok ==> is_ascii_chars(s@) && final(out)@ == old(out)@ + spec_encode_str(s@),
        !ok ==> !is_ascii_chars(s@),
{
    let n = s.unicode_len();
    let mut i: usize = 0;
    while i < n
        invariant
            i <= n,
            n == s@.len(),
            out@ == old(out)@ + spec_encode_str(s@.take(i as int)),
            forall|k: int| 0 <= k < i ==> '\0' <= #[trigger] s@[k] <= '\u{7f}',
        decreases n - i,
    {
        let c = s.get_char(i);
        if !encode_char_into(out, c) {
            proof {
                assert(!is_ascii_chars(s@));
            }
            return false;
        }
        proof {
            assert(s@.take(i + 1).drop_last() =~= s@.take(i as int));
            assert(s@.take(i + 1).last() == s@[i as int]);
        }
        i = i + 1;
    }
    proof {
        assert(s@.take(n as int) =~= s@);
    }
    true
}

/// Renders a parameter list as a percent-encoded query string; fails
/// exactly when some key or value holds a character outside ASCII.
pub fn render_query_string(pairs: &Vec<(String, String)>) -> (r: Result<String, EncodingError>)
    ensures
        r matches Ok(q) ==> pairs_all_ascii(crate::utils::pairs_str_view(pairs@)) && q@
            == spec_query_string(crate::utils::pairs_str_view(pairs@)),
        r matches Err(_) ==> !pairs_all_ascii(crate::utils::pairs_str_view(pairs@)),
{
    let ghost gp = crate::utils::pairs_str_view(pairs@);
    let mut out = String::new();
    let n = pairs.len();
    let mut i: usize = 0;
    while i < n
        invariant
            i <= n,
            n == pairs@.len(),
            gp == crate::utils::pairs_str_view(pairs@),
            out@ == spec_query_string(gp.take(i as int)),
            forall|k: int|
                0 <= k < i ==> is_ascii_chars((#[trigger] gp[k]).0) && is_ascii_chars(gp[k].1),
        decreases n - i,
    {
        let ghost before = out@;
        if i > 0 {
            push_char(&mut out, '&');
        }
        let pair = &pairs[i];
        if !encode_str_into(&mut out, pair.0.as_str()) {
            proof {
                assert(!pairs_all_ascii(gp)) by {
                    assert(gp[i as int] == (pairs@[i as int].0@, pairs@[i as int].1@));
                }
            }
            return Err(EncodingError);
        }
        push_char(&mut out, '=');
        if !encode_str_into(&mut out, pair.1.as_str()) {
            proof {
                assert(!pairs_all_ascii(gp)) by {
                    assert(gp[i as int] == (pairs@[i as int].0@, pairs@[i as int].1@));
                }
            }
            return Err(EncodingError);
        }
        proof {
            assert(gp.take(i + 1).drop_last() =~= gp.take(i as int));
            assert(gp.take(i + 1).last() == gp[i as int]);
            if i == 0 {
                assert(out@ =~= spec_query_string(gp.take(i + 1)));
            } else {
                assert(out@ =~= spec_query_string(gp.take(i + 1)));
            }
        }
        i = i + 1;
    }
    proof {
        assert(gp.take(n as int) =~= gp);
    }
    Ok(out)
}

} // verus!
