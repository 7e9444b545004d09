//! Text helpers shared by the UART and relay paths: trimming trailing
//! whitespace from received lines and rendering pin numbers as decimal text.

use vstd::prelude::*;
use vstd::string::*;
use vstd::utf8::{decode_utf8, valid_utf8};

verus! {

/// A character that counts as trailing whitespace on a received line:
/// ASCII space, tab, carriage return, line feed, or form feed.
pub open spec fn spec_is_trailing_ws(c: char) -> bool {
    c == ' ' || c == '\t' || c == '\r' || c == '\n' || c == '\x0c'
}

/// The characters of `s` with every trailing whitespace character removed.
pub open spec fn trim_end_chars(s: Seq<char>) -> Seq<char>
    decreases s.len(),
{
    if s.len() > 0 && spec_is_trailing_ws(s.last()) {
        trim_end_chars(s.drop_last())
    } else {
        s
    }
}

/// Trimming never invents characters: the result is always a prefix of the
/// input, and every character it drops is whitespace.
pub proof fn lemma_trim_end_is_prefix(s: Seq<char>)
    ensures
        trim_end_chars(s).len() <= s.len(),
        trim_end_chars(s) == s.subrange(0, trim_end_chars(s).len() as int),
        forall|i: int|
            trim_end_chars(s).len() <= i < s.len() ==> spec_is_trailing_ws(s[i]),
    decreases s.len(),
{
    if s.len() > 0 && spec_is_trailing_ws(s.last()) {
        lemma_trim_end_is_prefix(s.drop_last());
        assert(s.drop_last() == s.subrange(0, s.len() - 1));
        assert(trim_end_chars(s) == s.subrange(0, trim_end_chars(s).len() as int));
        assert forall|i: int|
            trim_end_chars(s).len() <= i < s.len() implies spec_is_trailing_ws(s[i]) by {
            if i < s.len() - 1 {
                assert(spec_is_trailing_ws(s.drop_last()[i]));
                assert(s.drop_last()[i] == s[i]);
            } else {
                assert(s[i] == s.last());
            }
        }
    } else {
        assert(s == s.subrange(0, s.len() as int));
    }
}

fn is_trailing_ws(c: char) -> (r: bool)
    ensures
        r == spec_is_trailing_ws(c),
{
    c == ' ' || c == '\t' || c == '\r' || c == '\n' || c == '\x0c'
}

/// Remove every trailing whitespace character from `s`.
pub fn trim_end(s: &String) -> (t: String)
    ensures
        t@ == trim_end_chars(s@),
{
    let n = s.as_str().unicode_len();
    let mut k: usize = 0;
    let mut i: usize = 0;
    while i < n
        invariant
            i <= n,
            k <= i,
            n == s@.len(),
            trim_end_chars(s@.subrange(0, i as int)) == s@.subrange(0, k as int),
        decreases n - i,
    {
        let c = s.as_str().get_char(i);
        proof {
            assert(s@.subrange(0, i + 1).drop_last() =~= s@.subrange(0, i as int));
            assert(s@.subrange(0, i + 1).last() == s@[i as int]);
        }
        if !is_trailing_ws(c) {
            k = i + 1;
            proof {
                assert(trim_end_chars(s@.subrange(0, k as int)) == s@.subrange(0, k as int));
            }
        }
        i = i + 1;
    }
    proof {
        assert(s@.subrange(0, n as int) =~= s@);
    }
    let sub = s.as_str().substring_char(0, k);
    String::from_str(sub)
}

/// Relies on `String::from_utf8`: it returns `Ok` exactly when the bytes are
/// a valid UTF-8 encoding, and the string it returns holds the characters
/// that the bytes encode.
#[verifier::external_body]
pub(crate) fn string_from_utf8(bytes: Vec<u8>) -> (r: Option<String>)
    ensures
        r is Some <==> valid_utf8(bytes@),
        r matches Some(s) ==> s@ == decode_utf8(bytes@),
{
    String::from_utf8(bytes).ok()
}

/// The decimal digit character for `d`.
pub open spec fn digit_char(d: nat) -> char
    recommends
        d < 10,
{
    if d == 0 {
        '0'
    } else if d == 1 {
        '1'
    } else if d == 2 {
        '2'
    } else if d == 3 {
        '3'
    } else if d == 4 {
        '4'
    } else if d == 5 {
        '5'
    } else if d == 6 {
        '6'
    } else if d == 7 {
        '7'
    } else if d == 8 {
        '8'
    } else {
        '9'
    }
}

/// The decimal representation of `n`, most significant digit first, with no
/// leading zeros (except for `n == 0` itself).
pub open spec fn dec_chars(n: nat) -> Seq<char>
    decreases n,
{
    if n < 10 {
        seq![digit_char(n)]
    } else {
        dec_chars(n / 10).push(digit_char(n % 10))
    }
}

/// The digit characters of `ds`, read back to front.
spec fn chars_of_rev(ds: Seq<u32>) -> Seq<char>
    decreases ds.len(),
{
    if ds.len() == 0 {
        seq![]
    } else {
        seq![digit_char(ds.last() as nat)] + chars_of_rev(ds.drop_last())
    }
}

fn digit_str(d: u32) -> (s: &'static str)
    requires
        d < 10,
    ensures
        s@ =~= seq![digit_char(d as nat)],
{
    proof {
        reveal_strlit("0");
        reveal_strlit("1");
        reveal_strlit("2");
        reveal_strlit("3");
        reveal_strlit("4");
        reveal_strlit("5");
        reveal_strlit("6");
        reveal_strlit("7");
        reveal_strlit("8");
        reveal_strlit("9");
    }
    match d {
        0 => "0",
        1 => "1",
        2 => "2",
        3 => "3",
        4 => "4",
        5 => "5",
        6 => "6",
        7 => "7",
        8 => "8",
        _ => "9",
    }
}

/// Render `n` as decimal text, most significant digit first.
pub fn decimal_string(n: u32) -> (s: String)
    ensures
        s@ == dec_chars(n as nat),
{
    let mut digs: Vec<u32> = Vec::new();
    let mut rest: u32 = n;
    while rest >= 10
        invariant
            dec_chars(n as nat) == dec_chars(rest as nat) + chars_of_rev(digs@),
            forall|j: int| 0 <= j < digs@.len() ==> digs@[j] < 10,
        decreases rest,
    {
        let d = rest % 10;
        proof {
            let pushed = digs@.push(d);
            assert(pushed.drop_last() =~= digs@);
            assert(dec_chars(rest as nat) =~= dec_chars(
                rest as nat / 10,
            ).push(digit_char(rest as nat % 10)));
            assert(dec_chars(rest as nat / 10) + chars_of_rev(pushed) =~= dec_chars(
                rest as nat,
            ) + chars_of_rev(digs@));
        }
        digs.push(d);
        rest = rest / 10;
    }
    proof {
        let pushed = digs@.push(rest);
        assert(pushed.drop_last() =~= digs@);
        assert(dec_chars(rest as nat) + chars_of_rev(digs@) =~= chars_of_rev(pushed));
    }
    digs.push(rest);
    let mut out = String::new();
    while digs.len() > 0
        invariant
            dec_chars(n as nat) == out@ + chars_of_rev(digs@),
            forall|j: int| 0 <= j < digs@.len() ==> digs@[j] < 10,
        decreases digs@.len(),
    {
        proof {
            assert(chars_of_rev(digs@) =~= seq![digit_char(digs@.last() as nat)] + chars_of_rev(
                digs@.drop_last(),
            ));
        }
        let ghost before = digs@;
        let d = digs.pop().unwrap();
        proof {
            assert(digs@ =~= before.drop_last());
            assert(out@ + chars_of_rev(before) =~= (out@ + seq![digit_char(d as nat)])
                + chars_of_rev(digs@));
        }
        let piece = digit_str(d);
        out.append(piece);
    }
    proof {
        assert(dec_chars(n as nat) =~= out@);
    }
    out
}

} // verus!
