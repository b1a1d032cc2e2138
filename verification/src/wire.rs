//! Verified construction of JSON wire text.
//!
//! The platform frames are built here as character sequences, so that what
//! a frame holds is fixed by spec functions rather than by an outside
//! serializer.  Strings are escaped as JSON demands: quote, backslash and
//! control characters never reach the wire bare.

use vstd::prelude::*;
use vstd::string::StrSliceExecFns;

verus! {

/// The decimal digits of `n`, most significant first.
pub open spec fn spec_dec_u64(n: nat) -> Seq<char>
    decreases n,
{
    if n < 10 {
        seq![spec_dec_digit(n)]
    } else {
        spec_dec_u64(n / 10).push(spec_dec_digit(n % 10))
    }
}

/// The character for one decimal digit.
pub open spec fn spec_dec_digit(d: nat) -> char {
    if d == 0 { '0' }
    else if d == 1 { '1' }
    else if d == 2 { '2' }
    else if d == 3 { '3' }
    else if d == 4 { '4' }
    else if d == 5 { '5' }
    else if d == 6 { '6' }
    else if d == 7 { '7' }
    else if d == 8 { '8' }
    else { '9' }
}

/// The decimal rendering of a signed value: a minus sign before the digits
/// of the magnitude when negative.
pub open spec fn spec_dec_i64(n: int) -> Seq<char> {
    if n >= 0 {
        spec_dec_u64(n as nat)
    } else {
        seq!['-'] + spec_dec_u64((-n) as nat)
    }
}

fn dec_digit(d: u8) -> (r: char)
    requires
        d < 10,
    ensures
        r == spec_dec_digit(d as nat),
{
    if d == 0 { '0' }
    else if d == 1 { '1' }
    else if d == 2 { '2' }
    else if d == 3 { '3' }
    else if d == 4 { '4' }
    else if d == 5 { '5' }
    else if d == 6 { '6' }
    else if d == 7 { '7' }
    else if d == 8 { '8' }
    else { '9' }
}

/// Relies on String's FromIterator over characters: collects the
/// characters into a string, in order.
#[verifier::external_body]
pub fn chars_to_string(v: &Vec<char>) -> (r: String)
    ensures
        r@ == v@,
{
    v.iter().collect()
}

/// The character for one lower-case hex digit.
pub open spec fn spec_hex_digit(d: nat) -> char {
    if d == 0 { '0' }
    else if d == 1 { '1' }
    else if d == 2 { '2' }
    else if d == 3 { '3' }
    else if d == 4 { '4' }
    else if d == 5 { '5' }
    else if d == 6 { '6' }
    else if d == 7 { '7' }
    else if d == 8 { '8' }
    else if d == 9 { '9' }
    else if d == 10 { 'a' }
    else if d == 11 { 'b' }
    else if d == 12 { 'c' }
    else if d == 13 { 'd' }
    else if d == 14 { 'e' }
    else { 'f' }
}

fn hex_digit(d: u8) -> (r: char)
    requires
        d < 16,
    ensures
        r == spec_hex_digit(d as nat),
{
    if d == 0 { '0' }
    else if d == 1 { '1' }
    else if d == 2 { '2' }
    else if d == 3 { '3' }
    else if d == 4 { '4' }
    else if d == 5 { '5' }
    else if d == 6 { '6' }
    else if d == 7 { '7' }
    else if d == 8 { '8' }
    else if d == 9 { '9' }
    else if d == 10 { 'a' }
    else if d == 11 { 'b' }
    else if d == 12 { 'c' }
    else if d == 13 { 'd' }
    else if d == 14 { 'e' }
    else { 'f' }
}

/// How one character appears inside a JSON string literal.
pub open spec fn esc_char(c: char) -> Seq<char> {
    if c == '"' {
        seq!['\\', '"']
    } else if c == '\\' {
        seq!['\\', '\\']
    } else if c == '\n' {
        seq!['\\', 'n']
    } else if c == '\r' {
        seq!['\\', 'r']
    } else if c == '\t' {
        seq!['\\', 't']
    } else if (c as u32) < 32 {
        seq!['\\', 'u', '0', '0',
            spec_hex_digit(((c as u32) / 16) as nat),
            spec_hex_digit(((c as u32) % 16) as nat)]
    } else {
        seq![c]
    }
}

/// The body of a JSON string literal holding the given text.
pub open spec fn spec_escaped(s: Seq<char>) -> Seq<char>
    decreases s.len(),
{
    if s.len() == 0 {
        Seq::empty()
    } else {
        esc_char(s[0]) + spec_escaped(s.drop_first())
    }
}

/// Escaping a text one character longer appends that character's escape.
proof fn lemma_escaped_snoc(s: Seq<char>, c: char)
    ensures
        spec_escaped(s.push(c)) == spec_escaped(s) + esc_char(c),
    decreases s.len(),
{
    if s.len() == 0 {
        let p = s.push(c);
        assert(p[0] == c);
        assert(p.drop_first() =~= Seq::<char>::empty());
        assert(spec_escaped(p) == esc_char(c) + spec_escaped(Seq::<char>::empty()));
        assert(esc_char(c) + Seq::<char>::empty() =~= esc_char(c));
        assert(spec_escaped(s) + esc_char(c) =~= esc_char(c));
    } else {
        assert(s.push(c).drop_first() =~= s.drop_first().push(c));
        assert(s.push(c)[0] == s[0]);
        lemma_escaped_snoc(s.drop_first(), c);
        assert(spec_escaped(s.push(c)) =~= spec_escaped(s) + esc_char(c));
    }
}

/// Appends the characters of `s` to `out`, unchanged.
pub fn append_str(out: &mut Vec<char>, s: &str)
    ensures
        final(out)@ == old(out)@ + s@,
{
    let n = s.unicode_len();
    let mut i: usize = 0;
    while i < n
        invariant
            n == s@.len(),
            i <= n,
            out@ == old(out)@ + s@.take(i as int),
        decreases n - i,
    {
        out.push(s.get_char(i));
        i = i + 1;
        proof {
            assert(out@ =~= old(out)@ + s@.take(i as int));
        }
    }
    proof {
        assert(s@.take(n as int) =~= s@);
    }
}

/// Appends the characters of another buffer to `out`, unchanged.
pub fn append_chars(out: &mut Vec<char>, s: &Vec<char>)
    ensures
        final(out)@ == old(out)@ + s@,
{
    let n = s.len();
    let mut i: usize = 0;
    while i < n
        invariant
            n == s@.len(),
            i <= n,
            out@ == old(out)@ + s@.take(i as int),
        decreases n - i,
    {
        out.push(s[i]);
        i = i + 1;
        proof {
            assert(out@ =~= old(out)@ + s@.take(i as int));
        }
    }
    proof {
        assert(s@.take(n as int) =~= s@);
    }
}

/// Appends `s` to `out` as the body of a JSON string literal, escaping
/// each character as [`esc_char`] says.
pub fn append_escaped(out: &mut Vec<char>, s: &str)
    ensures
        final(out)@ == old(out)@ + spec_escaped(s@),
{
    let n = s.unicode_len();
    let mut i: usize = 0;
    proof {
        assert(spec_escaped(s@.take(0)) =~= Seq::<char>::empty());
        assert(out@ =~= out@ + spec_escaped(s@.take(0)));
    }
    while i < n
        invariant
            n == s@.len(),
            i <= n,
            out@ == old(out)@ + spec_escaped(s@.take(i as int)),
        decreases n - i,
    {
        let c = s.get_char(i);
        if c == '"' {
            out.push('\\');
            out.push('"');
        } else if c == '\\' {
            out.push('\\');
            out.push('\\');
        } else if c == '\n' {
            out.push('\\');
            out.push('n');
        } else if c == '\r' {
            out.push('\\');
            out.push('r');
        } else if c == '\t' {
            out.push('\\');
            out.push('t');
        } else if (c as u32) < 32 {
            out.push('\\');
            out.push('u');
            out.push('0');
            out.push('0');
            out.push(hex_digit(((c as u32) / 16) as u8));
            out.push(hex_digit(((c as u32) % 16) as u8));
        } else {
            out.push(c);
        }
        i = i + 1;
        proof {
            lemma_escaped_snoc(s@.take(i - 1), s@[i - 1]);
            assert(s@.take(i as int) =~= s@.take(i - 1).push(s@[i - 1]));
            assert(out@ =~= old(out)@ + spec_escaped(s@.take(i as int)));
        }
    }
    proof {
        assert(s@.take(n as int) =~= s@);
    }
}

/// Appends the decimal digits of `n`, most significant first.
pub fn append_u64(out: &mut Vec<char>, n: u64)
    ensures
        final(out)@ == old(out)@ + spec_dec_u64(n as nat),
    decreases n,
{
    if n < 10 {
        out.push(dec_digit(n as u8));
        proof {
            assert(out@ =~= old(out)@ + spec_dec_u64(n as nat));
        }
    } else {
        append_u64(out, n / 10);
        out.push(dec_digit((n % 10) as u8));
        proof {
            assert(out@ =~= old(out)@ + spec_dec_u64(n as nat));
        }
    }
}

/// Appends the decimal rendering of a signed value.
pub fn append_i64(out: &mut Vec<char>, n: i64)
    ensures
        final(out)@ == old(out)@ + spec_dec_i64(n as int),
{
    if n >= 0 {
        append_u64(out, n as u64);
    } else {
        out.push('-');
        let m: u64 = ((-(n + 1)) as u64) + 1;
        assert(m as nat == (-(n as int)) as nat);
        append_u64(out, m);
        proof {
            assert(out@ =~= old(out)@ + spec_dec_i64(n as int));
        }
    }
}

/// The members of a JSON object or array, joined with commas.
pub open spec fn join_comma(ms: Seq<Seq<char>>) -> Seq<char>
    decreases ms.len(),
{
    if ms.len() == 0 {
        Seq::empty()
    } else if ms.len() == 1 {
        ms[0]
    } else {
        join_comma(ms.drop_last()) + seq![','] + ms.last()
    }
}

/// The character sequences held by a sequence of buffers, in order.
pub open spec fn views_of(ms: Seq<Vec<char>>) -> Seq<Seq<char>> {
    Seq::new(ms.len(), |i: int| ms[i]@)
}

/// Appends the given members joined with commas.
pub fn append_joined(out: &mut Vec<char>, ms: &Vec<Vec<char>>)
    ensures
        final(out)@ == old(out)@ + join_comma(views_of(ms@)),
{
    let n = ms.len();
    let mut i: usize = 0;
    proof {
        assert(views_of(ms@).take(0) =~= Seq::<Seq<char>>::empty());
        assert(out@ =~= out@ + join_comma(views_of(ms@).take(0)));
    }
    while i < n
        invariant
            n == ms@.len(),
            i <= n,
            out@ == old(out)@ + join_comma(views_of(ms@).take(i as int)),
        decreases n - i,
    {
        if i > 0 {
            out.push(',');
        }
        append_chars(out, &ms[i]);
        i = i + 1;
        proof {
            let dv = views_of(ms@);
            if i > 1 {
                assert(dv.take(i as int).drop_last() =~= dv.take(i - 1));
                assert(dv.take(i as int).last() == dv[i - 1]);
            } else {
                assert(dv.take(1)[0] == dv[0]);
            }
            assert(out@ =~= old(out)@ + join_comma(dv.take(i as int)));
        }
    }
    proof {
        assert(views_of(ms@).take(n as int) =~= views_of(ms@));
    }
}

} // verus!
