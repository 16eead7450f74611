//! Text for the widget's labels: the stopwatch's `MM:SS.mmm` readout and
//! the wall clock's `HH:MM:SS` heading, both built from verified decimal
//! formatting.

use vstd::prelude::*;

verus! {

/// The decimal digit character for `d` (meaningful for `0 <= d < 10`).
pub open spec fn digit_char(d: int) -> char {
    ((48 + d) as u8) as char
}

/// The decimal digits of `n`, most significant first (meaningful for
/// `n >= 0`).
pub open spec fn dec_chars(n: int) -> Seq<char>
    decreases n,
{
    if n < 10 {
        seq![digit_char(n)]
    } else {
        dec_chars(n / 10).push(digit_char(n % 10))
    }
}

/// The decimal digits of `n`, left-padded with zeros to at least `width`
/// characters; a number too wide keeps all its digits.
pub open spec fn padded_dec(n: int, width: int) -> Seq<char> {
    let digits = dec_chars(n);
    if digits.len() >= width {
        digits
    } else {
        Seq::new((width - digits.len()) as nat, |i: int| '0') + digits
    }
}

/// The stopwatch readout for `ms` milliseconds: minutes (at least two
/// digits, growing as needed), seconds and milliseconds.
pub open spec fn elapsed_text(ms: int) -> Seq<char> {
    padded_dec(ms / 60000, 2) + seq![':'] + padded_dec(ms / 1000 % 60, 2) + seq!['.'] + padded_dec(
        ms % 1000,
        3,
    )
}

/// The wall-clock heading for the components `hour`, `minute`, `second`,
/// each zero-padded to two digits.
pub open spec fn wall_clock_text(hour: int, minute: int, second: int) -> Seq<char> {
    padded_dec(hour, 2) + seq![':'] + padded_dec(minute, 2) + seq![':'] + padded_dec(second, 2)
}

fn digit(d: u64) -> (c: char)
    requires
        d < 10,
    ensures
        c == digit_char(d as int),
{
    (48 + d as u8) as char
}

fn dec_vec(n: u64) -> (v: Vec<char>)
    ensures
        v@ == dec_chars(n as int),
    decreases n,
{
    if n < 10 {
        let mut v: Vec<char> = Vec::new();
        v.push(digit(n));
        proof {
            assert(v@ =~= dec_chars(n as int));
        }
        v
    } else {
        let mut v = dec_vec(n / 10);
        v.push(digit(n % 10));
        proof {
            assert(v@ =~= dec_chars(n as int));
        }
        v
    }
}

fn padded_vec(n: u64, width: usize) -> (v: Vec<char>)
    ensures
        v@ == padded_dec(n as int, width as int),
{
    let digits = dec_vec(n);
    if digits.len() >= width {
        digits
    } else {
        let zeros: usize = width - digits.len();
        let mut v: Vec<char> = Vec::new();
        let mut i: usize = 0;
        while i < zeros
            invariant
                i <= zeros,
                v@.len() == i,
                forall|j: int| 0 <= j < i ==> v@[j] == '0',
            decreases zeros - i,
        {
            v.push('0');
            i = i + 1;
        }
        let mut k: usize = 0;
        while k < digits.len()
            invariant
                k <= digits@.len(),
                v@.len() == zeros + k,
                forall|j: int| 0 <= j < zeros ==> v@[j] == '0',
                forall|j: int| 0 <= j < k ==> v@[zeros + j] == digits@[j],
            decreases digits@.len() - k,
        {
            v.push(digits[k]);
            k = k + 1;
        }
        proof {
            assert(v@ =~= padded_dec(n as int, width as int));
        }
        v
    }
}

/// Relies on `String`'s `FromIterator` implementation: collecting
/// characters yields a string holding exactly those characters in order.
#[verifier::external_body]
fn chars_to_string(v: &Vec<char>) -> (s: String)
    ensures
        s@ == v@,
{
    v.iter().collect()
}

fn append_chars(out: &mut Vec<char>, piece: &Vec<char>)
    ensures
        final(out)@ == old(out)@ + piece@,
{
    let mut k: usize = 0;
    while k < piece.len()
        invariant
            k <= piece@.len(),
            out@ == old(out)@ + piece@.take(k as int),
        decreases piece@.len() - k,
    {
        out.push(piece[k]);
        proof {
            assert(old(out)@ + piece@.take(k as int) + seq![piece@[k as int]] =~= old(out)@
                + piece@.take(k as int + 1));
        }
        k = k + 1;
    }
    proof {
        assert(piece@.take(piece@.len() as int) =~= piece@);
    }
}

/// Formats an elapsed duration of `ms` milliseconds as `MM:SS.mmm`:
/// minutes since the start (at least two digits, more when the run grows
/// beyond an hour and more), then seconds and milliseconds within the
/// minute, zero-padded.
pub fn format_elapsed(ms: u64) -> (s: String)
    ensures
        s@ == elapsed_text(ms as int),
{
    let mut v = padded_vec(ms / 60000, 2);
    let secs = padded_vec(ms / 1000 % 60, 2);
    let millis = padded_vec(ms % 1000, 3);
    v.push(':');
    append_chars(&mut v, &secs);
    v.push('.');
    append_chars(&mut v, &millis);
    proof {
        assert(v@ =~= elapsed_text(ms as int));
    }
    chars_to_string(&v)
}

/// Formats a wall-clock instant as `HH:MM:SS`, each component zero-padded
/// to two digits.
pub fn format_wall_clock(hour: u32, minute: u32, second: u32) -> (s: String)
    ensures
        s@ == wall_clock_text(hour as int, minute as int, second as int),
{
    let mut v = padded_vec(hour as u64, 2);
    let minutes = padded_vec(minute as u64, 2);
    let seconds = padded_vec(second as u64, 2);
    v.push(':');
    append_chars(&mut v, &minutes);
    v.push(':');
    append_chars(&mut v, &seconds);
    proof {
        assert(v@ =~= wall_clock_text(hour as int, minute as int, second as int));
    }
    chars_to_string(&v)
}

} // verus!
