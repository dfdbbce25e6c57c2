//! Plain-text pieces of a log line: the hexadecimal index, decimal numbers,
//! the elapsed-time label, and the bracketed header layout.
use vstd::prelude::*;
use vstd::string::*;

use crate::flags::{bit_on, NO_INDEX, NO_SYMBOL, TIMER};

verus! {

/// Relies on `String::push`: appends one character at the end.
pub assume_specification[ String::push ](s: &mut String, ch: char)
    ensures
        final(s)@ == old(s)@.push(ch),
;

/// The lowercase hexadecimal digit for `d` (also the decimal digit when `d < 10`).
pub open spec fn digit_char(d: int) -> char {
    if d == 0 { '0' }
    else if d == 1 { '1' }
    else if d == 2 { '2' }
    else if d == 3 { '3' }
    else if d == 4 { '4' }
    else if d == 5 { '5' }
    else if d == 6 { '6' }
    else if d == 7 { '7' }
    else if d == 8 { '8' }
    else if d == 9 { '9' }
    else if d == 10 { 'a' }
    else if d == 11 { 'b' }
    else if d == 12 { 'c' }
    else if d == 13 { 'd' }
    else if d == 14 { 'e' }
    else { 'f' }
}

/// The index as four zero-padded lowercase hexadecimal digits.
pub open spec fn hex4(i: u16) -> Seq<char> {
    seq![
        digit_char(i as int / 4096),
        digit_char((i as int / 256) % 16),
        digit_char((i as int / 16) % 16),
        digit_char(i as int % 16),
    ]
}

/// The decimal representation of `n`, without leading zeros.
pub open spec fn decimal(n: nat) -> Seq<char>
    decreases n,
{
    if n < 10 {
        seq![digit_char(n as int)]
    } else {
        decimal(n / 10).push(digit_char((n % 10) as int))
    }
}

/// Elapsed microseconds as milliseconds with three decimals, then `ms`:
/// 12345 reads `12.345ms`.
pub open spec fn millis_label(micros: nat) -> Seq<char> {
    decimal(micros / 1000) + seq![
        '.',
        digit_char(((micros % 1000) / 100) as int),
        digit_char(((micros % 100) / 10) as int),
        digit_char((micros % 10) as int),
        'm',
        's',
    ]
}

fn digit(d: u128) -> (c: char)
    requires
        d < 16,
    ensures
        c == digit_char(d as int),
{
    if d == 0 { '0' }
    else if d == 1 { '1' }
    else if d == 2 { '2' }
    else if d == 3 { '3' }
    else if d == 4 { '4' }
    else if d == 5 { '5' }
    else if d == 6 { '6' }
    else if d == 7 { '7' }
    else if d == 8 { '8' }
    else if d == 9 { '9' }
    else if d == 10 { 'a' }
    else if d == 11 { 'b' }
    else if d == 12 { 'c' }
    else if d == 13 { 'd' }
    else if d == 14 { 'e' }
    else { 'f' }
}

fn push_decimal(s: &mut String, n: u128)
    ensures
        final(s)@ == old(s)@ + decimal(n as nat),
    decreases n,
{
    if n >= 10 {
        push_decimal(s, n / 10);
    }
    s.push(digit(n % 10));
}

/// The index as four zero-padded lowercase hexadecimal digits (`0x2a` reads `002a`).
pub fn index_label(i: u16) -> (r: String)
    ensures
        r@ == hex4(i),
{
    let mut s = String::new();
    s.push(digit((i / 4096) as u128));
    s.push(digit(((i / 256) % 16) as u128));
    s.push(digit(((i / 16) % 16) as u128));
    s.push(digit((i % 16) as u128));
    assert(s@ =~= hex4(i));
    s
}

/// Elapsed microseconds rendered as milliseconds with three decimals and a
/// trailing `ms` (`1500` reads `1.500ms`).
pub fn elapsed_label(micros: u128) -> (r: String)
    ensures
        r@ == millis_label(micros as nat),
{
    let mut s = String::new();
    push_decimal(&mut s, micros / 1000);
    s.push('.');
    s.push(digit((micros % 1000) / 100));
    s.push(digit((micros % 100) / 10));
    s.push(digit(micros % 10));
    s.push('m');
    s.push('s');
    assert(s@ =~= millis_label(micros as nat));
    s
}

} // verus!

verus! {

/// The header for the given pieces: `[cnt:sym]`, `[cnt]` or `[sym]` as the
/// index and symbol switches allow, then `(tim)` when the timer is on, then a
/// space; empty when both index and symbol are switched off.
pub open spec fn header_layout(flags: u8, cnt: Seq<char>, sym: Seq<char>, tim: Seq<char>) -> Seq<char> {
    if bit_on(flags, NO_INDEX) && bit_on(flags, NO_SYMBOL) {
        seq![]
    } else {
        let bracket = if !bit_on(flags, NO_INDEX) && !bit_on(flags, NO_SYMBOL) {
            seq!['['] + cnt + seq![':'] + sym + seq![']']
        } else if !bit_on(flags, NO_INDEX) {
            seq!['['] + cnt + seq![']']
        } else {
            seq!['['] + sym + seq![']']
        };
        let timed = if bit_on(flags, TIMER) {
            bracket + seq!['('] + tim + seq![')']
        } else {
            bracket
        };
        timed.push(' ')
    }
}

/// Lays out a header from its (possibly painted) pieces; see [`header_layout`].
pub fn compose_header(flags: u8, cnt: &str, sym: &str, tim: &str) -> (r: String)
    ensures
        r@ == header_layout(flags, cnt@, sym@, tim@),
{
    let mut s = String::new();
    if flags & NO_INDEX != 0 && flags & NO_SYMBOL != 0 {
        return s;
    }
    s.push('[');
    if flags & NO_INDEX == 0 {
        s.append(cnt);
        if flags & NO_SYMBOL == 0 {
            s.push(':');
            s.append(sym);
        }
    } else {
        s.append(sym);
    }
    s.push(']');
    if flags & TIMER != 0 {
        s.push('(');
        s.append(tim);
        s.push(')');
    }
    s.push(' ');
    assert(s@ =~= header_layout(flags, cnt@, sym@, tim@));
    s
}

} // verus!
