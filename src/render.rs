//! Whole log lines: the plain copy for the file sink and the painted line
//! for standard error.
use vstd::prelude::*;
use vstd::string::*;

use crate::level::{body_ink_of, header_ink_of, symbol_of, Level};
use crate::paint::{paint, painting};
use crate::text::{compose_header, elapsed_label, header_layout, hex4, index_label, millis_label};

verus! {

/// The text of the timer annotation, when a reading was taken.
pub open spec fn timer_text(elapsed: Option<u128>) -> Seq<char> {
    match elapsed {
        Some(micros) => millis_label(micros as nat),
        None => seq![],
    }
}

/// The uncoloured line: header of index, symbol and timer annotation, then the message.
pub open spec fn plain_text(flags: u8, index: u16, level: Level, msg: Seq<char>, elapsed: Option<u128>) -> Seq<char> {
    header_layout(flags, hex4(index), seq![symbol_of(level)], timer_text(elapsed)) + msg
}

/// A line assembled from painted pieces.
pub open spec fn painted_text(flags: u8, cnt: Seq<char>, sym: Seq<char>, tim: Seq<char>, body: Seq<char>) -> Seq<char> {
    header_layout(flags, cnt, sym, tim) + body
}

/// `line` is a console line for these inputs: the plain layout, with the
/// index, the symbol and the timer annotation each painted in the header ink
/// and the message painted in the body ink.
pub open spec fn console_shape(line: Seq<char>, flags: u8, index: u16, level: Level, msg: Seq<char>, elapsed: Option<u128>) -> bool {
    exists|cnt: Seq<char>, sym: Seq<char>, tim: Seq<char>, body: Seq<char>|
        {
            &&& painting(cnt, hex4(index), header_ink_of(flags, level))
            &&& painting(sym, seq![symbol_of(level)], header_ink_of(flags, level))
            &&& painting(tim, timer_text(elapsed), header_ink_of(flags, level))
            &&& painting(body, msg, body_ink_of(flags, level))
            &&& line == #[trigger] painted_text(flags, cnt, sym, tim, body)
        }
}

fn timer_label(elapsed: Option<u128>) -> (r: String)
    ensures
        r@ == timer_text(elapsed),
{
    match elapsed {
        Some(micros) => elapsed_label(micros),
        None => String::new(),
    }
}

fn symbol_label(level: Level) -> (r: String)
    ensures
        r@ == seq![symbol_of(level)],
{
    let mut s = String::new();
    s.push(level.symbol());
    s
}

/// The line written to the file sink: no colour, no bold.
pub fn plain_line(flags: u8, index: u16, level: Level, msg: &str, elapsed: Option<u128>) -> (r: String)
    ensures
        r@ == plain_text(flags, index, level, msg@, elapsed),
{
    let cnt = index_label(index);
    let sym = symbol_label(level);
    let tim = timer_label(elapsed);
    let mut line = compose_header(flags, cnt.as_str(), sym.as_str(), tim.as_str());
    line.append(msg);
    line
}

/// The line written to standard error, painted as `flags` allow.
pub fn console_line(flags: u8, index: u16, level: Level, msg: &str, elapsed: Option<u128>) -> (r: String)
    ensures
        console_shape(r@, flags, index, level, msg@, elapsed),
{
    let header_ink = level.header_ink(flags);
    let cnt = paint(index_label(index).as_str(), header_ink);
    let sym = paint(symbol_label(level).as_str(), header_ink);
    let tim = paint(timer_label(elapsed).as_str(), header_ink);
    let body = paint(msg, level.body_ink(flags));
    let mut line = compose_header(flags, cnt.as_str(), sym.as_str(), tim.as_str());
    line.append(body.as_str());
    assert(line@ == painted_text(flags, cnt@, sym@, tim@, body@));
    line
}

} // verus!
