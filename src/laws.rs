//! Properties that hold across calls, proved over the models that the
//! logger's contracts are stated in.
use vstd::prelude::*;

use crate::flags::{bit_on, FILE_ONLY, NO_BOLD, NO_COLOR, NO_INDEX, NO_SYMBOL};
use crate::level::{body_ink_of, header_ink_of, symbol_of, Level};
use crate::logs::{
    advance, after_emit, configured_flags, configured_sink, emit_stamps, last_timer, lines_fit, missing_sink,
    notice_due, stamps, LoggerView, Options, Origin, Record, Sink, Stamp,
};
use crate::paint::painting;
use crate::render::{console_shape, painted_text, plain_text, timer_text};
use crate::text::{decimal, digit_char, header_layout, hex4, millis_label};

verus! {

/// The state of a new logger.
pub open spec fn fresh() -> LoggerView {
    LoggerView { index: 0, flags: 0, sink: None, timer: None, noticed: false }
}

/// The state after `n` calls; a call's level does not affect the state.
pub open spec fn after_calls(v: LoggerView, n: nat) -> LoggerView
    decreases n,
{
    if n == 0 {
        v
    } else {
        after_emit(after_calls(v, (n - 1) as nat))
    }
}

/// The stamps of all records of a run of calls at the given levels, in order.
pub open spec fn all_stamps(v: LoggerView, levels: Seq<Level>) -> Seq<Stamp>
    decreases levels.len(),
{
    if levels.len() == 0 {
        seq![]
    } else {
        all_stamps(v, levels.drop_last()) + emit_stamps(after_calls(v, (levels.len() - 1) as nat), levels.last())
    }
}

/// The state after `opts`, for options that hold no timer option (the timer
/// origin then stays as it was).
pub open spec fn configured_view(v: LoggerView, opts: Seq<Options>) -> LoggerView {
    LoggerView { flags: configured_flags(v.flags, opts), sink: configured_sink(v.sink, opts), ..v }
}

/// The options `NoColor` then `NoBold`.
pub open spec fn colorless_boldless() -> Seq<Options> {
    seq![Options::NoColor, Options::NoBold]
}

/// The index shown by the `n`-th call (from zero) on a new logger: the
/// position itself up to `ffff`; after the first wrap and its overflow
/// notice at `0000`, the indices run `0001` to `ffff` over and over.
pub open spec fn position(n: nat) -> u16 {
    if n < 0x10000 {
        n as u16
    } else {
        (1 + (n - 0x10000) % 0xffff) as u16
    }
}

/// How many stamps have the given origin.
pub open spec fn count_origin(sts: Seq<Stamp>, o: Origin) -> nat
    decreases sts.len(),
{
    if sts.len() == 0 {
        0
    } else {
        count_origin(sts.drop_last(), o) + if sts.last().origin == o { 1nat } else { 0nat }
    }
}

/// The value of a string of decimal digits.
pub open spec fn digits_value(s: Seq<char>) -> int
    decreases s.len(),
{
    if s.len() == 0 {
        0
    } else {
        digits_value(s.drop_last()) * 10 + digit_value(s.last())
    }
}

/// The value of a decimal digit.
pub open spec fn digit_value(c: char) -> int {
    if c == '1' { 1 }
    else if c == '2' { 2 }
    else if c == '3' { 3 }
    else if c == '4' { 4 }
    else if c == '5' { 5 }
    else if c == '6' { 6 }
    else if c == '7' { 7 }
    else if c == '8' { 8 }
    else if c == '9' { 9 }
    else { 0 }
}

/// The microseconds a label `<millis>.<3 digits>ms` reads as.
pub open spec fn label_micros(label: Seq<char>) -> int {
    let n = label.len() as int;
    digits_value(label.take(n - 6) + label.subrange(n - 5, n - 2))
}

proof fn lemma_count_concat(a: Seq<Stamp>, b: Seq<Stamp>, o: Origin)
    ensures
        count_origin(a + b, o) == count_origin(a, o) + count_origin(b, o),
    decreases b.len(),
{
    if b.len() == 0 {
        assert(a + b =~= a);
    } else {
        assert((a + b).drop_last() =~= a + b.drop_last());
        lemma_count_concat(a, b.drop_last(), o);
    }
}

proof fn lemma_count_stamps(index: u16, level: Level, origin: Origin, o: Origin)
    ensures
        count_origin(stamps(index, level, origin), o)
            == (if origin == o { 1nat } else { 0nat }) + if index == 0xffff && o == Origin::Overflow { 1nat } else { 0nat },
{
    reveal_with_fuel(count_origin, 3);
    let first = seq![Stamp { level, origin, index }];
    assert(first.drop_last() =~= Seq::<Stamp>::empty());
    if index == 0xffff {
        assert(first.push(Stamp { level: Level::Warn, origin: Origin::Overflow, index: 0 }).drop_last() =~= first);
    }
}

/// The painted pieces a console line is made of.
proof fn lemma_console_parts(
    line: Seq<char>,
    f: u8,
    index: u16,
    level: Level,
    msg: Seq<char>,
    elapsed: Option<u128>,
) -> (parts: (Seq<char>, Seq<char>, Seq<char>, Seq<char>))
    requires
        console_shape(line, f, index, level, msg, elapsed),
    ensures
        painting(parts.0, hex4(index), header_ink_of(f, level)),
        painting(parts.1, seq![symbol_of(level)], header_ink_of(f, level)),
        painting(parts.2, timer_text(elapsed), header_ink_of(f, level)),
        painting(parts.3, msg, body_ink_of(f, level)),
        line == painted_text(f, parts.0, parts.1, parts.2, parts.3),
{
    choose|cnt: Seq<char>, sym: Seq<char>, tim: Seq<char>, body: Seq<char>|
        {
            &&& painting(cnt, hex4(index), header_ink_of(f, level))
            &&& painting(sym, seq![symbol_of(level)], header_ink_of(f, level))
            &&& painting(tim, timer_text(elapsed), header_ink_of(f, level))
            &&& painting(body, msg, body_ink_of(f, level))
            &&& line == #[trigger] painted_text(f, cnt, sym, tim, body)
        }
}

/// Calls change neither flags, sink nor timer; once a missing-sink notice
/// was due, it stays given.
proof fn lemma_after_calls(v: LoggerView, n: nat)
    ensures
        after_calls(v, n).flags == v.flags,
        after_calls(v, n).sink == v.sink,
        after_calls(v, n).timer == v.timer,
        v.noticed ==> after_calls(v, n).noticed,
        n > 0 && missing_sink(v) ==> after_calls(v, n).noticed,
    decreases n,
{
    if n > 0 {
        lemma_after_calls(v, (n - 1) as nat);
    }
}

/// Configuring `NoColor` then `NoBold` has exactly the effect of configuring
/// `Plain`: neither holds a timer option, both give the same state, and so
/// every later run of calls gives the same records from either.
pub proof fn law_plain_is_no_color_and_no_bold(v: LoggerView)
    ensures
        last_timer(seq![Options::NoColor, Options::NoBold]) is None,
        last_timer(seq![Options::Plain]) is None,
        configured_view(v, colorless_boldless()) == configured_view(v, seq![Options::Plain]),
        forall|levels: Seq<Level>|
            #[trigger] all_stamps(configured_view(v, colorless_boldless()), levels)
                == all_stamps(configured_view(v, seq![Options::Plain]), levels),
{
    reveal_with_fuel(configured_flags, 3);
    reveal_with_fuel(configured_sink, 3);
    reveal_with_fuel(last_timer, 3);
    let two = seq![Options::NoColor, Options::NoBold];
    let one = seq![Options::Plain];
    assert(two.drop_last() =~= seq![Options::NoColor]);
    assert(seq![Options::NoColor].drop_last() =~= Seq::<Options>::empty());
    assert(one.drop_last() =~= Seq::<Options>::empty());
    let f = v.flags;
    assert((f | 0x04u8) | 0x08u8 == f | 0x0cu8) by (bit_vector);
}

/// Under `Plain` (so also under `NoColor` and `NoBold`), whatever came
/// before, every console line is the plain line: no escape sequence at all.
pub proof fn law_plain_console_is_plain(
    flags: u8,
    index: u16,
    level: Level,
    msg: Seq<char>,
    elapsed: Option<u128>,
    line: Seq<char>,
)
    ensures
        console_shape(line, configured_flags(flags, seq![Options::Plain]), index, level, msg, elapsed)
            ==> line == plain_text(configured_flags(flags, seq![Options::Plain]), index, level, msg, elapsed),
{
    reveal_with_fuel(configured_flags, 2);
    assert(seq![Options::Plain].drop_last() =~= Seq::<Options>::empty());
    let f = configured_flags(flags, seq![Options::Plain]);
    assert(f == flags | 0x0cu8);
    assert((flags | 0x0cu8) & 0x04u8 != 0 && (flags | 0x0cu8) & 0x08u8 != 0) by (bit_vector);
    assert(bit_on(f, NO_COLOR) && bit_on(f, NO_BOLD));
    if console_shape(line, f, index, level, msg, elapsed) {
        lemma_console_parts(line, f, index, level, msg, elapsed);
    }
}

/// After configuring `NoIndex` and `NoSymbol`, whatever came before, the
/// header is empty: the plain line is the message itself, and the console
/// line is the message painted in the body ink.
pub proof fn law_no_index_no_symbol_empty_header(
    flags: u8,
    index: u16,
    level: Level,
    msg: Seq<char>,
    elapsed: Option<u128>,
    line: Seq<char>,
)
    ensures
        ({
            let f = configured_flags(flags, seq![Options::NoIndex, Options::NoSymbol]);
            &&& forall|cnt: Seq<char>, sym: Seq<char>, tim: Seq<char>| #[trigger] header_layout(f, cnt, sym, tim) == Seq::<char>::empty()
            &&& plain_text(f, index, level, msg, elapsed) == msg
            &&& console_shape(line, f, index, level, msg, elapsed) ==> painting(line, msg, body_ink_of(f, level))
        }),
{
    reveal_with_fuel(configured_flags, 3);
    let opts = seq![Options::NoIndex, Options::NoSymbol];
    assert(opts.drop_last() =~= seq![Options::NoIndex]);
    assert(seq![Options::NoIndex].drop_last() =~= Seq::<Options>::empty());
    let f = configured_flags(flags, opts);
    assert(f == (flags | 0x01u8) | 0x02u8);
    assert(((flags | 0x01u8) | 0x02u8) & 0x01u8 != 0 && ((flags | 0x01u8) | 0x02u8) & 0x02u8 != 0) by (bit_vector);
    assert(msg =~= Seq::<char>::empty() + msg);
    if console_shape(line, f, index, level, msg, elapsed) {
        let parts = lemma_console_parts(line, f, index, level, msg, elapsed);
        assert(line =~= parts.3);
    }
}

/// After configuring `Basic`, whatever came before, every line is exactly
/// the message: no header, no colour, no bold.
pub proof fn law_basic_is_bare_message(
    flags: u8,
    index: u16,
    level: Level,
    msg: Seq<char>,
    elapsed: Option<u128>,
    line: Seq<char>,
)
    ensures
        plain_text(configured_flags(flags, seq![Options::Basic]), index, level, msg, elapsed) == msg,
        console_shape(line, configured_flags(flags, seq![Options::Basic]), index, level, msg, elapsed) ==> line == msg,
{
    reveal_with_fuel(configured_flags, 2);
    let opts = seq![Options::Basic];
    assert(opts.drop_last() =~= Seq::<Options>::empty());
    let f = configured_flags(flags, opts);
    assert(f == flags | 0x0fu8);
    assert((flags | 0x0fu8) & 0x01u8 != 0 && (flags | 0x0fu8) & 0x02u8 != 0 && (flags | 0x0fu8) & 0x04u8 != 0
        && (flags | 0x0fu8) & 0x08u8 != 0) by (bit_vector);
    assert(bit_on(f, NO_INDEX) && bit_on(f, NO_SYMBOL) && bit_on(f, NO_COLOR) && bit_on(f, NO_BOLD));
    assert(msg =~= Seq::<char>::empty() + msg);
    if console_shape(line, f, index, level, msg, elapsed) {
        let parts = lemma_console_parts(line, f, index, level, msg, elapsed);
        assert(line =~= parts.3);
    }
}

/// Enabling `FileOnly` sets the file-only bit and attaches no sink.
pub proof fn law_file_only_attaches_nothing(flags: u8, sink: Option<Sink>)
    ensures
        bit_on(configured_flags(flags, seq![Options::FileOnly]), FILE_ONLY),
        configured_sink(sink, seq![Options::FileOnly]) == sink,
{
    reveal_with_fuel(configured_flags, 2);
    reveal_with_fuel(configured_sink, 2);
    assert(seq![Options::FileOnly].drop_last() =~= Seq::<Options>::empty());
    assert((flags | 0x20u8) & 0x20u8 != 0) by (bit_vector);
}

/// With the file-only bit on and no sink attached, no record of a call goes
/// to standard error or to a file; the missing-sink notice, a warning, is
/// added exactly when it was not given before. The call leaves the state
/// file-only without a sink, with the notice given.
pub proof fn law_file_only_without_sink(v: LoggerView, level: Level, r: Record, text: Seq<char>)
    requires
        bit_on(v.flags, FILE_ONLY),
        v.sink is None,
    ensures
        count_origin(emit_stamps(v, level), Origin::MissingSink) == if v.noticed { 0nat } else { 1nat },
        forall|k: int|
            0 <= k < emit_stamps(v, level).len() && #[trigger] emit_stamps(v, level)[k].origin == Origin::MissingSink
                ==> emit_stamps(v, level)[k].level == Level::Warn,
        lines_fit(r, v.flags, v.sink, text) ==> r.file is None,
        lines_fit(r, v.flags, v.sink, text) ==> r.console is None,
        after_emit(v).flags == v.flags,
        after_emit(v).sink is None,
        after_emit(v).noticed,
{
    let a = stamps(v.index, level, Origin::Caller);
    lemma_count_stamps(v.index, level, Origin::Caller, Origin::MissingSink);
    if !v.noticed {
        let b = stamps(advance(v.index), Level::Warn, Origin::MissingSink);
        lemma_count_concat(a, b, Origin::MissingSink);
        lemma_count_stamps(advance(v.index), Level::Warn, Origin::MissingSink, Origin::MissingSink);
    }
}

/// After `FileOnly` with no sink ever attached, a run of one or more calls
/// produces exactly one missing-sink notice in all, during the first call.
pub proof fn law_file_only_notice_once(v: LoggerView, levels: Seq<Level>)
    requires
        bit_on(v.flags, FILE_ONLY),
        v.sink is None,
        !v.noticed,
        levels.len() >= 1,
    ensures
        count_origin(all_stamps(v, levels), Origin::MissingSink) == 1,
        count_origin(emit_stamps(v, levels[0]), Origin::MissingSink) == 1,
    decreases levels.len(),
{
    reveal_with_fuel(all_stamps, 2);
    law_file_only_without_sink(v, levels[0], arbitrary(), seq![]);
    if levels.len() == 1 {
        assert(levels.drop_last() =~= Seq::<Level>::empty());
        assert(all_stamps(v, levels) =~= emit_stamps(v, levels[0]));
    } else {
        let prev = levels.drop_last();
        assert(prev[0] == levels[0]);
        law_file_only_notice_once(v, prev);
        let w = after_calls(v, prev.len());
        lemma_after_calls(v, prev.len());
        law_file_only_without_sink(w, levels.last(), arbitrary(), seq![]);
        lemma_count_concat(all_stamps(v, prev), emit_stamps(w, levels.last()), Origin::MissingSink);
    }
}

/// A call made when the counter stands at `ffff` shows `ffff`, wraps the
/// counter, and is followed by exactly one overflow notice, a warning at
/// `0000`; when no missing-sink notice is due, the next call shows `0001`.
pub proof fn law_wraparound(v: LoggerView, level: Level)
    requires
        v.index == 0xffff,
    ensures
        emit_stamps(v, level)[0] == (Stamp { level, origin: Origin::Caller, index: 0xffff }),
        emit_stamps(v, level)[1] == (Stamp { level: Level::Warn, origin: Origin::Overflow, index: 0 }),
        count_origin(emit_stamps(v, level), Origin::Overflow) == 1,
        !notice_due(v) ==> emit_stamps(v, level).len() == 2 && after_emit(v).index == 1,
{
    let a = stamps(v.index, level, Origin::Caller);
    lemma_count_stamps(v.index, level, Origin::Caller, Origin::Overflow);
    if notice_due(v) {
        let b = stamps(advance(v.index), Level::Warn, Origin::MissingSink);
        lemma_count_concat(a, b, Origin::Overflow);
        lemma_count_stamps(advance(v.index), Level::Warn, Origin::MissingSink, Origin::Overflow);
    }
}

/// On a new logger left at its default configuration, the `n`-th call (from
/// zero, of any levels) shows the index `position(n)`: its position modulo
/// 65536 until the first wrap, then counted past the overflow notice.
pub proof fn law_index_positions(n: nat, level: Level)
    ensures
        after_calls(fresh(), n).index == position(n),
        after_calls(fresh(), n).flags == 0,
        after_calls(fresh(), n).sink is None,
        emit_stamps(after_calls(fresh(), n), level)[0] == (Stamp { level, origin: Origin::Caller, index: position(n) }),
    decreases n,
{
    assert(0u8 & 0x10u8 == 0 && 0u8 & 0x20u8 == 0) by (bit_vector);
    lemma_after_calls(fresh(), n);
    if n > 0 {
        let m = (n - 1) as nat;
        law_index_positions(m, level);
        lemma_after_calls(fresh(), m);
        if m >= 0x10000 {
            let k = (m - 0x10000) as nat;
            assert((k + 1) % 0xffff == if k % 0xffff == 0xfffe { 0 } else { k % 0xffff + 1 }) by {
                vstd::arithmetic::div_mod::lemma_add_mod_noop(k as int, 1, 0xffff);
            }
        }
    }
    assert(!missing_sink(after_calls(fresh(), n)));
}

/// On a new logger left at its default configuration, numbering every record
/// of a run of calls from zero (the caller's and the overflow notices alike),
/// record `q` shows the index `q` modulo 65536.
pub proof fn law_line_numbers(levels: Seq<Level>)
    ensures
        after_calls(fresh(), levels.len()).index == all_stamps(fresh(), levels).len() % 0x10000,
        forall|q: int| 0 <= q < all_stamps(fresh(), levels).len()
            ==> #[trigger] all_stamps(fresh(), levels)[q].index == q % 0x10000,
    decreases levels.len(),
{
    if levels.len() > 0 {
        let prev = levels.drop_last();
        law_line_numbers(prev);
        let before = all_stamps(fresh(), prev);
        let w = after_calls(fresh(), prev.len());
        lemma_after_calls(fresh(), prev.len());
        assert(0u8 & 0x10u8 == 0 && 0u8 & 0x20u8 == 0) by (bit_vector);
        assert(!missing_sink(w));
        let e = emit_stamps(w, levels.last());
        let all = all_stamps(fresh(), levels);
        assert(all == before + e);
        let len = before.len() as int;
        assert forall|q: int| 0 <= q < all.len() implies #[trigger] all[q].index == q % 0x10000 by {
            if q < len {
                assert(all[q] == before[q]);
            } else if q == len + 1 {
                assert((len + 1) % 0x10000 == 0);
            }
        }
        if w.index == 0xffff {
            assert((len + 2) % 0x10000 == 1);
        } else {
            assert((len + 1) % 0x10000 == w.index + 1);
        }
    }
}

proof fn lemma_decimal_value(n: nat)
    ensures
        digits_value(decimal(n)) == n,
    decreases n,
{
    reveal_with_fuel(digits_value, 2);
    if n >= 10 {
        lemma_decimal_value(n / 10);
        assert(decimal(n).drop_last() =~= decimal(n / 10));
    } else {
        assert(seq![digit_char(n as int)].drop_last() =~= Seq::<char>::empty());
    }
}

proof fn lemma_digit_value(k: nat)
    requires
        k < 10,
    ensures
        digit_value(digit_char(k as int)) == k,
{
}

/// An elapsed-time label reads back as the microseconds it was made from;
/// so labels of different readings differ, and a later, larger reading gives
/// a label of larger value.
pub proof fn law_elapsed_labels(a: nat, b: nat)
    ensures
        label_micros(millis_label(a)) == a,
        a != b ==> millis_label(a) != millis_label(b),
        a <= b ==> label_micros(millis_label(a)) <= label_micros(millis_label(b)),
{
    lemma_label_value(a);
    lemma_label_value(b);
}

proof fn lemma_label_value(us: nat)
    ensures
        label_micros(millis_label(us)) == us,
{
    let d = decimal(us / 1000);
    let c1 = digit_char(((us % 1000) / 100) as int);
    let c2 = digit_char(((us % 100) / 10) as int);
    let c3 = digit_char((us % 10) as int);
    let label = millis_label(us);
    let n = label.len() as int;
    assert(label.take(n - 6) =~= d);
    assert(label.subrange(n - 5, n - 2) =~= seq![c1, c2, c3]);
    let x = d + seq![c1, c2, c3];
    assert(x.drop_last() =~= d.push(c1).push(c2));
    assert(d.push(c1).push(c2).drop_last() =~= d.push(c1));
    assert(d.push(c1).drop_last() =~= d);
    lemma_decimal_value(us / 1000);
    lemma_digit_value((us % 1000) / 100);
    lemma_digit_value((us % 100) / 10);
    lemma_digit_value(us % 10);
    reveal_with_fuel(digits_value, 4);
    assert(digits_value(x) == ((digits_value(d) * 10 + digit_value(c1)) * 10 + digit_value(c2)) * 10 + digit_value(c3));
    assert(((us / 1000) * 10 + (us % 1000) / 100) * 100 + ((us % 100) / 10) * 10 + us % 10 == us) by (nonlinear_arith);
}

} // verus!
