//! The logger: a 16-bit wrapping counter, the option bitmask, the sink and
//! timer settings, and the five severity calls.
//!
//! A call does no I/O. It returns the records it produced, each with the line
//! for standard error and the plain line for the file sink, when it has them.
//!
//! Rules this logger keeps:
//! - every record takes the current index and then advances the counter;
//! - a record that wraps the counter to zero is followed by one overflow
//!   notice (a warning) at index `0000`, after which the counter stands at
//!   `0001`; the overflow notice itself never wraps the counter;
//! - a record has a line for standard error unless the file-only switch is
//!   on, and a plain line for the file sink when the file switch is on and a
//!   sink is attached;
//! - the first call whose lines are meant for the file sink (file or
//!   file-only switch on) while no sink is attached adds one missing-sink
//!   notice (a warning) after its own record, and later calls add none. Like
//!   every record, that notice has no line for standard error under
//!   file-only: it reaches the host as a record. It may itself wrap the
//!   counter and be followed by the overflow notice.
use vstd::prelude::*;

use crate::flags::{bit_on, mirrored, FILE, FILE_ONLY, NO_BOLD, NO_COLOR, NO_INDEX, NO_SYMBOL, TIMER};
use crate::level::Level;
use crate::render::{console_line, console_shape, plain_line, plain_text};

verus! {

#[verifier::external_type_specification]
#[verifier::external_body]
pub struct ExInstant(std::time::Instant);

/// Relies on `Instant::now`: some instant; nothing is known of its value.
pub assume_specification[ std::time::Instant::now ]() -> std::time::Instant;

/// Relies on `Instant::elapsed`: the time since the instant, saturating at zero.
pub assume_specification[ std::time::Instant::elapsed ](i: &std::time::Instant) -> core::time::Duration;

/// Relies on `Duration::as_micros`: the whole microseconds of a duration.
pub assume_specification[ core::time::Duration::as_micros ](d: &core::time::Duration) -> u128;

/// The file the host opens for [`Options::File`], in the working directory.
pub const DEFAULT_LOG_PATH: &'static str = "forestry.log";

/// The missing-sink notice.
pub const MISSING_SINK_NOTICE: &'static str = "File output enabled without file specified.";

/// The overflow notice.
pub const OVERFLOW_NOTICE: &'static str = "Log index overflowed; log index may be inaccurate.";

/// Formatting options for [`Logger::cfg`].
#[derive(Clone, Copy, Debug)]
pub enum Options {
    /// Removes the incrementing log index.
    NoIndex,
    /// Removes the log type symbol.
    NoSymbol,
    /// Removes all colours.
    NoColor,
    /// Removes bold.
    NoBold,
    /// Removes colour and bold.
    Plain,
    /// Removes the header and all formatting: the line is the bare message.
    Basic,
    /// Mirrors lines to the default file ([`DEFAULT_LOG_PATH`]), which the host opens.
    File,
    /// Mirrors lines to a file handle that the host supplies.
    FileAt,
    /// Writes nothing to standard error; lines reach the file sink when `File`
    /// or `FileAt` is also on. Without any sink, the first call adds a
    /// missing-sink notice record, which has no line either.
    FileOnly,
    /// Annotates each header with the time elapsed since now.
    Timer,
    /// Annotates each header with the time elapsed since the given instant.
    TimerAt(std::time::Instant),
    /// Clears every formatting switch; the sink and the timer origin stay.
    Reset,
}

/// Where the host sends the plain copy of each line.
#[derive(Clone, Copy, Debug, PartialEq, Eq, Structural)]
pub enum Sink {
    /// The default file, [`DEFAULT_LOG_PATH`].
    DefaultFile,
    /// A handle the host was given.
    Provided,
}

/// What caused a record.
#[derive(Clone, Copy, Debug, PartialEq, Eq, Structural)]
pub enum Origin {
    /// The caller's own message.
    Caller,
    /// The notice that lines are meant for a file sink but none is attached.
    MissingSink,
    /// The notice that the counter wrapped to zero.
    Overflow,
}

/// One log record and the lines it produced.
#[derive(Debug)]
pub struct Record {
    pub level: Level,
    pub origin: Origin,
    /// The index shown in the header.
    pub index: u16,
    /// Microseconds since the timer origin, when the timer is on.
    pub elapsed: Option<u128>,
    /// The line for standard error, without its newline.
    pub console: Option<String>,
    /// The plain line for the file sink, without its newline.
    pub file: Option<String>,
}

/// The abstract state of a [`Logger`].
pub struct LoggerView {
    pub index: u16,
    pub flags: u8,
    pub sink: Option<Sink>,
    pub timer: Option<std::time::Instant>,
    /// The missing-sink notice has been given.
    pub noticed: bool,
}

/// A record's level, origin and index, as the rules fix them.
pub struct Stamp {
    pub level: Level,
    pub origin: Origin,
    pub index: u16,
}

/// The bits an option sets.
pub open spec fn option_bits(o: Options) -> u8 {
    match o {
        Options::NoIndex => NO_INDEX,
        Options::NoSymbol => NO_SYMBOL,
        Options::NoColor => NO_COLOR,
        Options::NoBold => NO_BOLD,
        Options::Plain => 0x0c,
        Options::Basic => 0x0f,
        Options::File | Options::FileAt => FILE,
        Options::FileOnly => FILE_ONLY,
        Options::Timer | Options::TimerAt(_) => TIMER,
        Options::Reset => 0,
    }
}

/// The bitmask after one option: `Reset` clears it, the others set their bits.
pub open spec fn apply_flags(flags: u8, o: Options) -> u8 {
    if o is Reset {
        0
    } else {
        flags | option_bits(o)
    }
}

/// The bitmask after the options, applied left to right.
pub open spec fn configured_flags(flags: u8, opts: Seq<Options>) -> u8
    decreases opts.len(),
{
    if opts.len() == 0 {
        flags
    } else {
        apply_flags(configured_flags(flags, opts.drop_last()), opts.last())
    }
}

/// The sink after one option.
pub open spec fn apply_sink(sink: Option<Sink>, o: Options) -> Option<Sink> {
    match o {
        Options::File => Some(Sink::DefaultFile),
        Options::FileAt => Some(Sink::Provided),
        _ => sink,
    }
}

/// The sink after the options: the last file option wins.
pub open spec fn configured_sink(sink: Option<Sink>, opts: Seq<Options>) -> Option<Sink>
    decreases opts.len(),
{
    if opts.len() == 0 {
        sink
    } else {
        apply_sink(configured_sink(sink, opts.drop_last()), opts.last())
    }
}

/// The last timer option among the options, if any.
pub open spec fn last_timer(opts: Seq<Options>) -> Option<Options>
    decreases opts.len(),
{
    if opts.len() == 0 {
        None
    } else if opts.last() is Timer || opts.last() is TimerAt {
        Some(opts.last())
    } else {
        last_timer(opts.drop_last())
    }
}

/// How the timer origin changes under the options: kept when no timer option
/// is given, otherwise set by the last one (to the given instant for `TimerAt`).
pub open spec fn timer_fits(
    before: Option<std::time::Instant>,
    after: Option<std::time::Instant>,
    opts: Seq<Options>,
) -> bool {
    match last_timer(opts) {
        None => after == before,
        Some(Options::TimerAt(t)) => after == Some(t),
        Some(_) => after is Some,
    }
}

/// The counter after one record: plus one, except that wrapping to zero is
/// followed by the overflow notice, which leaves it at one.
pub open spec fn advance(index: u16) -> u16 {
    if index == 0xffff {
        1
    } else {
        (index + 1) as u16
    }
}

/// The stamps one record at `index` produces: itself, then the overflow
/// notice at zero when it wraps the counter.
pub open spec fn stamps(index: u16, level: Level, origin: Origin) -> Seq<Stamp> {
    let first = seq![Stamp { level, origin, index }];
    if index == 0xffff {
        first.push(Stamp { level: Level::Warn, origin: Origin::Overflow, index: 0 })
    } else {
        first
    }
}

/// Lines are meant for the file sink but none is attached.
pub open spec fn missing_sink(v: LoggerView) -> bool {
    mirrored(v.flags) && v.sink is None
}

/// The missing-sink notice is due: no sink is attached and the notice was
/// not given yet.
pub open spec fn notice_due(v: LoggerView) -> bool {
    missing_sink(v) && !v.noticed
}

/// The stamps of one call at `level`.
pub open spec fn emit_stamps(v: LoggerView, level: Level) -> Seq<Stamp> {
    if notice_due(v) {
        stamps(v.index, level, Origin::Caller) + stamps(advance(v.index), Level::Warn, Origin::MissingSink)
    } else {
        stamps(v.index, level, Origin::Caller)
    }
}

/// The state after one call.
pub open spec fn after_emit(v: LoggerView) -> LoggerView {
    LoggerView {
        index: if notice_due(v) { advance(advance(v.index)) } else { advance(v.index) },
        noticed: v.noticed || notice_due(v),
        ..v
    }
}

/// The text of a record: the caller's message, or the fixed notice.
pub open spec fn record_text(origin: Origin, msg: Seq<char>) -> Seq<char> {
    match origin {
        Origin::Caller => msg,
        Origin::MissingSink => MISSING_SINK_NOTICE@,
        Origin::Overflow => OVERFLOW_NOTICE@,
    }
}

/// Whether a record has a line for standard error.
pub open spec fn to_console(flags: u8) -> bool {
    !bit_on(flags, FILE_ONLY)
}

/// Whether a record has a line for the file sink.
pub open spec fn to_file(flags: u8, sink: Option<Sink>) -> bool {
    bit_on(flags, FILE) && sink is Some
}

/// A record's lines, given the flags and sink it was made under and its text.
pub open spec fn lines_fit(r: Record, flags: u8, sink: Option<Sink>, text: Seq<char>) -> bool {
    &&& (r.elapsed is Some <==> bit_on(flags, TIMER))
    &&& match r.console {
        Some(line) => to_console(flags) && console_shape(line@, flags, r.index, r.level, text, r.elapsed),
        None => !to_console(flags),
    }
    &&& match r.file {
        Some(line) => to_file(flags, sink) && line@ == plain_text(flags, r.index, r.level, text, r.elapsed),
        None => !to_file(flags, sink),
    }
}

/// A record matches its stamp, and its lines fit.
pub open spec fn record_fits(r: Record, st: Stamp, flags: u8, sink: Option<Sink>, msg: Seq<char>) -> bool {
    &&& r.level == st.level
    &&& r.origin == st.origin
    &&& r.index == st.index
    &&& lines_fit(r, flags, sink, record_text(st.origin, msg))
}

/// Records, one for each stamp, in order.
pub open spec fn records_fit(rs: Seq<Record>, sts: Seq<Stamp>, flags: u8, sink: Option<Sink>, msg: Seq<char>) -> bool {
    &&& rs.len() == sts.len()
    &&& forall|k: int| 0 <= k < rs.len() ==> record_fits(#[trigger] rs[k], sts[k], flags, sink, msg)
}

/// One call at `level` with message `msg` took the logger from `before` to
/// `after` and produced `out`.
pub open spec fn emitted(before: LoggerView, after: LoggerView, level: Level, msg: Seq<char>, out: Seq<Record>) -> bool {
    &&& after == after_emit(before)
    &&& records_fit(out, emit_stamps(before, level), before.flags, before.sink, msg)
}

proof fn lemma_records_concat(
    a: Seq<Record>,
    b: Seq<Record>,
    sa: Seq<Stamp>,
    sb: Seq<Stamp>,
    flags: u8,
    sink: Option<Sink>,
    msg: Seq<char>,
)
    requires
        records_fit(a, sa, flags, sink, msg),
        records_fit(b, sb, flags, sink, msg),
    ensures
        records_fit(a + b, sa + sb, flags, sink, msg),
{
    assert forall|k: int| 0 <= k < (a + b).len() implies #[trigger] record_fits((a + b)[k], (sa + sb)[k], flags, sink, msg) by {
        if k < a.len() {
            assert(record_fits(a[k], sa[k], flags, sink, msg));
        } else {
            assert(record_fits(b[k - a.len()], sb[k - a.len()], flags, sink, msg));
        }
    }
}

/// Setting any bit but the timer's leaves the timer bit as it was; an empty
/// mask has no timer bit.
proof fn lemma_timer_bit(flags: u8)
    by (bit_vector)
    ensures
        0u8 & 0x40u8 == 0,
        (flags | 0x01u8) & 0x40u8 != 0 ==> flags & 0x40u8 != 0,
        (flags | 0x02u8) & 0x40u8 != 0 ==> flags & 0x40u8 != 0,
        (flags | 0x04u8) & 0x40u8 != 0 ==> flags & 0x40u8 != 0,
        (flags | 0x08u8) & 0x40u8 != 0 ==> flags & 0x40u8 != 0,
        (flags | 0x0cu8) & 0x40u8 != 0 ==> flags & 0x40u8 != 0,
        (flags | 0x0fu8) & 0x40u8 != 0 ==> flags & 0x40u8 != 0,
        (flags | 0x10u8) & 0x40u8 != 0 ==> flags & 0x40u8 != 0,
        (flags | 0x20u8) & 0x40u8 != 0 ==> flags & 0x40u8 != 0,
{
}

/// A console logger with a 16-bit wrapping index and an 8-bit option mask.
pub struct Logger {
    index: u16,
    flags: u8,
    sink: Option<Sink>,
    timer: Option<std::time::Instant>,
    noticed: bool,
}

impl View for Logger {
    type V = LoggerView;

    closed spec fn view(&self) -> LoggerView {
        LoggerView { index: self.index, flags: self.flags, sink: self.sink, timer: self.timer, noticed: self.noticed }
    }
}

impl Options {
    fn bits(self) -> (b: u8)
        ensures
            b == option_bits(self),
    {
        match self {
            Options::NoIndex => NO_INDEX,
            Options::NoSymbol => NO_SYMBOL,
            Options::NoColor => NO_COLOR,
            Options::NoBold => NO_BOLD,
            Options::Plain => 0x0c,
            Options::Basic => 0x0f,
            Options::File | Options::FileAt => FILE,
            Options::FileOnly => FILE_ONLY,
            Options::Timer | Options::TimerAt(_) => TIMER,
            Options::Reset => 0,
        }
    }
}

impl Logger {
    /// The timer bit is only ever set together with a timer origin.
    #[verifier::type_invariant]
    spec fn timer_ready(self) -> bool {
        bit_on(self.flags, TIMER) ==> self.timer is Some
    }

    /// A logger at index zero with every formatting switch off.
    pub fn new() -> (r: Logger)
        ensures
            r@ == (LoggerView { index: 0, flags: 0, sink: None, timer: None, noticed: false }),
    {
        proof {
            lemma_timer_bit(0);
        }
        Logger { index: 0, flags: 0, sink: None, timer: None, noticed: false }
    }

    /// The index the next record will show.
    pub fn index(&self) -> (i: u16)
        ensures
            i == self@.index,
    {
        self.index
    }

    /// The option bitmask.
    pub fn flags(&self) -> (f: u8)
        ensures
            f == self@.flags,
    {
        self.flags
    }

    /// The sink the host is to write plain lines to, if any.
    pub fn sink(&self) -> (s: Option<Sink>)
        ensures
            s == self@.sink,
    {
        self.sink
    }

    /// Moves the counter, so that the next record shows `index`.
    pub fn set_index(&mut self, index: u16)
        ensures
            final(self)@ == (LoggerView { index, ..old(self)@ }),
    {
        proof {
            use_type_invariant(&*self);
        }
        self.index = index;
    }

    /// Applies the options left to right: each sets its bits, `Reset` clears
    /// them all; file options record the sink, timer options the origin.
    pub fn cfg(&mut self, opts: &[Options])
        ensures
            final(self)@.index == old(self)@.index,
            final(self)@.noticed == old(self)@.noticed,
            final(self)@.flags == configured_flags(old(self)@.flags, opts@),
            final(self)@.sink == configured_sink(old(self)@.sink, opts@),
            timer_fits(old(self)@.timer, final(self)@.timer, opts@),
    {
        let mut i: usize = 0;
        while i < opts.len()
            invariant
                0 <= i <= opts@.len(),
                self@.index == old(self)@.index,
                self@.noticed == old(self)@.noticed,
                self@.flags == configured_flags(old(self)@.flags, opts@.take(i as int)),
                self@.sink == configured_sink(old(self)@.sink, opts@.take(i as int)),
                timer_fits(old(self)@.timer, self@.timer, opts@.take(i as int)),
            decreases opts@.len() - i,
        {
            proof {
                use_type_invariant(&*self);
                lemma_timer_bit(self.flags);
            }
            let o = opts[i];
            match o {
                Options::Reset => {
                    self.flags = 0;
                },
                Options::File => {
                    self.sink = Some(Sink::DefaultFile);
                    self.flags = self.flags | FILE;
                },
                Options::FileAt => {
                    self.sink = Some(Sink::Provided);
                    self.flags = self.flags | FILE;
                },
                Options::Timer => {
                    self.timer = Some(std::time::Instant::now());
                    self.flags = self.flags | TIMER;
                },
                Options::TimerAt(t) => {
                    self.timer = Some(t);
                    self.flags = self.flags | TIMER;
                },
                _ => {
                    let bits = o.bits();
                    self.flags = self.flags | bits;
                },
            }
            assert(opts@.take(i + 1).drop_last() =~= opts@.take(i as int));
            i = i + 1;
        }
        assert(opts@.take(opts@.len() as int) =~= opts@);
    }

    /// The record for `text` at `index` under the current settings.
    fn record(&self, level: Level, origin: Origin, index: u16, text: &str) -> (r: Record)
        ensures
            r.level == level,
            r.origin == origin,
            r.index == index,
            lines_fit(r, self@.flags, self@.sink, text@),
    {
        proof {
            use_type_invariant(self);
        }
        let elapsed = if self.flags & TIMER != 0 {
            match &self.timer {
                Some(origin) => Some(origin.elapsed().as_micros()),
                None => None,
            }
        } else {
            None
        };
        let console = if self.flags & FILE_ONLY == 0 {
            Some(console_line(self.flags, index, level, text, elapsed))
        } else {
            None
        };
        let file = if self.flags & FILE != 0 && self.sink.is_some() {
            Some(plain_line(self.flags, index, level, text, elapsed))
        } else {
            None
        };
        Record { level, origin, index, elapsed, console, file }
    }

    /// Appends the record for `text` and, if it wraps the counter, the
    /// overflow notice; advances the counter.
    fn push_record(&mut self, out: &mut Vec<Record>, level: Level, origin: Origin, text: &str, msg: Ghost<Seq<char>>)
        requires
            text@ == record_text(origin, msg@),
        ensures
            final(self)@ == (LoggerView { index: advance(old(self)@.index), ..old(self)@ }),
            final(out)@.len() == old(out)@.len() + stamps(old(self)@.index, level, origin).len(),
            final(out)@.take(old(out)@.len() as int) == old(out)@,
            records_fit(
                final(out)@.skip(old(out)@.len() as int),
                stamps(old(self)@.index, level, origin),
                old(self)@.flags,
                old(self)@.sink,
                msg@,
            ),
    {
        proof {
            use_type_invariant(&*self);
        }
        let index = self.index;
        let r = self.record(level, origin, index, text);
        out.push(r);
        let ghost sts = stamps(index, level, origin);
        if index == 0xffff {
            let notice = self.record(Level::Warn, Origin::Overflow, 0, OVERFLOW_NOTICE);
            out.push(notice);
            self.index = 1;
            assert(record_fits(out@.skip(old(out)@.len() as int)[1], sts[1], self@.flags, self@.sink, msg@));
        } else {
            self.index = index + 1;
        }
        assert(record_fits(out@.skip(old(out)@.len() as int)[0], sts[0], self@.flags, self@.sink, msg@));
        assert(out@.take(old(out)@.len() as int) =~= old(out)@);
    }

    fn emit(&mut self, level: Level, msg: &str) -> (out: Vec<Record>)
        ensures
            emitted(old(self)@, final(self)@, level, msg@, out@),
    {
        proof {
            use_type_invariant(&*self);
        }
        let due = (self.flags & FILE != 0 || self.flags & FILE_ONLY != 0) && self.sink.is_none() && !self.noticed;
        let mut out: Vec<Record> = Vec::new();
        self.push_record(&mut out, level, Origin::Caller, msg, Ghost(msg@));
        assert(out@.skip(0) =~= out@);
        if due {
            let ghost first = out@;
            self.noticed = true;
            self.push_record(&mut out, Level::Warn, Origin::MissingSink, MISSING_SINK_NOTICE, Ghost(msg@));
            proof {
                lemma_records_concat(
                    first,
                    out@.skip(first.len() as int),
                    stamps(old(self)@.index, level, Origin::Caller),
                    stamps(advance(old(self)@.index), Level::Warn, Origin::MissingSink),
                    old(self)@.flags,
                    old(self)@.sink,
                    msg@,
                );
                assert(out@ =~= first + out@.skip(first.len() as int));
            }
        }
        out
    }

    /// Logs `msg` as information: symbol `*`, blue.
    pub fn info(&mut self, msg: &str) -> (out: Vec<Record>)
        ensures
            emitted(old(self)@, final(self)@, Level::Info, msg@, out@),
    {
        self.emit(Level::Info, msg)
    }

    /// Logs `msg` as a warning: symbol `~`, yellow.
    pub fn warn(&mut self, msg: &str) -> (out: Vec<Record>)
        ensures
            emitted(old(self)@, final(self)@, Level::Warn, msg@, out@),
    {
        self.emit(Level::Warn, msg)
    }

    /// Logs `msg` as an error: symbol `!`, red, bold body.
    pub fn error(&mut self, msg: &str) -> (out: Vec<Record>)
        ensures
            emitted(old(self)@, final(self)@, Level::Error, msg@, out@),
    {
        self.emit(Level::Error, msg)
    }

    /// Logs `msg` as a success: symbol `+`, green, bold body.
    pub fn success(&mut self, msg: &str) -> (out: Vec<Record>)
        ensures
            emitted(old(self)@, final(self)@, Level::Success, msg@, out@),
    {
        self.emit(Level::Success, msg)
    }

    /// Logs `msg` as critical: symbol `%`, white on red, bold body.
    pub fn critical(&mut self, msg: &str) -> (out: Vec<Record>)
        ensures
            emitted(old(self)@, final(self)@, Level::Critical, msg@, out@),
    {
        self.emit(Level::Critical, msg)
    }
}

} // verus!
