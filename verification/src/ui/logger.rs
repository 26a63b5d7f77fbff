//! The log store behind the terminal console: which records it keeps, and the text
//! it shows of them.
use vstd::prelude::*;
use crate::circular::{CircularBuffer, push_spec};
use crate::strings::{has_prefix, starts_with};

verus! {

/// How many log messages are kept; older ones are dropped.
pub const LOG_CAPACITY: usize = 128;

/// The severity of a log record, from the most to the least severe.
#[derive(Debug, Clone, Copy, PartialEq, Eq, Structural)]
pub enum Level {
    Error,
    Warn,
    Info,
    Debug,
    Trace,
}

/// The most verbose level that is let through, or `Off` for none.
#[derive(Debug, Clone, Copy, PartialEq, Eq, Structural)]
pub enum LevelFilter {
    Off,
    Error,
    Warn,
    Info,
    Debug,
    Trace,
}

/// The verbosity of a level: `1` for errors up to `5` for traces.
pub open spec fn level_rank(level: Level) -> int {
    match level {
        Level::Error => 1,
        Level::Warn => 2,
        Level::Info => 3,
        Level::Debug => 4,
        Level::Trace => 5,
    }
}

/// The verbosity a filter lets through: `0` for none up to `5` for traces.
pub open spec fn filter_rank(filter: LevelFilter) -> int {
    match filter {
        LevelFilter::Off => 0,
        LevelFilter::Error => 1,
        LevelFilter::Warn => 2,
        LevelFilter::Info => 3,
        LevelFilter::Debug => 4,
        LevelFilter::Trace => 5,
    }
}

/// The name a level is printed as.
pub open spec fn level_name(level: Level) -> Seq<char> {
    match level {
        Level::Error => "ERROR"@,
        Level::Warn => "WARN"@,
        Level::Info => "INFO"@,
        Level::Debug => "DEBUG"@,
        Level::Trace => "TRACE"@,
    }
}

impl Level {
    /// The name this level is printed as.
    pub fn as_str(&self) -> (s: &'static str)
        ensures
            s@ == level_name(*self),
    {
        match self {
            Level::Error => "ERROR",
            Level::Warn => "WARN",
            Level::Info => "INFO",
            Level::Debug => "DEBUG",
            Level::Trace => "TRACE",
        }
    }
}

impl LevelFilter {
    /// Whether this filter lets records of `level` through: the filter is at least as
    /// verbose as the level.
    pub fn allows(&self, level: Level) -> (r: bool)
        ensures
            r == (filter_rank(*self) >= level_rank(level)),
            r == (level_rank(level) <= filter_rank(*self)),
    {
        let f: u8 = match self {
            LevelFilter::Off => 0,
            LevelFilter::Error => 1,
            LevelFilter::Warn => 2,
            LevelFilter::Info => 3,
            LevelFilter::Debug => 4,
            LevelFilter::Trace => 5,
        };
        let l: u8 = match level {
            Level::Error => 1,
            Level::Warn => 2,
            Level::Info => 3,
            Level::Debug => 4,
            Level::Trace => 5,
        };
        f >= l
    }
}

/// Which record targets are kept, by prefix.
pub enum TargetFilter {
    /// Drop records whose target starts with one of these.
    Blacklist(Vec<String>),
    /// Keep only records whose target starts with one of these.
    Whitelist(Vec<String>),
    /// Keep records of every target.
    NoFilter,
}

impl Default for TargetFilter {
    fn default() -> (f: Self)
        ensures
            f is NoFilter,
    {
        TargetFilter::NoFilter
    }
}

/// Some entry of `list` is a prefix of `target`.
pub open spec fn matches_any(list: Seq<String>, target: Seq<char>) -> bool {
    exists|i: int| 0 <= i < list.len() && has_prefix(target, #[trigger] list[i]@)
}

/// The target filter keeps records of `target`.
pub open spec fn target_passes(filter: TargetFilter, target: Seq<char>) -> bool {
    match filter {
        TargetFilter::Blacklist(list) => !matches_any(list@, target),
        TargetFilter::Whitelist(list) => matches_any(list@, target),
        TargetFilter::NoFilter => true,
    }
}

/// The settings of the logger.
#[non_exhaustive]
pub struct TuiLoggerConfig {
    pub level: LevelFilter,
    pub target_filter: TargetFilter,
}

/// A record of `level` from `target` is kept under `conf`.
pub open spec fn permits(conf: TuiLoggerConfig, level: Level, target: Seq<char>) -> bool {
    filter_rank(conf.level) >= level_rank(level) && target_passes(conf.target_filter, target)
}

impl Default for TuiLoggerConfig {
    fn default() -> (c: Self)
        ensures
            c.level == LevelFilter::Trace,
            c.target_filter is NoFilter,
    {
        Self { level: LevelFilter::Trace, target_filter: TargetFilter::default() }
    }
}

/// `list` has an entry that is a prefix of `target`.
fn any_prefix(list: &Vec<String>, target: &str) -> (r: bool)
    ensures
        r == matches_any(list@, target@),
{
    let mut i: usize = 0;
    while i < list.len()
        invariant
            i <= list.len(),
            forall|j: int| 0 <= j < i ==> !has_prefix(target@, #[trigger] list@[j]@),
        decreases list.len() - i,
    {
        if starts_with(target, list[i].as_str()) {
            return true;
        }
        i = i + 1;
    }
    false
}

impl TuiLoggerConfig {
    /// The same settings with `level` as the most verbose level kept.
    pub fn set_level(self, level: LevelFilter) -> (c: Self)
        ensures
            c.level == level,
            c.target_filter == self.target_filter,
    {
        let mut c = self;
        c.level = level;
        c
    }

    /// The same settings with `filter` as the target filter.
    pub fn set_filter(self, filter: TargetFilter) -> (c: Self)
        ensures
            c.level == self.level,
            c.target_filter == filter,
    {
        let mut c = self;
        c.target_filter = filter;
        c
    }

    /// Whether a record of `level` from `target` is kept.
    pub fn enabled(&self, level: Level, target: &str) -> (r: bool)
        ensures
            r == permits(*self, level, target@),
    {
        if self.level.allows(level) {
            match &self.target_filter {
                TargetFilter::Blacklist(list) => !any_prefix(list, target),
                TargetFilter::Whitelist(list) => any_prefix(list, target),
                TargetFilter::NoFilter => true,
            }
        } else {
            false
        }
    }
}

/// A record as the log store keeps it.
pub struct LogMessage {
    /// The local wall-clock time of the record, as `HH:MM:SS`.
    pub timestamp: String,
    pub level: Level,
    pub target: String,
    pub file: String,
    pub line: u32,
    pub message: String,
}

/// The logger: its settings, and the most recent records it kept.
pub struct TuiLogger {
    pub conf: TuiLoggerConfig,
    messages: CircularBuffer<LogMessage>,
}

impl TuiLogger {
    /// The logger is consistent.
    pub closed spec fn wf(&self) -> bool {
        self.messages.wf() && self.messages.spec_capacity() == LOG_CAPACITY
    }

    /// The logger's settings.
    pub closed spec fn config(&self) -> TuiLoggerConfig {
        self.conf
    }

    /// The records kept, oldest first.
    pub closed spec fn messages(&self) -> Seq<LogMessage> {
        self.messages.contents()
    }

    /// A logger that keeps every record and has kept none yet.
    pub fn new() -> (l: Self)
        ensures
            l.wf(),
            l.config().level == LevelFilter::Trace,
            l.config().target_filter is NoFilter,
            l.messages() == Seq::<LogMessage>::empty(),
    {
        TuiLogger { conf: TuiLoggerConfig::default(), messages: CircularBuffer::new(LOG_CAPACITY) }
    }

    /// Takes `config` as the logger's settings; the records kept stay.
    pub fn configure(&mut self, config: TuiLoggerConfig)
        requires
            old(self).wf(),
        ensures
            final(self).wf(),
            final(self).config() == config,
            final(self).messages() == old(self).messages(),
    {
        self.conf = config;
    }

    /// Whether a record of `level` from `target` is kept.
    pub fn enabled(&self, level: Level, target: &str) -> (r: bool)
        ensures
            r == permits(self.config(), level, target@),
    {
        self.conf.enabled(level, target)
    }

    /// Keeps `message` as the newest record when the settings let it through; once
    /// the store is full the oldest record is dropped.
    pub fn log(&mut self, message: LogMessage)
        requires
            old(self).wf(),
        ensures
            final(self).wf(),
            final(self).config() == old(self).config(),
            final(self).messages() == if permits(old(self).config(), message.level, message.target@) {
                push_spec(old(self).messages(), LOG_CAPACITY as nat, message)
            } else {
                old(self).messages()
            },
    {
        if self.conf.enabled(message.level, message.target.as_str()) {
            self.messages.push(message);
        }
    }

    /// The number of records kept.
    pub fn len(&self) -> (n: usize)
        requires
            self.wf(),
        ensures
            n == self.messages().len(),
            n <= LOG_CAPACITY,
    {
        self.messages.len()
    }

    /// The `i`-th newest record: `0` is the record kept last.
    pub fn newest(&self, i: usize) -> (m: &LogMessage)
        requires
            self.wf(),
            i < self.messages().len(),
        ensures
            *m == self.messages()[self.messages().len() - 1 - i],
    {
        self.messages.get_newest(i)
    }
}

/// The colours the console writes in.
#[derive(Debug, Clone, Copy, PartialEq, Eq, Structural)]
pub enum LogColor {
    White,
    Cyan,
    Blue,
    Yellow,
    Red,
    Gray,
}

/// One piece of console text with its style.
pub struct LogText {
    pub content: String,
    pub color: LogColor,
    pub bold: bool,
}

/// The colour a level is written in.
pub open spec fn level_color(level: Level) -> LogColor {
    match level {
        Level::Trace => LogColor::White,
        Level::Debug => LogColor::Cyan,
        Level::Info => LogColor::Blue,
        Level::Warn => LogColor::Yellow,
        Level::Error => LogColor::Red,
    }
}

/// `t` is the `k`-th piece of text shown for message `m`: its time in gray, then its
/// level in bold, in the level's colour.
pub open spec fn is_message_text(t: LogText, m: LogMessage, k: int) -> bool {
    if k == 0 {
        t.content@ == m.timestamp@ && t.color == LogColor::Gray && !t.bold
    } else {
        t.content@ == level_name(m.level) && t.color == level_color(m.level) && t.bold
    }
}

/// `texts` is what the console shows, at most `height` pieces: the newest message's
/// time and level first, then the next newest's, and so on.
pub open spec fn is_console_text(texts: Seq<LogText>, messages: Seq<LogMessage>, height: int) -> bool {
    &&& texts.len() == if height < 2 * messages.len() {
        height
    } else {
        2 * messages.len() as int
    }
    &&& forall|j: int|
        0 <= j < texts.len() ==> is_message_text(
            #[trigger] texts[j],
            messages[messages.len() - 1 - j / 2],
            j % 2,
        )
}

fn level_text(level: Level) -> (t: LogText)
    ensures
        t.content@ == level_name(level),
        t.color == level_color(level),
        t.bold,
{
    let color = match level {
        Level::Trace => LogColor::White,
        Level::Debug => LogColor::Cyan,
        Level::Info => LogColor::Blue,
        Level::Warn => LogColor::Yellow,
        Level::Error => LogColor::Red,
    };
    LogText { content: String::from_str(level.as_str()), color, bold: true }
}

/// The text the console shows of the kept records, newest first: for each record its
/// time and its level, cut off after `height` pieces.
pub fn logger_text(logger: &TuiLogger, height: u16) -> (texts: Vec<LogText>)
    requires
        logger.wf(),
    ensures
        is_console_text(texts@, logger.messages(), height as int),
        texts@.len() == if (height as int) < 2 * logger.messages().len() {
            height as int
        } else {
            2 * logger.messages().len() as int
        },
{
    let n = logger.len();
    let ghost msgs = logger.messages();
    let mut out: Vec<LogText> = Vec::new();
    let mut i: usize = 0;
    while i < n && out.len() < height as usize
        invariant
            n == msgs.len(),
            msgs == logger.messages(),
            logger.wf(),
            i <= n,
            out.len() == if (height as int) < 2 * i {
                height as int
            } else {
                2 * i
            },
            forall|j: int|
                0 <= j < out.len() ==> is_message_text(
                    #[trigger] out@[j],
                    msgs[msgs.len() - 1 - j / 2],
                    j % 2,
                ),
        decreases n - i,
    {
        let m = logger.newest(i);
        let ghost before = out@;
        out.push(LogText { content: m.timestamp.clone(), color: LogColor::Gray, bold: false });
        if out.len() < height as usize {
            out.push(level_text(m.level));
        }
        proof {
            assert forall|j: int| 0 <= j < out.len() implies is_message_text(
                #[trigger] out@[j],
                msgs[msgs.len() - 1 - j / 2],
                j % 2,
            ) by {
                if j < before.len() {
                    assert(out@[j] == before[j]);
                } else {
                    assert(j / 2 == i as int);
                }
            }
        }
        i = i + 1;
    }
    out
}

/// A record that the settings let through becomes the store's newest record, and the
/// store grows by one until it is full.
pub proof fn lemma_log_keeps_newest(before: Seq<LogMessage>, conf: TuiLoggerConfig, message: LogMessage)
    requires
        permits(conf, message.level, message.target@),
    ensures
        push_spec(before, LOG_CAPACITY as nat, message).last() == message,
        push_spec(before, LOG_CAPACITY as nat, message).len() == if before.len() < LOG_CAPACITY {
            before.len() + 1
        } else {
            before.len()
        },
{
}

/// Each filter lets through exactly the levels up to the one of its own name: the six
/// filters grow strictly more verbose from `Off` to `Trace`, and each named filter
/// admits its own level and no more verbose one.
pub proof fn lemma_filter_thresholds(filter: LevelFilter, level: Level)
    ensures
        filter_rank(LevelFilter::Off) < filter_rank(LevelFilter::Error) < filter_rank(LevelFilter::Warn)
            < filter_rank(LevelFilter::Info) < filter_rank(LevelFilter::Debug) < filter_rank(
            LevelFilter::Trace,
        ),
        level_rank(Level::Error) < level_rank(Level::Warn) < level_rank(Level::Info) < level_rank(
            Level::Debug,
        ) < level_rank(Level::Trace),
        filter_rank(LevelFilter::Off) < level_rank(level),
        filter_rank(LevelFilter::Error) == level_rank(Level::Error),
        filter_rank(LevelFilter::Warn) == level_rank(Level::Warn),
        filter_rank(LevelFilter::Info) == level_rank(Level::Info),
        filter_rank(LevelFilter::Debug) == level_rank(Level::Debug),
        filter_rank(LevelFilter::Trace) == level_rank(Level::Trace),
{
}

/// The console shows two pieces for every kept record, newest first, as far as the
/// height allows: all of them when it has room, exactly `height` pieces otherwise.
pub proof fn lemma_console_text_length(texts: Seq<LogText>, messages: Seq<LogMessage>, height: int)
    requires
        is_console_text(texts, messages, height),
        height >= 0,
    ensures
        height >= 2 * messages.len() ==> texts.len() == 2 * messages.len(),
        height < 2 * messages.len() ==> texts.len() == height,
        forall|k: int|
            0 <= k < messages.len() && 2 * k + 1 < height ==> {
                &&& #[trigger] texts[2 * k].content@ == messages[messages.len() - 1 - k].timestamp@
                &&& texts[2 * k + 1].content@ == level_name(messages[messages.len() - 1 - k].level)
            },
{
    assert forall|k: int|
        0 <= k < messages.len() && 2 * k + 1 < height implies {
            &&& #[trigger] texts[2 * k].content@ == messages[messages.len() - 1 - k].timestamp@
            &&& texts[2 * k + 1].content@ == level_name(messages[messages.len() - 1 - k].level)
        } by {
        assert((2 * k) / 2 == k && (2 * k) % 2 == 0);
        assert((2 * k + 1) / 2 == k && (2 * k + 1) % 2 == 1);
        assert(is_message_text(texts[2 * k], messages[messages.len() - 1 - (2 * k) / 2], (2 * k) % 2));
        assert(is_message_text(texts[2 * k + 1], messages[messages.len() - 1 - (2 * k + 1) / 2], (2 * k + 1) % 2));
    }
}

/// A whitelist and a blacklist of the same prefixes split every target between them.
pub proof fn lemma_lists_complement(list: Vec<String>, target: Seq<char>)
    ensures
        target_passes(TargetFilter::Whitelist(list), target) != target_passes(
            TargetFilter::Blacklist(list),
            target,
        ),
{
}

/// An empty whitelist keeps nothing; an empty blacklist keeps everything.
pub proof fn lemma_empty_lists(list: Vec<String>, target: Seq<char>)
    requires
        list@.len() == 0,
    ensures
        !target_passes(TargetFilter::Whitelist(list), target),
        target_passes(TargetFilter::Blacklist(list), target),
{
}

/// A record kept at some level would also be kept at any more severe level.
pub proof fn lemma_more_severe_kept(conf: TuiLoggerConfig, level: Level, severer: Level, target: Seq<char>)
    requires
        permits(conf, level, target),
        level_rank(severer) <= level_rank(level),
    ensures
        permits(conf, severer, target),
{
}

/// A filter that is `Off` keeps nothing; a `Trace` filter with no target filter keeps
/// everything.
pub proof fn lemma_filter_extremes(conf: TuiLoggerConfig, level: Level, target: Seq<char>)
    ensures
        conf.level == LevelFilter::Off ==> !permits(conf, level, target),
        (conf.level == LevelFilter::Trace && conf.target_filter is NoFilter) ==> permits(
            conf,
            level,
            target,
        ),
{
}

} // verus!
