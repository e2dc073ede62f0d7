//! Leveled log records: the level filter and the layout of one record line.
//! Where a line goes (console or file) is decided by the caller.
use vstd::prelude::*;
use vstd::string::StrSliceExecFns;
use vstd::string::StringExecFns;

verus! {

/// Severity of a log record, from least to most severe.
#[derive(Debug, Clone, Copy, PartialEq, Eq, Structural, PartialOrd, Ord, Hash)]
pub enum Level {
    Debug,
    Info,
    Warn,
    Error,
}

impl Level {
    /// Position of the level in the severity order.
    pub open spec fn rank_spec(self) -> nat {
        match self {
            Level::Debug => 0,
            Level::Info => 1,
            Level::Warn => 2,
            Level::Error => 3,
        }
    }

    /// Bracketed tag that marks the level in a record line.
    pub open spec fn tag_spec(self) -> Seq<char> {
        match self {
            Level::Debug => seq!['[', 'D', 'E', 'B', 'U', 'G', ']'],
            Level::Info => seq!['[', 'I', 'N', 'F', 'O', ']'],
            Level::Warn => seq!['[', 'W', 'A', 'R', 'N', ']'],
            Level::Error => seq!['[', 'E', 'R', 'R', 'O', 'R', ']'],
        }
    }

    pub fn rank(self) -> (r: u8)
        ensures
            r as nat == self.rank_spec(),
    {
        match self {
            Level::Debug => 0,
            Level::Info => 1,
            Level::Warn => 2,
            Level::Error => 3,
        }
    }

    /// Whether this level is at least as severe as `other`.
    pub fn at_least(self, other: Level) -> (r: bool)
        ensures
            r == (self.rank_spec() >= other.rank_spec()),
    {
        self.rank() >= other.rank()
    }

    pub fn tag(self) -> (r: &'static str)
        ensures
            r@ == self.tag_spec(),
    {
        match self {
            Level::Debug => {
                proof { reveal_strlit("[DEBUG]"); }
                "[DEBUG]"
            },
            Level::Info => {
                proof { reveal_strlit("[INFO]"); }
                "[INFO]"
            },
            Level::Warn => {
                proof { reveal_strlit("[WARN]"); }
                "[WARN]"
            },
            Level::Error => {
                proof { reveal_strlit("[ERROR]"); }
                "[ERROR]"
            },
        }
    }
}

/// `n` blanks.
pub open spec fn blanks(n: nat) -> Seq<char> {
    Seq::new(n, |i: int| ' ')
}

/// `s` right-justified in a field of `width` characters (never cut).
pub open spec fn pad_left_spec(s: Seq<char>, width: nat) -> Seq<char> {
    if s.len() < width {
        blanks((width - s.len()) as nat) + s
    } else {
        s
    }
}

/// `s` left-justified in a field of `width` characters (never cut).
pub open spec fn pad_right_spec(s: Seq<char>, width: nat) -> Seq<char> {
    if s.len() < width {
        s + blanks((width - s.len()) as nat)
    } else {
        s
    }
}

/// Width of the level field of a record line.
pub const LEVEL_WIDTH: usize = 7;

/// Width of the owner field of a record line.
pub const OWNER_WIDTH: usize = 60;

/// Width of the thread-name part of an owner field.
pub const THREAD_WIDTH: usize = 20;

/// The owner field: the caller's tag, then ` @` and the thread's name
/// left-justified to its width.
pub open spec fn owner_field_spec(owner: Seq<char>, thread: Seq<char>) -> Seq<char> {
    owner + seq![' ', '@'] + pad_right_spec(thread, THREAD_WIDTH as nat)
}

/// One record line without its end: timestamp, level tag, right-justified
/// owner, and message.
pub open spec fn line_spec(
    timestamp: Seq<char>,
    level: Level,
    owner: Seq<char>,
    message: Seq<char>,
) -> Seq<char> {
    timestamp + seq![' '] + pad_right_spec(level.tag_spec(), LEVEL_WIDTH as nat) + seq![' ']
        + pad_left_spec(owner, OWNER_WIDTH as nat) + seq![' ', '|', ':', ' '] + message
}

/// Appends `n` blanks to `out`.
fn push_blanks(out: &mut String, n: usize)
    ensures
        final(out)@ == old(out)@ + blanks(n as nat),
{
    let mut i: usize = 0;
    while i < n
        invariant
            i <= n,
            out@ == old(out)@ + blanks(i as nat),
        decreases n - i,
    {
        proof { reveal_strlit(" "); }
        out.append(" ");
        assert(out@ =~= old(out)@ + blanks((i + 1) as nat));
        i = i + 1;
    }
}

/// `s` right-justified in a field of `width` characters.
pub fn pad_left(s: &str, width: usize) -> (r: String)
    ensures
        r@ == pad_left_spec(s@, width as nat),
{
    let n = s.unicode_len();
    let mut r = String::new();
    if n < width {
        push_blanks(&mut r, width - n);
    }
    r.append(s);
    assert(r@ =~= pad_left_spec(s@, width as nat));
    r
}

/// `s` left-justified in a field of `width` characters.
pub fn pad_right(s: &str, width: usize) -> (r: String)
    ensures
        r@ == pad_right_spec(s@, width as nat),
{
    let n = s.unicode_len();
    let mut r = String::from_str(s);
    if n < width {
        push_blanks(&mut r, width - n);
    }
    r
}

/// The owner field of a record made by `owner` on the thread named `thread`.
pub fn owner_field(owner: &str, thread: &str) -> (r: String)
    ensures
        r@ == owner_field_spec(owner@, thread@),
{
    proof { reveal_strlit(" @"); }
    let mut r = String::from_str(owner);
    r.append(" @");
    let t = pad_right(thread, THREAD_WIDTH);
    r.append(t.as_str());
    r
}

/// One record line (without a line end).
pub fn format_line(timestamp: &str, level: Level, owner: &str, message: &str) -> (r: String)
    ensures
        r@ == line_spec(timestamp@, level, owner@, message@),
{
    proof {
        reveal_strlit(" ");
        reveal_strlit(" |: ");
    }
    let mut r = String::from_str(timestamp);
    r.append(" ");
    let tag = pad_right(level.tag(), LEVEL_WIDTH);
    r.append(tag.as_str());
    r.append(" ");
    let o = pad_left(owner, OWNER_WIDTH);
    r.append(o.as_str());
    r.append(" |: ");
    r.append(message);
    assert(r@ =~= line_spec(timestamp@, level, owner@, message@));
    r
}

/// Relies on `chrono::Local::now` and `DateTime::format`: the local time
/// written as `%Y-%m-%d %H:%M:%S`. Nothing is promised of its value.
#[verifier::external_body]
fn local_timestamp() -> String {
    chrono::Local::now().format("%Y-%m-%d %H:%M:%S").to_string()
}

/// Logger settings: the least severe level that is written, and the file
/// that records are appended to (none: the console).
pub struct Logger {
    pub level: Level,
    pub file: Option<String>,
}

impl Logger {
    /// A logger that writes `Info` and above to the console.
    pub fn new() -> (r: Logger)
        ensures
            r.level == Level::Info,
            r.file is None,
    {
        Logger { level: Level::Info, file: None }
    }

    pub fn set_level(&mut self, level: Level)
        ensures
            final(self).level == level,
            final(self).file == old(self).file,
    {
        self.level = level;
    }

    pub fn set_file(&mut self, file: Option<String>)
        ensures
            final(self).level == old(self).level,
            final(self).file == file,
    {
        self.file = file;
    }

    /// Whether a record of `level` passes the filter.
    pub fn enabled(&self, level: Level) -> (r: bool)
        ensures
            r == (level.rank_spec() >= self.level.rank_spec()),
    {
        level.at_least(self.level)
    }

    /// The text to emit for a record: nothing when the level is filtered
    /// out; else the record line, ended by a line break when it goes to a
    /// file (console output adds its own).
    pub fn record(&self, timestamp: &str, level: Level, owner: &str, message: &str) -> (r: Option<
        String,
    >)
        ensures
            r is None <==> level.rank_spec() < self.level.rank_spec(),
            r is Some ==> r.unwrap()@ == (if self.file is Some {
                line_spec(timestamp@, level, owner@, message@) + seq!['\n']
            } else {
                line_spec(timestamp@, level, owner@, message@)
            }),
    {
        if !self.enabled(level) {
            return None;
        }
        let mut line = format_line(timestamp, level, owner, message);
        if self.file.is_some() {
            proof { reveal_strlit("\n"); }
            line.append("\n");
        }
        Some(line)
    }

    /// The text to emit for a record made now: as `record`, with the local
    /// time as its timestamp.
    pub fn record_now(&self, level: Level, owner: &str, message: &str) -> (r: Option<String>)
        ensures
            r is None <==> level.rank_spec() < self.level.rank_spec(),
            r is Some ==> exists|timestamp: Seq<char>|
                r.unwrap()@ == (if self.file is Some {
                    line_spec(timestamp, level, owner@, message@) + seq!['\n']
                } else {
                    line_spec(timestamp, level, owner@, message@)
                }),
    {
        if !self.enabled(level) {
            return None;
        }
        let timestamp = local_timestamp();
        self.record(timestamp.as_str(), level, owner, message)
    }
}

} // verus!
