use vstd::prelude::*;

verus! {

/// The severity of a log entry, most severe first.
#[derive(Clone, Copy, PartialEq, Eq, Structural, Debug)]
pub enum LogLevel {
    Error,
    Warn,
    Info,
    Debug,
    Trace,
}

/// The five-character tag shown before a log entry of `level`.
pub open spec fn level_label(level: LogLevel) -> Seq<char> {
    match level {
        LogLevel::Error => "ERROR"@,
        LogLevel::Warn => "WARN "@,
        LogLevel::Info => "INFO "@,
        LogLevel::Debug => "DEBUG"@,
        LogLevel::Trace => "TRACE"@,
    }
}

impl LogLevel {
    /// The five-character tag shown before a log entry of this level.
    pub fn label(&self) -> (s: &'static str)
        ensures
            s@ == level_label(*self),
    {
        match self {
            LogLevel::Error => "ERROR",
            LogLevel::Warn => "WARN ",
            LogLevel::Info => "INFO ",
            LogLevel::Debug => "DEBUG",
            LogLevel::Trace => "TRACE",
        }
    }
}

/// One recorded log event.
pub struct LogEntry {
    pub level: LogLevel,
    pub message: String,
}

/// A log entry as mathematical values.
pub struct LogEntryView {
    pub level: LogLevel,
    pub message: Seq<char>,
}

impl View for LogEntry {
    type V = LogEntryView;

    open spec fn view(&self) -> LogEntryView {
        LogEntryView { level: self.level, message: self.message@ }
    }
}

impl LogEntry {
    /// A copy of this entry.
    pub fn duplicate(&self) -> (e: LogEntry)
        ensures
            e@ == self@,
    {
        LogEntry { level: self.level, message: self.message.clone() }
    }
}

/// The views of a list of log entries.
pub open spec fn entry_views(entries: Seq<LogEntry>) -> Seq<LogEntryView> {
    entries.map_values(|e: LogEntry| e@)
}

/// The last `max` entries of `entries` (all of them where there are fewer),
/// most recent first.
pub open spec fn most_recent_first(entries: Seq<LogEntryView>, max: nat) -> Seq<LogEntryView> {
    let n = if max < entries.len() {
        max
    } else {
        entries.len()
    };
    Seq::new(n, |i: int| entries[entries.len() - 1 - i])
}

/// The log window shows the newest entry first: after an entry is added, a
/// window of `max > 0` entries holds that entry followed by the window of
/// `max - 1` entries before it.
pub proof fn lemma_newest_entry_shown_first(entries: Seq<LogEntryView>, e: LogEntryView, max: nat)
    requires
        max > 0,
    ensures
        most_recent_first(entries.push(e), max) == seq![e] + most_recent_first(
            entries,
            (max - 1) as nat,
        ),
{
    assert(most_recent_first(entries.push(e), max) =~= seq![e] + most_recent_first(
        entries,
        (max - 1) as nat,
    ));
}

/// The log window holds the newest `min(max, len)` entries: read back to
/// front, it is exactly the last `min(max, len)` entries in the order they
/// were recorded.
pub proof fn lemma_window_is_newest_suffix(entries: Seq<LogEntryView>, max: nat)
    ensures
        ({
            let w = most_recent_first(entries, max);
            let n = if max < entries.len() {
                max
            } else {
                entries.len()
            };
            &&& w.len() == n
            &&& w.reverse() == entries.subrange(entries.len() - n, entries.len() as int)
        }),
{
    let w = most_recent_first(entries, max);
    let n = w.len();
    assert(w.reverse() =~= entries.subrange(entries.len() - n, entries.len() as int));
}

/// The entries recorded so far, oldest first.
pub struct LogBuffer {
    entries: Vec<LogEntry>,
}

impl View for LogBuffer {
    type V = Seq<LogEntryView>;

    closed spec fn view(&self) -> Seq<LogEntryView> {
        entry_views(self.entries@)
    }
}

/// Reading the log gives back what was written: where `after` is `before`
/// after `add_entry(level, message)`, and `read` is what `get_entries` then
/// returns, `read` holds the entries of `before`, unchanged and in order,
/// followed by the new entry.
pub proof fn lemma_read_gives_back_added_entry(
    before: LogBuffer,
    after: LogBuffer,
    level: LogLevel,
    message: Seq<char>,
    read: Seq<LogEntry>,
)
    requires
        after@ == before@.push(LogEntryView { level, message }),
        entry_views(read) == after@,
    ensures
        read.len() == before@.len() + 1,
        read.last()@ == (LogEntryView { level, message }),
        entry_views(read.drop_last()) == before@,
{
    assert(entry_views(read).len() == read.len());
    assert(read.len() == before@.len() + 1);
    assert(entry_views(read)[read.len() - 1] == read.last()@);
    assert(entry_views(read.drop_last()) =~= before@) by {
        assert forall|i: int| 0 <= i < before@.len() implies #[trigger] entry_views(
            read.drop_last(),
        )[i] == before@[i] by {
            assert(read.drop_last()[i] == read[i]);
            assert(entry_views(read)[i] == after@[i]);
        }
    }
}

impl LogBuffer {
    /// An empty buffer.
    pub fn new() -> (b: LogBuffer)
        ensures
            b@ == Seq::<LogEntryView>::empty(),
    {
        LogBuffer { entries: Vec::new() }
    }

    /// The number of entries recorded.
    pub fn len(&self) -> (n: usize)
        ensures
            n == self@.len(),
    {
        self.entries.len()
    }

    /// Records an entry after all earlier ones.
    pub fn add_entry(&mut self, level: LogLevel, message: String)
        ensures
            final(self)@ == old(self)@.push(LogEntryView { level, message: message@ }),
    {
        let ghost m = message@;
        self.entries.push(LogEntry { level, message });
        assert(self@ =~= old(self)@.push(LogEntryView { level, message: m }));
    }

    /// All entries recorded so far, oldest first.
    pub fn get_entries(&self) -> (entries: Vec<LogEntry>)
        ensures
            entry_views(entries@) == self@,
    {
        let mut out: Vec<LogEntry> = Vec::new();
        let n: usize = self.entries.len();
        let mut i: usize = 0;
        while i < n
            invariant
                0 <= i <= n,
                n == self.entries@.len(),
                entry_views(out@) =~= entry_views(self.entries@).take(i as int),
            decreases n - i,
        {
            let e = self.entries[i].duplicate();
            let ghost before = out@;
            out.push(e);
            assert(entry_views(out@) =~= entry_views(before).push(e@));
            i = i + 1;
        }
        assert(entry_views(self.entries@).take(n as int) =~= entry_views(self.entries@));
        out
    }

    /// The last `max` entries (all of them where there are fewer), most recent first.
    pub fn recent_entries(&self, max: usize) -> (entries: Vec<LogEntry>)
        ensures
            entry_views(entries@) == most_recent_first(self@, max as nat),
    {
        let n: usize = self.entries.len();
        let count: usize = if max < n {
            max
        } else {
            n
        };
        let mut out: Vec<LogEntry> = Vec::new();
        let mut i: usize = 0;
        while i < count
            invariant
                0 <= i <= count,
                count <= n,
                count == most_recent_first(self@, max as nat).len(),
                n == self.entries@.len(),
                entry_views(out@) =~= most_recent_first(self@, max as nat).take(i as int),
            decreases count - i,
        {
            let e = self.entries[n - 1 - i].duplicate();
            let ghost before = out@;
            out.push(e);
            assert(entry_views(out@) =~= entry_views(before).push(e@));
            i = i + 1;
        }
        assert(most_recent_first(self@, max as nat).take(count as int) =~= most_recent_first(
            self@,
            max as nat,
        ));
        out
    }

    /// The entries that fit a bordered log window `window_height` rows high,
    /// most recent first: the border takes two rows.
    pub fn window_entries(&self, window_height: u16) -> (entries: Vec<LogEntry>)
        requires
            window_height >= 2,
        ensures
            entry_views(entries@) == most_recent_first(self@, (window_height - 2) as nat),
    {
        self.recent_entries((window_height - 2) as usize)
    }
}

} // verus!
