use std::collections::VecDeque;
use vstd::prelude::*;

verus! {

/// How many lines the log keeps.
pub const MAX_LOG_LINES: usize = 200;

/// A log of the most recent messages, oldest first.
#[derive(Debug)]
pub struct EventLog {
    lines: VecDeque<String>,
}

/// The lines after `message` is logged: appended, and the oldest line dropped
/// once there are more than `MAX_LOG_LINES`.
pub open spec fn logged(lines: Seq<Seq<char>>, message: Seq<char>) -> Seq<Seq<char>> {
    let appended = lines.push(message);
    if appended.len() > MAX_LOG_LINES {
        appended.drop_first()
    } else {
        appended
    }
}

impl View for EventLog {
    type V = Seq<Seq<char>>;

    closed spec fn view(&self) -> Seq<Seq<char>> {
        self.lines@.map_values(|line: String| line@)
    }
}

impl EventLog {
    /// The log never holds more than `MAX_LOG_LINES` lines.
    pub open spec fn wf(&self) -> bool {
        self@.len() <= MAX_LOG_LINES
    }

    /// An empty log.
    pub fn new() -> (log: Self)
        ensures
            log@ == Seq::<Seq<char>>::empty(),
            log.wf(),
    {
        let log = EventLog { lines: VecDeque::new() };
        assert(log@ =~= Seq::<Seq<char>>::empty());
        log
    }
}

/// Appends a message to the log, dropping the oldest line when it is full.
pub fn push(log: &mut EventLog, message: String)
    requires
        old(log).wf(),
    ensures
        final(log)@ == logged(old(log)@, message@),
        final(log).wf(),
{
    let ghost text = message@;
    log.lines.push_back(message);
    assert(log.lines@.map_values(|line: String| line@) =~= old(log)@.push(text));
    if log.lines.len() > MAX_LOG_LINES {
        let _ = log.lines.pop_front();
        assert(log@ =~= old(log)@.push(text).drop_first());
    }
}

/// A copy of the log's lines, oldest first.
pub fn snapshot(log: &EventLog) -> (lines: Vec<String>)
    ensures
        lines@.map_values(|line: String| line@) == log@,
{
    let mut lines: Vec<String> = Vec::new();
    let n = log.lines.len();
    for i in 0..n
        invariant
            n == log.lines@.len(),
            lines@.len() == i,
            forall|j: int| 0 <= j < i ==> #[trigger] lines@[j]@ == log.lines@[j]@,
    {
        lines.push(log.lines[i].clone());
    }
    assert(lines@.map_values(|line: String| line@) =~= log@);
    lines
}

/// The newest lines that fit a panel of `height` rows, two of which are its
/// border, oldest first.
pub fn visible_lines(log: &EventLog, height: u16) -> (lines: Vec<String>)
    ensures
        ({
            let rows = if height >= 2 {
                height - 2
            } else {
                0
            };
            let first = if log@.len() > rows {
                log@.len() - rows
            } else {
                0
            };
            lines@.map_values(|line: String| line@) == log@.subrange(first, log@.len() as int)
        }),
{
    let rows: usize = if height >= 2 {
        (height - 2) as usize
    } else {
        0
    };
    let n = log.lines.len();
    let first: usize = if n > rows {
        n - rows
    } else {
        0
    };
    let mut lines: Vec<String> = Vec::new();
    for i in first..n
        invariant
            first <= n,
            n == log.lines@.len(),
            lines@.len() == i - first,
            forall|j: int| 0 <= j < i - first ==> #[trigger] lines@[j]@ == log.lines@[first + j]@,
    {
        lines.push(log.lines[i].clone());
    }
    assert(lines@.map_values(|line: String| line@) =~= log@.subrange(first as int, n as int));
    lines
}

/// The log keeps at most `MAX_LOG_LINES` lines; a logged message is always its
/// newest line, and the lines before it keep their order.
pub proof fn law_log_keeps_recent_lines(lines: Seq<Seq<char>>, message: Seq<char>)
    requires
        lines.len() <= MAX_LOG_LINES,
    ensures
        logged(lines, message).len() <= MAX_LOG_LINES,
        logged(lines, message).last() == message,
        lines.len() < MAX_LOG_LINES ==> logged(lines, message) == lines.push(message),
        lines.len() == MAX_LOG_LINES ==> logged(lines, message) == lines.drop_first().push(message),
{
    if lines.len() == MAX_LOG_LINES {
        assert(lines.push(message).drop_first() =~= lines.drop_first().push(message));
    }
}

} // verus!
