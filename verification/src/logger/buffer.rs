//! The buffer of the log sink.
//!
//! Records arrive one by one and are written in batches. The buffer decides
//! when a batch is due; the caller waits for records, writes the batches and
//! reports what happened.

use crate::logger::model::LogEntry;
use vstd::prelude::*;
use vstd::string::*;

verus! {

/// A batch is due when this many milliseconds have passed since the last
/// one.
pub const FLUSH_INTERVAL_MS: u64 = 5000;

/// The caller waits at most this many milliseconds for a record before it
/// reports that none came.
pub const POLL_INTERVAL_MS: u64 = 1000;

/// The records that wait to be written, and the time of the last batch.
#[derive(Debug)]
pub struct LogBuffer {
    /// The file that the batches go to.
    pub file_path: String,
    /// Whether records are written as JSON objects rather than as lines of
    /// text.
    pub is_json: bool,
    /// The records that wait, oldest first.
    pub pending: Vec<LogEntry>,
    /// The time of the last batch, in milliseconds on the caller's clock.
    pub last_flush: u64,
}

/// What the caller reports to the buffer.
#[derive(Debug)]
pub enum SinkEvent {
    /// A record came.
    Received(LogEntry),
    /// No record came within the polling interval.
    TimedOut,
    /// Every producer is gone: no record will come any more.
    Closed,
}

/// What the caller is to do next.
#[derive(Debug)]
pub enum SinkAction {
    /// Wait for the next record.
    Wait,
    /// Write these records in this order, flush the file, and wait on.
    Flush(Vec<LogEntry>),
    /// Write these records in this order, flush the file, and end.
    Finish(Vec<LogEntry>),
}

/// The buffer as far as the decisions go.
pub struct SinkModel {
    pub pending: Seq<LogEntry>,
    pub last_flush: u64,
}

/// What one event leads to: the buffer afterwards, the records to write,
/// and whether the sink ends.
pub struct Outcome {
    pub next: SinkModel,
    pub written: Seq<LogEntry>,
    pub stop: bool,
}

/// Whether a batch is due at `now`: the interval has passed since the last
/// batch and a record waits.
pub open spec fn due(state: SinkModel, now: u64) -> bool {
    now >= state.last_flush && now - state.last_flush >= FLUSH_INTERVAL_MS && state.pending.len()
        > 0
}

/// What follows a wait that ended at `now`: where a batch is due, all
/// waiting records are written and the time of the last batch is `now`.
pub open spec fn after_wait(state: SinkModel, now: u64) -> Outcome {
    if due(state, now) {
        Outcome {
            next: SinkModel { pending: Seq::empty(), last_flush: now },
            written: state.pending,
            stop: false,
        }
    } else {
        Outcome { next: state, written: Seq::empty(), stop: false }
    }
}

/// What `event`, reported at `now`, leads to. A record joins the waiting
/// ones before it is asked whether a batch is due. When the producers are
/// gone, what waits is written and the sink ends.
pub open spec fn step(state: SinkModel, event: SinkEvent, now: u64) -> Outcome {
    match event {
        SinkEvent::Received(entry) => after_wait(
            SinkModel { pending: state.pending.push(entry), last_flush: state.last_flush },
            now,
        ),
        SinkEvent::TimedOut => after_wait(state, now),
        SinkEvent::Closed => Outcome {
            next: SinkModel { pending: Seq::empty(), last_flush: state.last_flush },
            written: state.pending,
            stop: true,
        },
    }
}

/// The records among `events`, in the order in which they came.
pub open spec fn received(events: Seq<(SinkEvent, u64)>) -> Seq<LogEntry>
    decreases events.len(),
{
    if events.len() == 0 {
        Seq::empty()
    } else {
        match events.last().0 {
            SinkEvent::Received(entry) => received(events.drop_last()).push(entry),
            _ => received(events.drop_last()),
        }
    }
}

/// A sink after a run of events: its buffer, all that it has handed over to
/// be written, in order, and whether the last event has ended it.
pub struct Trace {
    pub state: SinkModel,
    pub written: Seq<LogEntry>,
    pub stopped: bool,
}

/// The sink that starts as `start` after `events`, each with the time at
/// which it was reported.
pub open spec fn run(start: SinkModel, events: Seq<(SinkEvent, u64)>) -> Trace
    decreases events.len(),
{
    if events.len() == 0 {
        Trace { state: start, written: Seq::empty(), stopped: false }
    } else {
        let before = run(start, events.drop_last());
        let outcome = step(before.state, events.last().0, events.last().1);
        Trace {
            state: outcome.next,
            written: before.written + outcome.written,
            stopped: outcome.stop,
        }
    }
}

/// No record is lost, none is written twice, and the order is kept: after
/// any run of events, at any times, what has been written followed by what
/// still waits is what waited at the start followed by what has come since.
pub proof fn law_nothing_lost_or_doubled(start: SinkModel, events: Seq<(SinkEvent, u64)>)
    ensures
        run(start, events).written + run(start, events).state.pending == start.pending
            + received(events),
    decreases events.len(),
{
    if events.len() == 0 {
        assert(run(start, events).written + run(start, events).state.pending =~= start.pending
            + received(events));
    } else {
        let front = events.drop_last();
        law_nothing_lost_or_doubled(start, front);
        let before = run(start, front);
        let outcome = step(before.state, events.last().0, events.last().1);
        assert(outcome.written + outcome.next.pending =~= before.state.pending + match events.last().0 {
            SinkEvent::Received(entry) => seq![entry],
            _ => Seq::empty(),
        });
        assert(received(events) =~= received(front) + match events.last().0 {
            SinkEvent::Received(entry) => seq![entry],
            _ => Seq::empty(),
        });
        assert(run(start, events).written + run(start, events).state.pending =~= (before.written
            + before.state.pending) + match events.last().0 {
            SinkEvent::Received(entry) => seq![entry],
            _ => Seq::empty(),
        });
    }
}

/// When the producers are gone, everything has been written: after a run of
/// events that ends with the closing of the channel, nothing waits, the sink
/// has ended, and what has been written is what waited at the start followed
/// by every record that came, each once and in the order of arrival.
pub proof fn law_closing_drains(start: SinkModel, events: Seq<(SinkEvent, u64)>)
    requires
        events.len() > 0,
        events.last().0 is Closed,
    ensures
        run(start, events).stopped,
        run(start, events).state.pending == Seq::<LogEntry>::empty(),
        run(start, events).written == start.pending + received(events),
{
    law_nothing_lost_or_doubled(start, events);
    assert(run(start, events).written + Seq::<LogEntry>::empty() =~= run(start, events).written);
}

impl SinkAction {
    /// The records that the action hands over.
    pub open spec fn written(self) -> Seq<LogEntry> {
        match self {
            SinkAction::Wait => Seq::empty(),
            SinkAction::Flush(batch) => batch@,
            SinkAction::Finish(batch) => batch@,
        }
    }

    /// Whether the action ends the sink.
    pub open spec fn stops(self) -> bool {
        self is Finish
    }
}

impl View for LogBuffer {
    type V = SinkModel;

    open spec fn view(&self) -> SinkModel {
        SinkModel { pending: self.pending@, last_flush: self.last_flush }
    }
}

/// A buffer for the file at `file_path` in which nothing waits. The time of
/// the last batch is `now`.
pub fn init_buffer(file_path: String, is_json: bool, now: u64) -> (buffer: LogBuffer)
    ensures
        buffer.file_path == file_path,
        buffer.is_json == is_json,
        buffer@ == (SinkModel { pending: Seq::empty(), last_flush: now }),
{
    LogBuffer { file_path, is_json, pending: Vec::new(), last_flush: now }
}

impl LogBuffer {
    fn drain(&mut self) -> (batch: Vec<LogEntry>)
        ensures
            batch@ == old(self).pending@,
            final(self).pending@ == Seq::<LogEntry>::empty(),
            final(self).last_flush == old(self).last_flush,
            final(self).file_path == old(self).file_path,
            final(self).is_json == old(self).is_json,
    {
        let mut batch: Vec<LogEntry> = Vec::new();
        core::mem::swap(&mut self.pending, &mut batch);
        batch
    }

    /// Takes note of `event`, reported at `now`, and says what to do next.
    /// A waiting action hands over no record; a batch holds all that waited,
    /// oldest first.
    pub fn on_event(&mut self, event: SinkEvent, now: u64) -> (action: SinkAction)
        ensures
            final(self)@ == step(old(self)@, event, now).next,
            action.written() == step(old(self)@, event, now).written,
            action.stops() == step(old(self)@, event, now).stop,
            action is Wait <==> !step(old(self)@, event, now).stop && step(
                old(self)@,
                event,
                now,
            ).written.len() == 0,
            final(self).file_path == old(self).file_path,
            final(self).is_json == old(self).is_json,
    {
        match event {
            SinkEvent::Closed => {
                let batch = self.drain();
                return SinkAction::Finish(batch);
            },
            SinkEvent::Received(entry) => {
                self.pending.push(entry);
            },
            SinkEvent::TimedOut => {},
        }
        if now >= self.last_flush && now - self.last_flush >= FLUSH_INTERVAL_MS
            && self.pending.len() > 0 {
            let batch = self.drain();
            self.last_flush = now;
            SinkAction::Flush(batch)
        } else {
            SinkAction::Wait
        }
    }

    /// The line that is written for `entry`, line feed included: a JSON
    /// object or a line of text, as the buffer is set up.
    pub open spec fn line_text(self, entry: LogEntry) -> Seq<char> {
        if self.is_json {
            entry.json_text() + "\n"@
        } else {
            entry.format_text() + "\n"@
        }
    }

    /// Writes the line for `entry`.
    pub fn render(&self, entry: &LogEntry) -> (line: String)
        ensures
            line@ == self.line_text(*entry),
    {
        let mut line = if self.is_json {
            entry.to_json()
        } else {
            entry.format()
        };
        line.append("\n");
        line
    }
}

} // verus!
