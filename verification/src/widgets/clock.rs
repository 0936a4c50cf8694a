//! A clock: the time of day, written anew at the start of every minute.

use vstd::prelude::*;
use chrono::{Local, Timelike};
use crate::text::{Attributes, AttributesView, Text, TextView, text_views};

verus! {

/// Shows the time and the date, written as its format says, in the
/// specifiers of `chrono::format::strftime`.
#[derive(Debug)]
pub struct Clock {
    format: String,
    attr: Attributes,
}

/// What a [`Clock`] holds.
pub struct ClockView {
    pub format: Seq<char>,
    pub attr: AttributesView,
}

impl View for Clock {
    type V = ClockView;

    closed spec fn view(&self) -> ClockView {
        ClockView { format: self.format@, attr: self.attr@ }
    }
}

/// A clock's sequence of batches: the clock, and how long to wait for the
/// batch that comes next.
#[derive(Debug)]
pub struct ClockStream {
    clock: Clock,
    sleep_for: u64,
}

/// What a [`ClockStream`] holds.
pub struct ClockStreamView {
    pub clock: ClockView,
    /// The seconds to wait before the next batch is asked for.
    pub sleep_for: nat,
}

impl View for ClockStream {
    type V = ClockStreamView;

    closed spec fn view(&self) -> ClockStreamView {
        ClockStreamView { clock: self.clock@, sleep_for: self.sleep_for as nat }
    }
}

impl ClockStreamView {
    /// The batch that shows `formatted`: one text in the clock's attributes,
    /// which does not stretch.
    pub open spec fn batch(self, formatted: Seq<char>) -> Seq<TextView> {
        seq![TextView { attr: self.clock.attr, text: formatted, stretch: false }]
    }

    /// The stream after a batch made at `second` of its minute: the next one
    /// is due when the minute is over.
    pub open spec fn after(self, second: u32) -> ClockStreamView {
        ClockStreamView { sleep_for: (60 - second % 60) as nat, ..self }
    }
}

/// Whether chrono writes a date and time as `format` says: whether
/// `chrono::format::DelayedFormat::write_to` succeeds on what
/// `chrono::DateTime::format` makes of `format`. It fails on what is no
/// specifier of `chrono::format::strftime`, and on nothing else: a
/// `DateTime` lacks nothing that a specifier asks for, and writing to a
/// `String` does not fail. So it depends on `format` and not on the time.
pub uninterp spec fn writes_time(format: Seq<char>) -> bool;

/// The time it is in the machine's time zone, by `chrono::Local::now`:
/// written as `format` says, by `chrono::DateTime::format` and
/// `chrono::format::DelayedFormat::write_to`, and the second of its minute,
/// by `chrono::Timelike::second`. The time is written where chrono writes
/// times as `format` says, and only there. The second is never 60 or more:
/// a leap second counts as the 59th.
#[verifier::external_body]
fn local_time(format: &str) -> (time: (Option<String>, u32))
    ensures
        time.0.is_some() == writes_time(format@),
        time.1 < 60,
{
    let now = Local::now();
    let mut text = String::new();
    match now.format(format).write_to(&mut text) {
        Ok(()) => (Some(text), now.second()),
        Err(_) => (None, now.second()),
    }
}

impl Clock {
    /// A clock that writes the time as `format` says and shows it with
    /// `attr`.
    pub fn new(format: String, attr: Attributes) -> (clock: Clock)
        ensures
            clock@ == (ClockView { format: format@, attr: attr@ }),
    {
        Clock { format, attr }
    }

    /// How the clock writes the time.
    pub fn format(&self) -> (format: &str)
        ensures
            format@ == self@.format,
    {
        self.format.as_str()
    }

    /// How the clock's text is drawn.
    pub fn attr(&self) -> (attr: &Attributes)
        ensures
            attr@ == self@.attr,
    {
        &self.attr
    }

    /// The clock's sequence of batches. The first is due at once.
    pub fn stream(self) -> (stream: ClockStream)
        ensures
            stream@ == (ClockStreamView { clock: self@, sleep_for: 0 }),
    {
        ClockStream { clock: self, sleep_for: 0 }
    }
}

impl ClockStream {
    /// The clock whose batches these are.
    pub fn clock(&self) -> (clock: &Clock)
        ensures
            clock@ == self@.clock,
    {
        &self.clock
    }

    /// The seconds to wait before the next batch is asked for.
    pub fn sleep_for(&self) -> (seconds: u64)
        ensures
            seconds == self@.sleep_for,
    {
        self.sleep_for
    }

    /// The batch for a time that was written as `formatted` and stands at
    /// `second` of its minute. Without a written time the sequence ends in
    /// an error, and the stream stays as it is.
    pub fn emit(&mut self, formatted: Option<String>, second: u32) -> (batch: Option<Vec<Text>>)
        ensures
            match formatted {
                Some(written) => {
                    &&& batch matches Some(texts)
                    &&& text_views(texts@) == old(self)@.batch(written@)
                    &&& final(self)@ == old(self)@.after(second)
                },
                None => batch.is_none() && final(self)@ == old(self)@,
            },
    {
        match formatted {
            Some(written) => {
                let mut texts: Vec<Text> = Vec::new();
                texts.push(Text { attr: self.clock.attr.clone(), text: written, stretch: false });
                self.sleep_for = 60 - (second % 60) as u64;
                assert(text_views(texts@) =~= old(self)@.batch(written@));
                Some(texts)
            },
            None => None,
        }
    }

    /// The batch for the time it is, written as the clock's format says:
    /// one text in the clock's attributes, which does not stretch. The next
    /// batch is then due when the minute is over. Where chrono does not
    /// write times as the format says, the sequence ends in an error and
    /// the stream stays as it is.
    pub fn next(&mut self) -> (batch: Option<Vec<Text>>)
        ensures
            batch.is_some() == writes_time(old(self)@.clock.format),
            final(self)@.clock == old(self)@.clock,
            match batch {
                Some(texts) => {
                    &&& 1 <= final(self)@.sleep_for <= 60
                    &&& texts.len() == 1
                    &&& text_views(texts@) == old(self)@.batch(texts[0].text@)
                },
                None => final(self)@ == old(self)@,
            },
    {
        let (formatted, second) = local_time(self.clock.format.as_str());
        let batch = self.emit(formatted, second);
        proof {
            if let Some(texts) = &batch {
                assert(text_views(texts@).len() == 1);
                assert(text_views(texts@)[0] == texts@[0]@);
            }
        }
        batch
    }
}

} // verus!
