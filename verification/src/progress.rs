//! The engine's progress stream: lines of `key=value`, read one by one
//! until a line of the key `progress` closes a report.

use crate::fixed::{nearest, nearest_quotient};
use crate::parse::{parse_u64, trim_range, trimmed, u64_of};
use crate::text::{chars_of, texts};
use vstd::prelude::*;
use vstd::string::*;

verus! {

/// The highest percentage, in millionths, that a running export shows.
pub const ALMOST_DONE: i64 = 99_900_000;

/// The percentage of a finished export, in millionths.
pub const DONE: i64 = 100_000_000;

/// What one line of the progress stream says.
#[derive(Debug, Clone, PartialEq, Eq)]
pub enum ProgressLine {
    /// The elapsed output time in microseconds, where the value is a number.
    Elapsed(Option<u64>),
    /// The speed label.
    Speed(String),
    /// The count of frames, where the value is a number.
    Frame(Option<u64>),
    /// The engine goes on.
    Continue,
    /// The engine is done.
    End,
    /// A line of no recognized key.
    Other,
}

/// What one line of the progress stream says, over plain text.
pub enum LineView {
    Elapsed(Option<u64>),
    Speed(Seq<char>),
    Frame(Option<u64>),
    Continue,
    End,
    Other,
}

impl View for ProgressLine {
    type V = LineView;

    open spec fn view(&self) -> LineView {
        match *self {
            ProgressLine::Elapsed(t) => LineView::Elapsed(t),
            ProgressLine::Speed(s) => LineView::Speed(s@),
            ProgressLine::Frame(f) => LineView::Frame(f),
            ProgressLine::Continue => LineView::Continue,
            ProgressLine::End => LineView::End,
            ProgressLine::Other => LineView::Other,
        }
    }
}

/// The text that follows the key, without the white space around it.
pub open spec fn value_after(line: Seq<char>, key: Seq<char>) -> Seq<char> {
    trimmed(line.skip(key.len() as int))
}

/// What a line says. The keys are tried in this order, and the first that
/// the line begins with decides.
pub open spec fn read_line(line: Seq<char>) -> LineView {
    if "out_time_us="@.is_prefix_of(line) {
        LineView::Elapsed(u64_of(value_after(line, "out_time_us="@)))
    } else if "speed="@.is_prefix_of(line) {
        LineView::Speed(value_after(line, "speed="@))
    } else if "frame="@.is_prefix_of(line) {
        LineView::Frame(u64_of(value_after(line, "frame="@)))
    } else if "progress=end"@.is_prefix_of(line) {
        LineView::End
    } else if "progress=continue"@.is_prefix_of(line) {
        LineView::Continue
    } else {
        LineView::Other
    }
}

/// Where the text after `key` starts in `chars`, if `chars` begins with
/// `key`.
fn after_key(chars: &Vec<char>, key: &str) -> (r: Option<usize>)
    ensures
        r is Some == key@.is_prefix_of(chars@),
        r matches Some(n) ==> n == key@.len() && n <= chars.len(),
{
    let k = chars_of(key);
    if k.len() > chars.len() {
        return None;
    }
    let mut i: usize = 0;
    while i < k.len()
        invariant
            k@ == key@,
            k.len() <= chars.len(),
            i <= k.len(),
            forall|j: int| 0 <= j < i ==> k@[j] == chars@[j],
        decreases k.len() - i,
    {
        if k[i] != chars[i] {
            assert(k@[i as int] != chars@.subrange(0, k@.len() as int)[i as int]);
            return None;
        }
        i += 1;
    }
    assert(k@ =~= chars@.subrange(0, k@.len() as int));
    Some(k.len())
}

/// Reads one line of the progress stream.
pub fn classify_line(line: &str) -> (r: ProgressLine)
    ensures
        r@ == read_line(line@),
{
    let chars = chars_of(line);
    let n: usize = chars.len();
    if let Some(start) = after_key(&chars, "out_time_us=") {
        let (a, b) = trim_range(&chars, start, n);
        assert(chars@.subrange(start as int, n as int) =~= line@.skip(start as int));
        return ProgressLine::Elapsed(parse_u64(&chars, a, b));
    }
    if let Some(start) = after_key(&chars, "speed=") {
        let (a, b) = trim_range(&chars, start, n);
        assert(chars@.subrange(start as int, n as int) =~= line@.skip(start as int));
        let label = String::from_str(line.substring_char(a, b));
        return ProgressLine::Speed(label);
    }
    if let Some(start) = after_key(&chars, "frame=") {
        let (a, b) = trim_range(&chars, start, n);
        assert(chars@.subrange(start as int, n as int) =~= line@.skip(start as int));
        return ProgressLine::Frame(parse_u64(&chars, a, b));
    }
    if after_key(&chars, "progress=end").is_some() {
        return ProgressLine::End;
    }
    if after_key(&chars, "progress=continue").is_some() {
        return ProgressLine::Continue;
    }
    ProgressLine::Other
}

/// How a report was closed.
#[derive(Debug, Clone, Copy, PartialEq, Eq, Structural)]
pub enum Sentinel {
    Continue,
    End,
}

/// What the lines read so far have told: the latest elapsed time, speed and
/// frame count, and the sentinel once a line of the key `progress` has come.
/// After the sentinel no further line is taken in.
#[derive(Debug, Clone)]
pub struct StreamScan {
    pub elapsed: Option<u64>,
    pub speed: Option<String>,
    pub frame: Option<u64>,
    pub sentinel: Option<Sentinel>,
}

/// A scan over plain text.
pub struct ScanView {
    pub elapsed: Option<u64>,
    pub speed: Option<Seq<char>>,
    pub frame: Option<u64>,
    pub sentinel: Option<Sentinel>,
}

impl View for StreamScan {
    type V = ScanView;

    open spec fn view(&self) -> ScanView {
        ScanView {
            elapsed: self.elapsed,
            speed: match self.speed {
                Some(s) => Some(s@),
                None => None,
            },
            frame: self.frame,
            sentinel: self.sentinel,
        }
    }
}

/// The scan before any line.
pub open spec fn empty_scan() -> ScanView {
    ScanView { elapsed: None, speed: None, frame: None, sentinel: None }
}

/// The scan after one more line. A value that is no number leaves the
/// earlier one in place.
pub open spec fn scan_step(s: ScanView, line: LineView) -> ScanView {
    if s.sentinel is Some {
        s
    } else {
        match line {
            LineView::Elapsed(Some(t)) => ScanView {
                elapsed: Some(t),
                speed: s.speed,
                frame: s.frame,
                sentinel: None,
            },
            LineView::Speed(label) => ScanView {
                elapsed: s.elapsed,
                speed: Some(label),
                frame: s.frame,
                sentinel: None,
            },
            LineView::Frame(Some(f)) => ScanView {
                elapsed: s.elapsed,
                speed: s.speed,
                frame: Some(f),
                sentinel: None,
            },
            LineView::Continue => ScanView {
                elapsed: s.elapsed,
                speed: s.speed,
                frame: s.frame,
                sentinel: Some(Sentinel::Continue),
            },
            LineView::End => ScanView {
                elapsed: s.elapsed,
                speed: s.speed,
                frame: s.frame,
                sentinel: Some(Sentinel::End),
            },
            _ => s,
        }
    }
}

/// The scan after the given lines, taken in order from the empty scan.
pub open spec fn scan_of(lines: Seq<Seq<char>>) -> ScanView
    decreases lines.len(),
{
    if lines.len() == 0 {
        empty_scan()
    } else {
        scan_step(scan_of(lines.drop_last()), read_line(lines.last()))
    }
}

/// How many of the lines a scan takes in: all up to and with the first line
/// of the key `progress`, or all of them where there is none.
pub open spec fn lines_taken(lines: Seq<Seq<char>>) -> nat
    decreases lines.len(),
{
    if lines.len() == 0 {
        0
    } else if scan_of(lines.drop_last()).sentinel is Some {
        lines_taken(lines.drop_last())
    } else {
        lines.len()
    }
}

/// The progress of a running export, in millionths of a percent: the share
/// of the total duration that has elapsed, never above 99.9.
pub open spec fn percent_of(elapsed: int, total: int) -> int {
    let share = nearest(elapsed * 100_000_000, total);
    if share > 99_900_000 {
        99_900_000
    } else {
        share
    }
}

/// What a scan changes in the snapshot of a running export.
pub struct StreamUpdate {
    pub percent: Option<i64>,
    pub speed: Option<String>,
    pub frame: Option<u64>,
    pub finished: bool,
}

/// An update over plain text.
pub struct UpdateView {
    pub percent: Option<i64>,
    pub speed: Option<Seq<char>>,
    pub frame: Option<u64>,
    pub finished: bool,
}

impl View for StreamUpdate {
    type V = UpdateView;

    open spec fn view(&self) -> UpdateView {
        UpdateView {
            percent: self.percent,
            speed: match self.speed {
                Some(s) => Some(s@),
                None => None,
            },
            frame: self.frame,
            finished: self.finished,
        }
    }
}

/// What a scan changes. After `end` the export is done at 100 percent.
/// After `continue` the percentage follows the elapsed time where that is
/// known and the total duration is above zero, and the speed and the frame
/// count are taken where they were seen. Without a sentinel nothing changes.
pub open spec fn update_of(s: ScanView, total: i64) -> UpdateView {
    match s.sentinel {
        Some(Sentinel::End) => UpdateView {
            percent: Some(100_000_000i64),
            speed: None,
            frame: None,
            finished: true,
        },
        Some(Sentinel::Continue) => UpdateView {
            percent: match s.elapsed {
                Some(t) => if total > 0 {
                    Some(percent_of(t as int, total as int) as i64)
                } else {
                    None
                },
                None => None,
            },
            speed: s.speed,
            frame: s.frame,
            finished: false,
        },
        None => UpdateView { percent: None, speed: None, frame: None, finished: false },
    }
}

/// The share lies from zero to 99.9 percent.
pub proof fn percent_in_range(elapsed: int, total: int)
    requires
        elapsed >= 0,
        total > 0,
    ensures
        0 <= percent_of(elapsed, total) <= 99_900_000,
{
    assert(elapsed * 100_000_000 >= 0) by (nonlinear_arith)
        requires
            elapsed >= 0,
    ;
}

/// The percentage of every update lies from zero to one hundred.
pub proof fn update_percent_in_range(s: ScanView, total: i64)
    ensures
        update_of(s, total).percent matches Some(p) ==> 0 <= p <= 100_000_000,
{
    if s.sentinel == Some(Sentinel::Continue) && s.elapsed is Some && total > 0 {
        percent_in_range(s.elapsed->0 as int, total as int);
    }
}

/// The share of `total` that `elapsed` is, as a percentage in millionths
/// and never above 99.9.
pub fn percent(elapsed: u64, total: i64) -> (r: i64)
    requires
        total > 0,
    ensures
        r == percent_of(elapsed as int, total as int),
        0 <= r <= 99_900_000,
{
    let share: i128 = nearest_quotient(elapsed as i128 * 100_000_000, total as i128);
    if share > ALMOST_DONE as i128 {
        ALMOST_DONE
    } else {
        share as i64
    }
}

impl StreamScan {
    /// A scan that has read no line.
    pub fn new() -> (r: StreamScan)
        ensures
            r@ == empty_scan(),
    {
        StreamScan { elapsed: None, speed: None, frame: None, sentinel: None }
    }

    /// Takes in one more line. Returns whether the report is closed, after
    /// which the caller stops reading for this poll.
    pub fn feed(&mut self, line: &str) -> (closed: bool)
        ensures
            final(self)@ == scan_step(old(self)@, read_line(line@)),
            closed == final(self).sentinel is Some,
    {
        if self.sentinel.is_some() {
            return true;
        }
        match classify_line(line) {
            ProgressLine::Elapsed(Some(t)) => {
                self.elapsed = Some(t);
            },
            ProgressLine::Speed(label) => {
                self.speed = Some(label);
            },
            ProgressLine::Frame(Some(f)) => {
                self.frame = Some(f);
            },
            ProgressLine::Continue => {
                self.sentinel = Some(Sentinel::Continue);
            },
            ProgressLine::End => {
                self.sentinel = Some(Sentinel::End);
            },
            _ => {},
        }
        self.sentinel.is_some()
    }

    /// What the scan changes in the snapshot of an export of the given
    /// total duration. Its percentage lies from zero to one hundred.
    pub fn update(self, total: i64) -> (r: StreamUpdate)
        ensures
            r@ == update_of(self@, total),
            r.percent matches Some(p) ==> 0 <= p <= 100_000_000,
    {
        match self.sentinel {
            Some(Sentinel::End) => StreamUpdate {
                percent: Some(DONE),
                speed: None,
                frame: None,
                finished: true,
            },
            Some(Sentinel::Continue) => {
                let p: Option<i64> = match self.elapsed {
                    Some(t) => if total > 0 {
                        Some(percent(t, total))
                    } else {
                        None
                    },
                    None => None,
                };
                StreamUpdate { percent: p, speed: self.speed, frame: self.frame, finished: false }
            },
            None => StreamUpdate { percent: None, speed: None, frame: None, finished: false },
        }
    }
}

/// Reads the lines in order until a report is closed. Returns the scan and
/// how many lines it took in; the lines after those are left for the next
/// poll.
pub fn scan_lines(lines: &Vec<String>) -> (r: (StreamScan, usize))
    ensures
        r.1 == lines_taken(texts(lines@)),
        r.1 <= lines.len(),
        r.0@ == scan_of(texts(lines@).take(r.1 as int)),
        r.0@ == scan_of(texts(lines@)),
{
    let mut scan = StreamScan::new();
    let mut i: usize = 0;
    let ghost all = texts(lines@);
    assert(all.take(0) =~= Seq::<Seq<char>>::empty());
    while i < lines.len()
        invariant
            i <= lines.len(),
            all == texts(lines@),
            scan@ == scan_of(all.take(i as int)),
            scan.sentinel is None,
            lines_taken(all.take(i as int)) == i,
        decreases lines.len() - i,
    {
        proof {
            assert(all.take(i + 1).drop_last() =~= all.take(i as int));
            assert(all.take(i + 1).last() == lines@[i as int]@);
        }
        let closed = scan.feed(lines[i].as_str());
        i += 1;
        if closed {
            proof {
                scan_stays_closed(all, i as int);
            }
            return (scan, i);
        }
    }
    assert(all.take(i as int) =~= all);
    (scan, i)
}

/// Once a report is closed at `k` lines, further lines change neither the
/// scan nor the count of lines taken.
pub proof fn scan_stays_closed(lines: Seq<Seq<char>>, k: int)
    requires
        0 <= k <= lines.len(),
        scan_of(lines.take(k)).sentinel is Some,
    ensures
        scan_of(lines) == scan_of(lines.take(k)),
        lines_taken(lines) == lines_taken(lines.take(k)),
    decreases lines.len(),
{
    if k < lines.len() {
        assert(lines.drop_last().take(k) =~= lines.take(k));
        scan_stays_closed(lines.drop_last(), k);
    } else {
        assert(lines.take(k) =~= lines);
    }
}

} // verus!
