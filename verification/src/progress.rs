//! Progress: the percentage that a line of tool output reports, and the
//! events that tell the presentation layer how a job is doing.

use crate::text::{
    all_digits, chars_of, decimal_value, find_char, first_index_of, is_digit, is_digit_char,
    parse_digits, trim_end, trim_end_str,
};
use vstd::prelude::*;
use vstd::string::StringExecFns;

verus! {

/// Where the run of digits that ends just before `end` starts.
pub open spec fn digit_run_start(s: Seq<char>, end: int) -> int
    decreases end,
{
    if end > 0 && is_digit(s[end - 1]) {
        digit_run_start(s, end - 1)
    } else {
        end
    }
}

/// The digits that stand directly before the first `%` of a line.
pub open spec fn percent_digits(line: Seq<char>) -> Seq<char> {
    let percent = first_index_of(line, '%');
    line.subrange(digit_run_start(line, percent), percent)
}

/// The percentage that a line reports: the number written directly before
/// its first `%`, where the line has a `%`, digits stand before it, and
/// their value is at most 255.
pub open spec fn progress_of(line: Seq<char>) -> Option<u8> {
    let digits = percent_digits(line);
    if line.contains('%') && digits.len() > 0 && decimal_value(digits) <= 255 {
        Some(decimal_value(digits) as u8)
    } else {
        None
    }
}

proof fn lemma_digit_run(s: Seq<char>, end: int)
    requires
        0 <= end <= s.len(),
    ensures
        0 <= digit_run_start(s, end) <= end,
        all_digits(s.subrange(digit_run_start(s, end), end)),
    decreases end,
{
    if end > 0 && is_digit(s[end - 1]) {
        lemma_digit_run(s, end - 1);
        let start = digit_run_start(s, end);
        assert forall|j: int| 0 <= j < end - start implies is_digit(
            #[trigger] s.subrange(start, end)[j],
        ) by {
            if j < end - 1 - start {
                assert(s.subrange(start, end - 1)[j] == s[start + j]);
            }
        }
    }
}

/// The percentage that a line of tool output reports, if any.
pub fn parse_progress(line: &str) -> (r: Option<u8>)
    ensures
        r == progress_of(line@),
{
    let chars = chars_of(line);
    let percent = find_char(&chars, '%');
    if percent == chars.len() {
        return None;
    }
    assert(chars@.contains('%'));
    let mut start: usize = percent;
    while start > 0 && is_digit_char(chars[start - 1])
        invariant
            start <= percent < chars.len(),
            digit_run_start(chars@, percent as int) == digit_run_start(chars@, start as int),
        decreases start,
    {
        start -= 1;
    }
    proof {
        lemma_digit_run(chars@, percent as int);
    }
    match parse_digits(&chars, start, percent, 255) {
        Some(v) => Some(v as u8),
        None => None,
    }
}

/// How far a job has come.
#[derive(Clone, Copy, Debug, PartialEq, Eq, Structural)]
pub enum JobStatus {
    Queued,
    Processing,
    Completed,
    Error,
}

/// What the presentation layer is told about a job.
#[derive(Clone, Debug, PartialEq, Eq)]
pub struct MuxProgressEvent {
    pub job_id: String,
    pub status: JobStatus,
    /// Per cent, 0 to 100.
    pub progress: u8,
    pub message: Option<String>,
    /// The size of the finished file in bytes.
    pub size_after: Option<u64>,
    pub error_message: Option<String>,
}

/// What an event is, with its texts as sequences of characters.
pub struct ProgressEventView {
    pub job_id: Seq<char>,
    pub status: JobStatus,
    pub progress: u8,
    pub message: Option<Seq<char>>,
    pub size_after: Option<u64>,
    pub error_message: Option<Seq<char>>,
}

impl DeepView for MuxProgressEvent {
    type V = ProgressEventView;

    open spec fn deep_view(&self) -> ProgressEventView {
        ProgressEventView {
            job_id: self.job_id@,
            status: self.status,
            progress: self.progress,
            message: self.message.deep_view(),
            size_after: self.size_after,
            error_message: self.error_message.deep_view(),
        }
    }
}

impl View for MuxProgressEvent {
    type V = ProgressEventView;

    open spec fn view(&self) -> ProgressEventView {
        self.deep_view()
    }
}

impl ProgressEventView {
    /// An event is well formed when its percentage is at most 100.
    pub open spec fn wf(self) -> bool {
        self.progress <= 100
    }
}

/// The event for a percentage found in the tool's output: the job is in
/// progress, at that percentage, cut down to 100.
pub open spec fn percent_event(job_id: Seq<char>, percent: u8) -> ProgressEventView {
    ProgressEventView {
        job_id,
        status: JobStatus::Processing,
        progress: if percent > 100 {
            100
        } else {
            percent
        },
        message: None,
        size_after: None,
        error_message: None,
    }
}

/// The event that a line of tool output gives rise to, if any.
pub open spec fn line_event(job_id: Seq<char>, line: Seq<char>) -> Option<ProgressEventView> {
    match progress_of(line) {
        Some(p) => Some(percent_event(job_id, p)),
        None => None,
    }
}

/// The event that a line of tool output gives rise to: one where the line
/// reports a percentage, none else.
pub fn progress_event_for_line(job_id: &str, line: &str) -> (r: Option<MuxProgressEvent>)
    ensures
        r.deep_view() == line_event(job_id@, line@),
        r matches Some(e) ==> e@.wf(),
{
    match parse_progress(line) {
        Some(p) => Some(
            MuxProgressEvent {
                job_id: String::from_str(job_id),
                status: JobStatus::Processing,
                progress: if p > 100 {
                    100
                } else {
                    p
                },
                message: None,
                size_after: None,
                error_message: None,
            },
        ),
        None => None,
    }
}

/// What a line of a tool's output gives rise to.
#[derive(Clone, Debug, PartialEq, Eq)]
pub struct OutputLine {
    /// The line as it is logged and shown: without its trailing whitespace.
    pub text: String,
    /// The progress event, where the line reports a percentage.
    pub event: Option<MuxProgressEvent>,
}

/// What a handled line is: its text and its event.
pub struct OutputLineView {
    pub text: Seq<char>,
    pub event: Option<ProgressEventView>,
}

impl DeepView for OutputLine {
    type V = OutputLineView;

    open spec fn deep_view(&self) -> OutputLineView {
        OutputLineView { text: self.text@, event: self.event.deep_view() }
    }
}

impl View for OutputLine {
    type V = OutputLineView;

    open spec fn view(&self) -> OutputLineView {
        self.deep_view()
    }
}

/// What is done with a line that a tool wrote: it is logged and shown
/// without its trailing whitespace, and where that text reports a
/// percentage, the percentage is passed on.
pub fn handle_output_line(job_id: &str, line: &str) -> (out: OutputLine)
    ensures
        out@.text == trim_end(line@),
        out@.event == line_event(job_id@, trim_end(line@)),
        out.event matches Some(e) ==> e@.wf(),
{
    let text = trim_end_str(line);
    let event = progress_event_for_line(job_id, text.as_str());
    OutputLine { text, event }
}

} // verus!
