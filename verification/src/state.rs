//! Printer and job states, and the reasons given for them.

use vstd::prelude::*;
use crate::error::{decode_failure, outcome, Error, ErrorView};
use crate::lists::viewed;
use crate::text::{characters, decimal_int, ends_with, int_text, matches_at, same_text};

verus! {

/// What a printer is doing, from IPP `printer-state`.
#[derive(Debug, Clone, Copy, PartialEq, Eq, Structural)]
pub enum PrinterState {
    /// Accepting work and not currently printing.
    Idle,
    /// Working through a job.
    Processing,
    /// Not printing, and will not start until something changes. The reason is
    /// in [`Printer::reasons`] - out of paper, a jam, or deliberately paused.
    Stopped,
}

impl View for PrinterState {
    type V = PrinterState;

    open spec fn view(&self) -> PrinterState {
        *self
    }
}

/// The state `printer-state` stands for.
pub open spec fn printer_state_of(value: i32) -> Result<PrinterState, ErrorView> {
    if value == 3 {
        Ok(PrinterState::Idle)
    } else if value == 4 {
        Ok(PrinterState::Processing)
    } else if value == 5 {
        Ok(PrinterState::Stopped)
    } else {
        Err(decode_failure("printer-state"@, "unknown value "@ + decimal_int(value as int)))
    }
}

impl PrinterState {
    /// Reads the IPP enum value. Unknown values are an error rather than a
    /// guess, since treating an unrecognised state as idle would be a lie.
    pub fn from_ipp(value: i32) -> (r: Result<PrinterState, Error>)
        ensures
            outcome(r) == printer_state_of(value),
    {
        match value {
            3 => Ok(PrinterState::Idle),
            4 => Ok(PrinterState::Processing),
            5 => Ok(PrinterState::Stopped),
            other => Err(Error::decode("printer-state", &unknown_value(other))),
        }
    }
}

/// How an enum value outside the registered set is reported.
fn unknown_value(value: i32) -> (r: String)
    ensures
        r@ == "unknown value "@ + decimal_int(value as int),
{
    let mut out = "unknown value ".to_string();
    out.append(&int_text(value));
    out
}

/// Where a job has got to, from IPP `job-state`.
#[derive(Debug, Clone, Copy, PartialEq, Eq, Structural)]
pub enum JobState {
    /// Queued, waiting its turn.
    Pending,
    /// Held back until released, by whoever or whatever held it.
    PendingHeld,
    /// Being printed now.
    Processing,
    /// Started, then interrupted - the printer stopped under it.
    ProcessingStopped,
    /// Cancelled by someone.
    Canceled,
    /// Given up on by the printer, rather than cancelled.
    Aborted,
    /// Finished.
    Completed,
}

impl View for JobState {
    type V = JobState;

    open spec fn view(&self) -> JobState {
        *self
    }
}

/// The state `job-state` stands for.
pub open spec fn job_state_of(value: i32) -> Result<JobState, ErrorView> {
    if value == 3 {
        Ok(JobState::Pending)
    } else if value == 4 {
        Ok(JobState::PendingHeld)
    } else if value == 5 {
        Ok(JobState::Processing)
    } else if value == 6 {
        Ok(JobState::ProcessingStopped)
    } else if value == 7 {
        Ok(JobState::Canceled)
    } else if value == 8 {
        Ok(JobState::Aborted)
    } else if value == 9 {
        Ok(JobState::Completed)
    } else {
        Err(decode_failure("job-state"@, "unknown value "@ + decimal_int(value as int)))
    }
}

impl JobState {
    /// The job has ended, one way or another.
    pub open spec fn is_terminal(self) -> bool {
        self is Canceled || self is Aborted || self is Completed
    }

    /// Reads the IPP enum value, rejecting anything unrecognised.
    pub fn from_ipp(value: i32) -> (r: Result<JobState, Error>)
        ensures
            outcome(r) == job_state_of(value),
    {
        match value {
            3 => Ok(JobState::Pending),
            4 => Ok(JobState::PendingHeld),
            5 => Ok(JobState::Processing),
            6 => Ok(JobState::ProcessingStopped),
            7 => Ok(JobState::Canceled),
            8 => Ok(JobState::Aborted),
            9 => Ok(JobState::Completed),
            other => Err(Error::decode("job-state", &unknown_value(other))),
        }
    }

    /// True while the job is still in the queue.
    pub fn is_active(&self) -> (r: bool)
        ensures
            r == !self.is_terminal(),
    {
        matches!(
            self,
            JobState::Pending | JobState::PendingHeld | JobState::Processing
                | JobState::ProcessingStopped
        )
    }
}

/// How much a state reason matters. Ordered, so the worst of a set is its
/// maximum.
#[derive(Debug, Clone, Copy, PartialEq, Eq, PartialOrd, Ord, Structural)]
pub enum Severity {
    /// Worth knowing, but nothing is wrong.
    Report,
    /// Printing continues, but something needs attention soon - ink low.
    Warning,
    /// Printing has stopped or will fail - out of paper, a jam, a door open.
    Error,
}

impl Severity {
    /// How bad it is, as a number.
    pub open spec fn gravity(self) -> int {
        match self {
            Severity::Report => 0,
            Severity::Warning => 1,
            Severity::Error => 2,
        }
    }

    /// The suffix a keyword of this severity carries.
    pub open spec fn suffix(self) -> Seq<char> {
        match self {
            Severity::Report => "-report"@,
            Severity::Warning => "-warning"@,
            Severity::Error => "-error"@,
        }
    }

    pub(crate) fn rank(self) -> (r: u8)
        ensures
            r == self.gravity(),
    {
        match self {
            Severity::Report => 0,
            Severity::Warning => 1,
            Severity::Error => 2,
        }
    }
}

/// One reason a printer or job is in the state it is in.
///
/// IPP carries these as keywords with an optional severity suffix, as in
/// `media-empty-error`. The suffix is split off into [`StateReason::severity`]
/// so the keyword can be matched on without worrying about which of the three
/// forms a given printer used.
#[derive(Debug, PartialEq, Eq)]
pub struct StateReason {
    /// The reason itself, with any severity suffix removed - `media-empty`,
    /// `toner-low`, `cover-open`.
    pub keyword: String,
    /// How serious it is. Reasons with no suffix are reported as
    /// [`Severity::Report`].
    pub severity: Severity,
}

/// A [`StateReason`], with its keyword as characters.
pub struct StateReasonView {
    pub keyword: Seq<char>,
    pub severity: Severity,
}

impl View for StateReason {
    type V = StateReasonView;

    open spec fn view(&self) -> StateReasonView {
        StateReasonView { keyword: self.keyword@, severity: self.severity }
    }
}

impl Clone for StateReason {
    fn clone(&self) -> (r: StateReason)
        ensures
            r@ == self@,
    {
        StateReason { keyword: self.keyword.clone(), severity: self.severity }
    }
}

/// `raw` without the last `n` characters.
pub open spec fn without_end(raw: Seq<char>, n: nat) -> Seq<char> {
    raw.take(raw.len() - n)
}

/// The reason a raw keyword stands for: its suffix, if it has one, says how
/// serious it is.
pub open spec fn reason_of(raw: Seq<char>) -> StateReasonView {
    if ends_with(raw, "-error"@) {
        StateReasonView { keyword: without_end(raw, "-error"@.len()), severity: Severity::Error }
    } else if ends_with(raw, "-warning"@) {
        StateReasonView {
            keyword: without_end(raw, "-warning"@.len()),
            severity: Severity::Warning,
        }
    } else if ends_with(raw, "-report"@) {
        StateReasonView { keyword: without_end(raw, "-report"@.len()), severity: Severity::Report }
    } else {
        StateReasonView { keyword: raw, severity: Severity::Report }
    }
}

/// The reasons a list of raw keywords stands for, leaving out `none`.
pub open spec fn reasons_of(raw: Seq<Seq<char>>) -> Seq<StateReasonView>
    decreases raw.len(),
{
    if raw.len() == 0 {
        Seq::empty()
    } else if raw.last() == "none"@ {
        reasons_of(raw.drop_last())
    } else {
        reasons_of(raw.drop_last()).push(reason_of(raw.last()))
    }
}

/// `raw` without `suffix`, where it ends with it.
fn strip_suffix(raw: &str, suffix: &str) -> (r: Option<String>)
    ensures
        r is Some <==> ends_with(raw@, suffix@),
        r matches Some(rest) ==> rest@ == without_end(raw@, suffix@.len()),
{
    let text = characters(raw);
    let end = characters(suffix);
    if end.len() <= text.len() && matches_at(&text, &end, text.len() - end.len()) {
        Some(raw.substring_char(0, text.len() - end.len()).to_string())
    } else {
        None
    }
}

impl StateReason {
    /// Splits one raw `*-state-reasons` keyword into reason and severity.
    pub fn parse(raw: &str) -> (r: StateReason)
        ensures
            r@ == reason_of(raw@),
    {
        if let Some(keyword) = strip_suffix(raw, "-error") {
            return StateReason { keyword, severity: Severity::Error };
        }
        if let Some(keyword) = strip_suffix(raw, "-warning") {
            return StateReason { keyword, severity: Severity::Warning };
        }
        if let Some(keyword) = strip_suffix(raw, "-report") {
            return StateReason { keyword, severity: Severity::Report };
        }
        StateReason { keyword: raw.to_string(), severity: Severity::Report }
    }

    /// Parses a `*-state-reasons` list. The `none` keyword means "no reasons".
    pub fn parse_list(raw: &[String]) -> (r: Vec<StateReason>)
        ensures
            viewed(r@) == reasons_of(viewed(raw@)),
    {
        let mut out: Vec<StateReason> = Vec::new();
        let ghost all = viewed(raw@);
        let mut i: usize = 0;
        assert(all.take(0) =~= Seq::empty());
        assert(viewed(out@) =~= Seq::empty());
        while i < raw.len()
            invariant
                i <= raw.len(),
                all == viewed(raw@),
                viewed(out@) == reasons_of(all.take(i as int)),
            decreases raw.len() - i,
        {
            proof {
                assert(all.take(i + 1).drop_last() =~= all.take(i as int));
                assert(all.take(i + 1).last() == raw@[i as int]@);
            }
            let ghost before = out@;
            if !same_text(raw[i].as_str(), "none") {
                let reason = StateReason::parse(raw[i].as_str());
                out.push(reason);
                assert(viewed(out@) =~= viewed(before).push(reason@));
            }
            i += 1;
        }
        assert(all.take(i as int) =~= all);
        out
    }

    /// Whether two reasons are the same.
    pub fn same(&self, other: &StateReason) -> (r: bool)
        ensures
            r == (self@ == other@),
    {
        self.severity == other.severity && self.keyword == other.keyword
    }
}

/// Whether two lists hold the same reasons.
pub(crate) fn same_reasons(a: &Vec<StateReason>, b: &Vec<StateReason>) -> (r: bool)
    ensures
        r == (viewed(a@) == viewed(b@)),
{
    if a.len() != b.len() {
        assert(viewed(a@).len() != viewed(b@).len());
        return false;
    }
    let mut i: usize = 0;
    while i < a.len()
        invariant
            i <= a.len(),
            a.len() == b.len(),
            forall|j: int| 0 <= j < i ==> a@[j]@ == b@[j]@,
        decreases a.len() - i,
    {
        if !a[i].same(&b[i]) {
            assert(viewed(a@)[i as int] != viewed(b@)[i as int]);
            return false;
        }
        i += 1;
    }
    assert(viewed(a@) =~= viewed(b@));
    true
}

/// A keyword with a severity suffix is split into the two, whatever it is.
pub proof fn a_suffixed_keyword_is_split(keyword: Seq<char>, severity: Severity)
    ensures
        reason_of(keyword + severity.suffix()) == (StateReasonView { keyword, severity }),
{
    reveal_strlit("-error");
    reveal_strlit("-warning");
    reveal_strlit("-report");
    let raw = keyword + severity.suffix();
    let n = severity.suffix().len();
    assert(raw.subrange(raw.len() - n, raw.len() as int) =~= severity.suffix());
    assert(ends_with(raw, severity.suffix()));
    assert(without_end(raw, n) =~= keyword);
    let last = raw.last();
    assert(last == severity.suffix().last());
    assert forall|suffix: Seq<char>| #[trigger]
        ends_with(raw, suffix) && suffix.len() > 0 implies suffix.last() == last by {
        assert(raw.subrange(raw.len() - suffix.len(), raw.len() as int).last() == last);
    }
}

/// A keyword with no severity suffix is kept as it is, as a report.
pub proof fn a_plain_keyword_is_a_report(raw: Seq<char>)
    requires
        !ends_with(raw, "-error"@),
        !ends_with(raw, "-warning"@),
        !ends_with(raw, "-report"@),
    ensures
        reason_of(raw) == (StateReasonView { keyword: raw, severity: Severity::Report }),
{
}

/// The keyword `none` is no reason, wherever in a list it stands.
pub proof fn none_is_no_reason(before: Seq<Seq<char>>, after: Seq<Seq<char>>)
    ensures
        reasons_of(before + seq!["none"@] + after) == reasons_of(before + after),
    decreases after.len(),
{
    let with = before + seq!["none"@] + after;
    if after.len() == 0 {
        assert(with.last() == "none"@);
        assert(with.drop_last() =~= before);
        assert(before + after =~= before);
    } else {
        none_is_no_reason(before, after.drop_last());
        assert(with.drop_last() =~= before + seq!["none"@] + after.drop_last());
        assert((before + after).drop_last() =~= before + after.drop_last());
        assert(with.last() == after.last());
        assert((before + after).last() == after.last());
    }
}

/// Only registered state values are read, and no two as the same state.
pub proof fn states_are_read_one_for_one(a: i32, b: i32)
    ensures
        printer_state_of(a) is Ok <==> 3 <= a <= 5,
        job_state_of(a) is Ok <==> 3 <= a <= 9,
        printer_state_of(a) is Ok && printer_state_of(a) == printer_state_of(b) ==> a == b,
        job_state_of(a) is Ok && job_state_of(a) == job_state_of(b) ==> a == b,
{
}

} // verus!
