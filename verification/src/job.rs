//! Print jobs, read from IPP attribute groups.

use vstd::prelude::*;
use std::time::SystemTime;
use ipp::attribute::IppAttributeGroup;
use crate::attrs::{int_at, required_int, text_at, texts_at, Attrs};
use crate::clock::{moment, moment_at, same_moment, time_at};
use crate::error::{outcome, Error, ErrorView};
use crate::lists::viewed;
use crate::printer::{or_empty, unwrap_or_empty};
use crate::state::{job_state_of, reasons_of, same_reasons, JobState, StateReason, StateReasonView};
use crate::supply::same_number;
use crate::text::{
    characters, last_index, last_position, lemma_last_position, same_optional, view_of,
};
use crate::wire::{group_attributes, Attribute};

verus! {

/// A job's identifier, unique per printer and assigned on submission.
pub type JobId = i32;

/// How far through a job the printer has got.
#[derive(Debug, Clone, Copy, PartialEq, Eq, Structural)]
pub enum JobProgress {
    /// CUPS did not report a page count. Render an indeterminate bar.
    Indeterminate,
    /// A known page count.
    Pages {
        /// Pages printed so far.
        done: i32,
        /// Pages in the job.
        total: i32,
    },
}

/// How much of a job is done: a count between nothing and all of it, and what
/// all of it is. Unknown where there is no page count, or none above zero.
pub open spec fn completion_of(progress: JobProgress) -> Option<(i32, i32)> {
    match progress {
        JobProgress::Pages { done, total } if total > 0 => Some(
            (
                if done < 0 {
                    0
                } else if done > total {
                    total
                } else {
                    done
                },
                total,
            ),
        ),
        _ => None,
    }
}

/// A job is never less than not begun nor more than finished.
pub proof fn completion_is_a_fraction(progress: JobProgress)
    ensures
        completion_of(progress) matches Some((done, total)) ==> 0 <= done <= total && 0 < total,
{
}

impl JobProgress {
    /// How much of the job is done, as pages out of a total, or `None` when
    /// indeterminate. The count is kept within the total.
    pub fn completion(&self) -> (r: Option<(i32, i32)>)
        ensures
            r == completion_of(*self),
    {
        match *self {
            JobProgress::Pages { done, total } if total > 0 => {
                if done < 0 {
                    Some((0, total))
                } else if done > total {
                    Some((total, total))
                } else {
                    Some((done, total))
                }
            },
            _ => None,
        }
    }
}

/// A print job.
#[derive(Debug, PartialEq, Eq)]
pub struct Job {
    /// The job's id on its printer.
    pub id: JobId,
    /// The printer or queue it was submitted to.
    pub printer: String,
    /// The document name, where one was given. CUPS discards this once a job
    /// finishes, so a completed job usually has none.
    pub name: Option<String>,
    /// Who submitted it. Discarded on completion, like the name.
    pub user: Option<String>,
    /// Where the job has got to.
    pub state: JobState,
    /// Why, where the printer says.
    pub reasons: Vec<StateReason>,
    /// Page progress, where the printer reports it.
    pub progress: JobProgress,
    /// When it was submitted.
    pub created: Option<SystemTime>,
    /// Pages actually printed, when CUPS reports it.
    ///
    /// Separate from `progress` because a finished job keeps
    /// `job-impressions-completed` but loses `job-impressions`, so the pair
    /// that `progress` needs is gone while the count itself survives.
    pub pages_printed: Option<i32>,
    /// When the job reached a terminal state.
    ///
    /// Only completed jobs carry it. Note CUPS discards `job-name` and
    /// `job-originating-user-name` once a job completes, so a finished job is
    /// identifiable by little more than its id and this time.
    pub completed: Option<SystemTime>,
}

/// A [`Job`], with its texts as characters and its times as nanoseconds since
/// the epoch.
pub struct JobView {
    pub id: JobId,
    pub printer: Seq<char>,
    pub name: Option<Seq<char>>,
    pub user: Option<Seq<char>>,
    pub state: JobState,
    pub reasons: Seq<StateReasonView>,
    pub progress: JobProgress,
    pub created: Option<int>,
    pub pages_printed: Option<i32>,
    pub completed: Option<int>,
}

impl View for Job {
    type V = JobView;

    open spec fn view(&self) -> JobView {
        JobView {
            id: self.id,
            printer: self.printer@,
            name: view_of(self.name),
            user: view_of(self.user),
            state: self.state,
            reasons: viewed(self.reasons@),
            progress: self.progress,
            created: moment(self.created),
            pages_printed: self.pages_printed,
            completed: moment(self.completed),
        }
    }
}

impl Clone for Job {
    fn clone(&self) -> (r: Job)
        ensures
            r@ == self@,
    {
        let reasons = self.reasons.clone();
        assert(viewed(reasons@) =~= viewed(self.reasons@));
        Job {
            id: self.id,
            printer: self.printer.clone(),
            name: self.name.clone(),
            user: self.user.clone(),
            state: self.state,
            reasons,
            progress: self.progress,
            created: self.created,
            pages_printed: self.pages_printed,
            completed: self.completed,
        }
    }
}

/// The queue a printer URI ends in: what follows its last slash, where
/// anything does.
pub open spec fn queue_of(uri: Seq<char>) -> Option<Seq<char>> {
    let name = uri.skip(last_position(uri, '/') + 1);
    if name.len() > 0 {
        Some(name)
    } else {
        None
    }
}

/// Extracts the CUPS queue name from a printer URI.
pub fn printer_name_from_uri(uri: &str) -> (r: Option<String>)
    ensures
        view_of(r) == queue_of(uri@),
{
    let text = characters(uri);
    proof {
        lemma_last_position(uri@, '/');
    }
    let start: usize = match last_index(&text, '/') {
        Some(slash) => slash + 1,
        None => 0,
    };
    if start < text.len() {
        Some(uri.substring_char(start, text.len()).to_string())
    } else {
        None
    }
}

/// A queue's name is what printer URIs that end in it are read back to, so
/// long as it is not empty and holds no slash.
pub proof fn a_queue_is_read_back_from_its_uri(base: Seq<char>, name: Seq<char>)
    requires
        name.len() > 0,
        !name.contains('/'),
    ensures
        queue_of(base + seq!['/'] + name) == Some(name),
{
    let uri = base + seq!['/'] + name;
    lemma_last_position(uri, '/');
    assert(uri[base.len() as int] == '/');
    assert forall|i: int| base.len() < i < uri.len() implies uri[i] != '/' by {
        assert(uri[i] == name[i - base.len() - 1]);
        assert(name.contains(name[i - base.len() - 1]));
    }
    assert(uri.skip(last_position(uri, '/') + 1) =~= name);
}

/// The progress two page counts stand for. A total of zero or less is none.
pub open spec fn progress_of(total: Option<i32>, done: Option<i32>) -> JobProgress {
    match (total, done) {
        (Some(total), Some(done)) if total > 0 => JobProgress::Pages { done, total },
        _ => JobProgress::Indeterminate,
    }
}

/// A count, where it is above zero.
pub open spec fn positive(count: Option<i32>) -> Option<i32> {
    match count {
        Some(n) if n > 0 => Some(n),
        _ => None,
    }
}

/// The job a group describes, its id being `id` and its state `state`.
pub open spec fn described(a: Seq<Attribute>, id: JobId, state: JobState) -> JobView {
    JobView {
        id,
        printer: match text_at(a, "job-printer-uri"@) {
            Some(uri) => or_empty(queue_of(uri)),
            None => Seq::empty(),
        },
        name: text_at(a, "job-name"@),
        user: text_at(a, "job-originating-user-name"@),
        state,
        reasons: reasons_of(texts_at(a, "job-state-reasons"@)),
        progress: progress_of(
            int_at(a, "job-impressions"@),
            int_at(a, "job-impressions-completed"@),
        ),
        created: moment_at(int_at(a, "time-at-creation"@)),
        pages_printed: positive(int_at(a, "job-impressions-completed"@)),
        completed: moment_at(int_at(a, "time-at-completed"@)),
    }
}

/// The job a group describes. An id and a known state have to be there.
pub open spec fn job_of(a: Seq<Attribute>) -> Result<JobView, ErrorView> {
    match required_int(a, "job-id"@) {
        Err(e) => Err(e),
        Ok(id) => match required_int(a, "job-state"@) {
            Err(e) => Err(e),
            Ok(value) => match job_state_of(value) {
                Err(e) => Err(e),
                Ok(state) => Ok(described(a, id, state)),
            },
        },
    }
}

/// A job without the pages it printed and the time it ended.
pub open spec fn brief(job: JobView) -> JobView {
    JobView { pages_printed: None, completed: None, ..job }
}

/// The job a group describes, in brief.
pub open spec fn brief_job_of(a: Seq<Attribute>) -> Result<JobView, ErrorView> {
    match job_of(a) {
        Ok(job) => Ok(brief(job)),
        Err(e) => Err(e),
    }
}

impl Job {
    /// Reads a job from an IPP job-attributes group, in brief: all but the pages
    /// it printed and the time it ended.
    pub fn decode_brief(group: &IppAttributeGroup) -> (r: Result<Job, Error>)
        ensures
            outcome(r) == brief_job_of(group_attributes(*group)),
    {
        match Job::decode(group) {
            Ok(job) => Ok(Job { pages_printed: None, completed: None, ..job }),
            Err(e) => Err(e),
        }
    }

    /// Reads a job from an IPP job-attributes group.
    pub fn decode(group: &IppAttributeGroup) -> (r: Result<Job, Error>)
        ensures
            outcome(r) == job_of(group_attributes(*group)),
    {
        let a = Attrs::new(group);
        let printed = a.integer("job-impressions-completed");
        let progress = match (a.integer("job-impressions"), printed) {
            (Some(total), Some(done)) if total > 0 => JobProgress::Pages { done, total },
            _ => JobProgress::Indeterminate,
        };
        let id: JobId = match a.require_int("job-id") {
            Ok(id) => id,
            Err(e) => {
                return Err(e);
            },
        };
        let printer = match a.text("job-printer-uri") {
            Some(uri) => unwrap_or_empty(printer_name_from_uri(uri.as_str())),
            None => String::new(),
        };
        let value: i32 = match a.require_int("job-state") {
            Ok(value) => value,
            Err(e) => {
                return Err(e);
            },
        };
        let state = match JobState::from_ipp(value) {
            Ok(state) => state,
            Err(e) => {
                return Err(e);
            },
        };
        let reasons = a.texts("job-state-reasons");
        Ok(
            Job {
                id,
                printer,
                name: a.text("job-name"),
                user: a.text("job-originating-user-name"),
                state,
                reasons: StateReason::parse_list(&reasons),
                progress,
                created: time_at(a.integer("time-at-creation")),
                pages_printed: match printed {
                    Some(n) if n > 0 => Some(n),
                    _ => None,
                },
                completed: time_at(a.integer("time-at-completed")),
            },
        )
    }

    /// Whether two descriptions of a job are the same.
    pub fn same(&self, other: &Job) -> (r: bool)
        ensures
            r == (self@ == other@),
    {
        self.id == other.id && self.printer == other.printer && same_optional(
            &self.name,
            &other.name,
        ) && same_optional(&self.user, &other.user) && self.state == other.state && same_reasons(
            &self.reasons,
            &other.reasons,
        ) && self.progress == other.progress && same_moment(&self.created, &other.created)
            && same_number(self.pages_printed, other.pages_printed) && same_moment(
            &self.completed,
            &other.completed,
        )
    }
}

} // verus!
