//! The submission importer: rows of a submission export become projects with
//! ascending table slots; short rows are skipped and reported.
use vstd::prelude::*;

use crate::allocator::SlotAllocator;
use crate::error::ImportError;
use crate::fields::{
    join_commas, join_with_commas, optional_field, optional_of, row_view, rows_view,
    split_commas, split_on_commas,
};
use crate::tokenizer::{csv_records, tokenize};

verus! {

/// The fewest fields a submission row must carry.
pub const SUBMISSION_MIN_FIELDS: usize = 13;

/// A submission as the export describes it, column by column.
#[derive(Debug, Clone, PartialEq, Eq)]
pub struct DevpostProject {
    pub title: String,
    pub url: Option<String>,
    pub description: Option<String>,
    pub try_link: Option<String>,
    pub video_link: Option<String>,
    /// The opt-in prizes.
    pub challenge_list: Vec<String>,
    /// The answers to custom questions.
    pub custom_questions: Vec<String>,
}

/// A submission record ready to be stored. The rating fields that the store
/// keeps beside these start from fixed defaults and are added on storing.
#[derive(Debug, Clone, PartialEq, Eq)]
pub struct Project {
    /// Assigned by the store; `None` before insertion.
    pub id: Option<String>,
    pub name: String,
    /// The table slot.
    pub location: u64,
    pub description: String,
    pub try_link: Option<String>,
    pub video_link: Option<String>,
    pub challenge_list: Vec<String>,
    pub seen: u64,
    pub votes: u64,
    pub active: bool,
    pub prioritized: bool,
    /// Milliseconds since the Unix epoch.
    pub last_activity: i64,
}

pub ghost struct ProjectModel {
    pub id: Option<Seq<char>>,
    pub name: Seq<char>,
    pub location: int,
    pub description: Seq<char>,
    pub try_link: Option<Seq<char>>,
    pub video_link: Option<Seq<char>>,
    pub challenge_list: Seq<Seq<char>>,
    pub seen: int,
    pub votes: int,
    pub active: bool,
    pub prioritized: bool,
    pub last_activity: int,
}

pub open spec fn opt_view(o: Option<String>) -> Option<Seq<char>> {
    match o {
        Some(s) => Some(s@),
        None => None,
    }
}

impl View for Project {
    type V = ProjectModel;

    open spec fn view(&self) -> ProjectModel {
        ProjectModel {
            id: opt_view(self.id),
            name: self.name@,
            location: self.location as int,
            description: self.description@,
            try_link: opt_view(self.try_link),
            video_link: opt_view(self.video_link),
            challenge_list: row_view(self.challenge_list@),
            seen: self.seen as int,
            votes: self.votes as int,
            active: self.active,
            prioritized: self.prioritized,
            last_activity: self.last_activity as int,
        }
    }
}

/// A row that carries every mapped column.
pub open spec fn submission_row_ok(row: Seq<Seq<char>>) -> bool {
    row.len() >= 13
}

/// The rows that are imported, in input order.
pub open spec fn accepted_rows(rows: Seq<Seq<Seq<char>>>) -> Seq<Seq<Seq<char>>>
    decreases rows.len(),
{
    if rows.len() == 0 {
        Seq::empty()
    } else if submission_row_ok(rows.last()) {
        accepted_rows(rows.drop_last()).push(rows.last())
    } else {
        accepted_rows(rows.drop_last())
    }
}

/// The rows that are skipped, each joined with commas, in input order.
pub open spec fn rejected_rows(rows: Seq<Seq<Seq<char>>>) -> Seq<Seq<char>>
    decreases rows.len(),
{
    if rows.len() == 0 {
        Seq::empty()
    } else if submission_row_ok(rows.last()) {
        rejected_rows(rows.drop_last())
    } else {
        rejected_rows(rows.drop_last()).push(join_commas(rows.last()))
    }
}

/// The project made of an accepted row: column 0 is the name, 6 the
/// description, 7 and 8 the optional links, 9 the comma-separated prizes.
pub open spec fn project_of_row(row: Seq<Seq<char>>, slot: int, now: int) -> ProjectModel {
    ProjectModel {
        id: None,
        name: row[0],
        location: slot,
        description: row[6],
        try_link: optional_of(row[7]),
        video_link: optional_of(row[8]),
        challenge_list: split_commas(row[9]),
        seen: 0,
        votes: 0,
        active: true,
        prioritized: false,
        last_activity: now,
    }
}

/// The projects of a batch whose first slot is `start`.
pub open spec fn projects_of(rows: Seq<Seq<Seq<char>>>, start: int, now: int) -> Seq<ProjectModel> {
    let acc = accepted_rows(rows);
    Seq::new(acc.len(), |i: int| project_of_row(acc[i], start + i, now))
}

/// What one import batch yields.
#[derive(Debug, Clone, PartialEq, Eq)]
pub struct SubmissionImport {
    /// The projects, in row order.
    pub accepted: Vec<Project>,
    /// The skipped rows, joined with commas, in row order.
    pub rejected: Vec<String>,
    /// When the batch was imported, in milliseconds since the Unix epoch.
    pub imported_at: i64,
}

pub open spec fn projects_view(ps: Seq<Project>) -> Seq<ProjectModel> {
    ps.map_values(|p: Project| p@)
}

pub open spec fn strings_view(ss: Seq<String>) -> Seq<Seq<char>> {
    ss.map_values(|s: String| s@)
}

/// `rep` is the outcome of importing `rows` with the first slot `start`.
pub open spec fn import_matches(rep: SubmissionImport, rows: Seq<Seq<Seq<char>>>, start: int) -> bool {
    &&& projects_view(rep.accepted@) == projects_of(rows, start, rep.imported_at as int)
    &&& strings_view(rep.rejected@) == rejected_rows(rows)
}

/// A prefix of a batch accepts no more rows than the whole batch.
proof fn lemma_accepted_prefix_len(rows: Seq<Seq<Seq<char>>>, i: int)
    requires
        0 <= i <= rows.len(),
    ensures
        accepted_rows(rows.take(i)).len() <= accepted_rows(rows).len(),
    decreases rows.len(),
{
    if i < rows.len() {
        assert(rows.drop_last().take(i) =~= rows.take(i));
        lemma_accepted_prefix_len(rows.drop_last(), i);
    } else {
        assert(rows.take(i) =~= rows);
    }
}

/// Builds the project of an accepted row.
fn project_from_row(row: &Vec<String>, slot: u64, now: i64) -> (p: Project)
    requires
        row@.len() >= 13,
    ensures
        p@ == project_of_row(row_view(row@), slot as int, now as int),
{
    let challenge_list = split_on_commas(row[9].as_str());
    let p = Project {
        id: None,
        name: row[0].clone(),
        location: slot,
        description: row[6].clone(),
        try_link: optional_field(row[7].as_str()),
        video_link: optional_field(row[8].as_str()),
        challenge_list,
        seen: 0,
        votes: 0,
        active: true,
        prioritized: false,
        last_activity: now,
    };
    assert(p@ =~= project_of_row(row_view(row@), slot as int, now as int));
    p
}

/// The number of rows that an import of `rows` accepts.
pub fn count_accepted(rows: &Vec<Vec<String>>) -> (n: usize)
    ensures
        n == accepted_rows(rows_view(rows@)).len(),
{
    let ghost rv = rows_view(rows@);
    let mut n: usize = 0;
    let mut i: usize = 0;
    while i < rows.len()
        invariant
            i <= rows.len(),
            rv == rows_view(rows@),
            n == accepted_rows(rv.take(i as int)).len(),
            n <= i,
        decreases rows.len() - i,
    {
        assert(rv.take(i as int + 1).drop_last() =~= rv.take(i as int));
        if rows[i].len() >= SUBMISSION_MIN_FIELDS {
            n = n + 1;
        }
        i = i + 1;
    }
    assert(rv.take(rows.len() as int) =~= rv);
    n
}

/// Imports tokenized submission rows. Each row with at least 13 fields
/// becomes a project with the next slot; every other row is skipped and
/// reported, and consumes no slot. The allocator advances once per accepted
/// row.
pub fn import_submissions(rows: &Vec<Vec<String>>, allocator: &mut SlotAllocator, now: i64) -> (r:
    SubmissionImport)
    requires
        old(allocator).next + accepted_rows(rows_view(rows@)).len() <= u64::MAX,
    ensures
        import_matches(r, rows_view(rows@), old(allocator).next as int),
        r.imported_at == now,
        final(allocator).next == old(allocator).next + accepted_rows(rows_view(rows@)).len(),
{
    let ghost rv = rows_view(rows@);
    let ghost start = allocator.next as int;
    let mut accepted: Vec<Project> = Vec::new();
    let mut rejected: Vec<String> = Vec::new();
    let mut i: usize = 0;
    while i < rows.len()
        invariant
            i <= rows.len(),
            rv == rows_view(rows@),
            start + accepted_rows(rv).len() <= u64::MAX,
            allocator.next == start + accepted_rows(rv.take(i as int)).len(),
            projects_view(accepted@) == projects_of(rv.take(i as int), start, now as int),
            strings_view(rejected@) == rejected_rows(rv.take(i as int)),
        decreases rows.len() - i,
    {
        let ghost prev = rv.take(i as int);
        let ghost next = rv.take(i as int + 1);
        assert(next.drop_last() =~= prev);
        assert(next.last() == row_view(rows@[i as int]@));
        proof {
            lemma_accepted_prefix_len(rv, i as int + 1);
        }
        let row = &rows[i];
        if row.len() >= SUBMISSION_MIN_FIELDS {
            let slot = allocator.next_slot();
            let p = project_from_row(row, slot, now);
            let ghost old_acc = accepted@;
            accepted.push(p);
            assert(projects_view(accepted@) =~= projects_view(old_acc).push(p@));
            assert(projects_view(accepted@) =~= projects_of(next, start, now as int));
        } else {
            let line = join_with_commas(row);
            let ghost old_rej = rejected@;
            rejected.push(line);
            assert(strings_view(rejected@) =~= strings_view(old_rej).push(line@));
            assert(projects_view(accepted@) =~= projects_of(next, start, now as int));
        }
        i = i + 1;
    }
    assert(rv.take(rows.len() as int) =~= rv);
    SubmissionImport { accepted, rejected, imported_at: now }
}

/// Relies on chrono::Utc::now: the current time from the system clock, in
/// milliseconds since the Unix epoch. Nothing is known of the value.
#[verifier::external_body]
fn now_millis() -> (r: i64) {
    chrono::Utc::now().timestamp_millis()
}

/// Imports a submission export (its first row is a header). The allocator
/// holds the first free slot on entry and the next free slot on success; on
/// failure it is unchanged. Fails with `MalformedInput` when the text cannot
/// be tokenized and with `AllocatorUnavailable` when the counter has no room
/// for the accepted rows; otherwise the batch succeeds, whatever rows it
/// skipped.
pub fn devpost_integration(data: String, allocator: &mut SlotAllocator) -> (r: Result<
    SubmissionImport,
    ImportError,
>)
    ensures
        match csv_records(data@, true) {
            None => r == Err::<SubmissionImport, ImportError>(ImportError::MalformedInput)
                && final(allocator).next == old(allocator).next,
            Some(rows) => if old(allocator).next + accepted_rows(rows).len() > u64::MAX {
                r == Err::<SubmissionImport, ImportError>(ImportError::AllocatorUnavailable)
                    && final(allocator).next == old(allocator).next
            } else {
                &&& r is Ok
                &&& import_matches(r->Ok_0, rows, old(allocator).next as int)
                &&& final(allocator).next == old(allocator).next + accepted_rows(rows).len()
            },
        },
{
    let rows = match tokenize(data.as_str(), true) {
        Ok(rows) => rows,
        Err(e) => {
            return Err(e);
        },
    };
    let count = count_accepted(&rows);
    if !allocator.has_room_for(count) {
        return Err(ImportError::AllocatorUnavailable);
    }
    let now = now_millis();
    Ok(import_submissions(&rows, allocator, now))
}

} // verus!
