//! The roster importer: rows of name, contact and role become judges; any
//! malformed row rejects the whole batch.
use vstd::prelude::*;

use crate::error::ImportError;
use crate::fields::{join_commas, join_with_commas, row_view, rows_view};
use crate::tokenizer::{csv_records, tokenize};

verus! {

/// The number of fields a roster row carries.
pub const ROSTER_FIELDS: usize = 3;

/// A person invited to judge.
#[derive(Debug, Clone, PartialEq, Eq)]
pub struct Judge {
    pub name: String,
    pub email: String,
    pub role: String,
}

pub ghost struct JudgeModel {
    pub name: Seq<char>,
    pub email: Seq<char>,
    pub role: Seq<char>,
}

impl View for Judge {
    type V = JudgeModel;

    open spec fn view(&self) -> JudgeModel {
        JudgeModel { name: self.name@, email: self.email@, role: self.role@ }
    }
}

/// `s` without its leading and trailing whitespace, as `str::trim` gives it.
pub uninterp spec fn trimmed(s: Seq<char>) -> Seq<char>;

/// Relies on str::trim: the text without leading and trailing whitespace,
/// which depends on the text alone.
#[verifier::external_body]
fn trim_field(s: &str) -> (r: String)
    ensures
        r@ == trimmed(s@),
{
    s.trim().to_string()
}

pub open spec fn roster_row_ok(row: Seq<Seq<char>>) -> bool {
    row.len() == 3
}

/// Every row is well formed.
pub open spec fn roster_ok(rows: Seq<Seq<Seq<char>>>) -> bool {
    forall|i: int| 0 <= i < rows.len() ==> roster_row_ok(#[trigger] rows[i])
}

/// `j` is the first row that is not well formed.
pub open spec fn first_bad_row(rows: Seq<Seq<Seq<char>>>, j: int) -> bool {
    &&& 0 <= j < rows.len()
    &&& !roster_row_ok(rows[j])
    &&& forall|k: int| 0 <= k < j ==> roster_row_ok(#[trigger] rows[k])
}

/// The judge of a well-formed row: its three fields, trimmed.
pub open spec fn judge_of_row(row: Seq<Seq<char>>) -> JudgeModel {
    JudgeModel { name: trimmed(row[0]), email: trimmed(row[1]), role: trimmed(row[2]) }
}

pub open spec fn judges_view(js: Seq<Judge>) -> Seq<JudgeModel> {
    js.map_values(|j: Judge| j@)
}

/// The outcome of a roster import of `rows`.
pub open spec fn roster_result_matches(
    r: Result<Vec<Judge>, ImportError>,
    rows: Seq<Seq<Seq<char>>>,
) -> bool {
    match r {
        Ok(js) => roster_ok(rows) && judges_view(js@) == rows.map_values(
            |row: Seq<Seq<char>>| judge_of_row(row),
        ),
        Err(e) => !roster_ok(rows) && exists|j: int|
            #![trigger rows[j]]
            first_bad_row(rows, j) && (e matches ImportError::RowFieldCountMismatch { row } && row@
                == join_commas(rows[j])),
    }
}

/// Imports tokenized roster rows. Succeeds with one judge per row, fields
/// trimmed, when every row has exactly three fields; otherwise fails with the
/// first offending row and yields no judges.
pub fn import_roster(rows: &Vec<Vec<String>>) -> (r: Result<Vec<Judge>, ImportError>)
    ensures
        roster_result_matches(r, rows_view(rows@)),
{
    let ghost rv = rows_view(rows@);
    let mut judges: Vec<Judge> = Vec::new();
    let mut first_error: Option<String> = None;
    let ghost mut bad: int = 0;
    let mut i: usize = 0;
    while i < rows.len()
        invariant
            i <= rows.len(),
            rv == rows_view(rows@),
            match first_error {
                None => forall|k: int| 0 <= k < i ==> roster_row_ok(#[trigger] rv[k]),
                Some(line) => first_bad_row(rv, bad) && bad < i && line@ == join_commas(rv[bad]),
            },
            first_error.is_none() ==> judges_view(judges@) == rv.take(i as int).map_values(
                |row: Seq<Seq<char>>| judge_of_row(row),
            ),
        decreases rows.len() - i,
    {
        let row = &rows[i];
        assert(rv[i as int] == row_view(row@));
        if row.len() != ROSTER_FIELDS {
            if first_error.is_none() {
                let line = join_with_commas(row);
                first_error = Some(line);
                proof {
                    bad = i as int;
                }
            }
        } else if first_error.is_none() {
            let name = trim_field(row[0].as_str());
            let email = trim_field(row[1].as_str());
            let role = trim_field(row[2].as_str());
            let ghost old_js = judges@;
            judges.push(Judge { name, email, role });
            assert(judges_view(judges@) =~= rv.take(i as int + 1).map_values(
                |row: Seq<Seq<char>>| judge_of_row(row),
            )) by {
                assert(judges_view(judges@) =~= judges_view(old_js).push(judges@.last()@));
            }
        }
        i = i + 1;
    }
    match first_error {
        Some(line) => {
            assert(!roster_ok(rv)) by {
                assert(!roster_row_ok(rv[bad]));
            }
            Err(ImportError::RowFieldCountMismatch { row: line })
        },
        None => {
            assert(rv.take(rows.len() as int) =~= rv);
            Ok(judges)
        },
    }
}

/// Imports a roster file, skipping its first row when `has_header` holds.
/// Fails with `MalformedInput` when the text cannot be tokenized; otherwise
/// as `import_roster` on its rows.
pub fn parse_judge_csv(data: String, has_header: bool) -> (r: Result<Vec<Judge>, ImportError>)
    ensures
        match csv_records(data@, has_header) {
            None => r == Err::<Vec<Judge>, ImportError>(ImportError::MalformedInput),
            Some(rows) => roster_result_matches(r, rows),
        },
{
    let rows = match tokenize(data.as_str(), has_header) {
        Ok(rows) => rows,
        Err(e) => {
            return Err(e);
        },
    };
    import_roster(&rows)
}

} // verus!
