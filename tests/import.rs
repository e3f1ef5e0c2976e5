use jury::allocator::SlotAllocator;
use jury::error::ImportError;
use jury::fields::{join_with_commas, optional_field, split_on_commas};
use jury::roster::{import_roster, parse_judge_csv};
use jury::submission::{count_accepted, devpost_integration, import_submissions, SubmissionImport};
use jury::tokenizer::tokenize;

const HEADER: &str = "Project Title,Submission Url,Project Status,Judging Status,Highest Step Completed,Project Created At,About The Project,Try it out Links,Video Demo Link,Opt-In Prizes,Built With,Notes,Team Colleges/Universities,Additional Team Member Count\n";

fn submission_line(name: &str, try_link: &str, video: &str, tags: &str) -> String {
    format!(
        "{},https://x.dev/{},Submitted,Pending,Done,2023-01-01,About {},{},{},\"{}\",rust,none,MIT,2\n",
        name, name, name, try_link, video, tags
    )
}

fn strings(v: &[&str]) -> Vec<String> {
    v.iter().map(|s| s.to_string()).collect()
}

fn run(data: &str, start: u64) -> (SubmissionImport, u64) {
    let mut alloc = SlotAllocator::new(start);
    let rep = devpost_integration(data.to_string(), &mut alloc).expect("import succeeds");
    (rep, alloc.next)
}

#[test]
fn tags_split_in_order() {
    assert_eq!(split_on_commas("A,B,C"), strings(&["A", "B", "C"]));
}

#[test]
fn empty_tags_give_one_empty_piece() {
    assert_eq!(split_on_commas(""), strings(&[""]));
}

#[test]
fn tags_keep_empty_pieces_and_spaces() {
    assert_eq!(split_on_commas(",a, b,"), strings(&["", "a", " b", ""]));
}

#[test]
fn empty_link_is_absent() {
    assert_eq!(optional_field(""), None);
}

#[test]
fn non_empty_link_is_kept_exactly() {
    assert_eq!(optional_field(" https://a.b "), Some(" https://a.b ".to_string()));
}

#[test]
fn join_rebuilds_row() {
    assert_eq!(join_with_commas(&strings(&["Bob", "b@x.com"])), "Bob,b@x.com");
    assert_eq!(join_with_commas(&strings(&[])), "");
    assert_eq!(join_with_commas(&strings(&["", ""])), ",");
}

#[test]
fn tokenizer_honours_quotes_and_header() {
    let rows = tokenize("h1,h2\n\"a,b\",c\nd\n", true).unwrap();
    assert_eq!(rows, vec![strings(&["a,b", "c"]), strings(&["d"])]);
    let rows = tokenize("h1,h2\n", false).unwrap();
    assert_eq!(rows, vec![strings(&["h1", "h2"])]);
}

#[test]
fn well_formed_batch_gets_contiguous_slots() {
    let mut data = HEADER.to_string();
    for n in ["one", "two", "three"] {
        data.push_str(&submission_line(n, "", "", "A,B"));
    }
    let (rep, next) = run(&data, 5);
    assert_eq!(rep.accepted.len(), 3);
    assert!(rep.rejected.is_empty());
    let slots: Vec<u64> = rep.accepted.iter().map(|p| p.location).collect();
    assert_eq!(slots, vec![5, 6, 7]);
    assert_eq!(next, 8);
    let names: Vec<&str> = rep.accepted.iter().map(|p| p.name.as_str()).collect();
    assert_eq!(names, vec!["one", "two", "three"]);
}

#[test]
fn project_fields_follow_columns() {
    let data = format!("{}{}", HEADER, submission_line("demo", "https://try", "", "A,B,C"));
    let (rep, _) = run(&data, 0);
    let p = &rep.accepted[0];
    assert_eq!(p.id, None);
    assert_eq!(p.name, "demo");
    assert_eq!(p.description, "About demo");
    assert_eq!(p.try_link, Some("https://try".to_string()));
    assert_eq!(p.video_link, None);
    assert_eq!(p.challenge_list, strings(&["A", "B", "C"]));
    assert_eq!((p.seen, p.votes, p.active, p.prioritized), (0, 0, true, false));
    assert_eq!(p.last_activity, rep.imported_at);
}

#[test]
fn empty_tag_column_yields_one_empty_tag() {
    let data = format!("{}{}", HEADER, submission_line("demo", "", "v", ""));
    let (rep, _) = run(&data, 0);
    assert_eq!(rep.accepted[0].challenge_list, strings(&[""]));
    assert_eq!(rep.accepted[0].video_link, Some("v".to_string()));
}

#[test]
fn short_row_is_reported_and_consumes_no_slot() {
    let data = format!(
        "{}{}short,row,only\n{}",
        HEADER,
        submission_line("first", "", "", "A"),
        submission_line("second", "", "", "B")
    );
    let (rep, next) = run(&data, 10);
    assert_eq!(rep.rejected, strings(&["short,row,only"]));
    let slots: Vec<u64> = rep.accepted.iter().map(|p| p.location).collect();
    assert_eq!(slots, vec![10, 11]);
    assert_eq!(next, 12);
}

#[test]
fn trailing_columns_are_ignored() {
    let line = submission_line("extra", "", "", "A");
    let data = format!("{}{},q1,q2\n", HEADER, line.trim_end());
    let (rep, _) = run(&data, 0);
    assert_eq!(rep.accepted.len(), 1);
    assert!(rep.rejected.is_empty());
}

#[test]
fn serialized_batches_share_no_slot() {
    let mut alloc = SlotAllocator::new(100);
    let a = format!("{}{}{}", HEADER, submission_line("a1", "", "", "A"), submission_line("a2", "", "", "A"));
    let b = format!("{}{}", HEADER, submission_line("b1", "", "", "B"));
    let ra = devpost_integration(a, &mut alloc).unwrap();
    let rb = devpost_integration(b, &mut alloc).unwrap();
    let mut slots: Vec<u64> = ra.accepted.iter().chain(rb.accepted.iter()).map(|p| p.location).collect();
    slots.sort();
    assert_eq!(slots, vec![100, 101, 102]);
    assert_eq!(alloc.next, 103);
}

#[test]
fn reimport_gives_same_partition() {
    let data = format!("{}{}x,y\n", HEADER, submission_line("same", "t", "v", "P,Q"));
    let (r1, n1) = run(&data, 3);
    let (r2, n2) = run(&data, 3);
    assert_eq!(r1.rejected, r2.rejected);
    assert_eq!(n1, n2);
    assert_eq!(r1.accepted.len(), r2.accepted.len());
    for (p, q) in r1.accepted.iter().zip(r2.accepted.iter()) {
        assert_eq!((&p.name, p.location, &p.challenge_list, &p.try_link), (&q.name, q.location, &q.challenge_list, &q.try_link));
    }
}

#[test]
fn full_counter_refuses_batch() {
    let data = format!("{}{}", HEADER, submission_line("late", "", "", "A"));
    let mut alloc = SlotAllocator::new(u64::MAX);
    assert_eq!(devpost_integration(data, &mut alloc), Err(ImportError::AllocatorUnavailable));
    assert_eq!(alloc.next, u64::MAX);
}

#[test]
fn full_counter_accepts_batch_without_valid_rows() {
    let data = format!("{}a,b\n", HEADER);
    let mut alloc = SlotAllocator::new(u64::MAX);
    let rep = devpost_integration(data, &mut alloc).unwrap();
    assert!(rep.accepted.is_empty());
    assert_eq!(rep.rejected, strings(&["a,b"]));
}

#[test]
fn import_submissions_on_rows() {
    let mut row = strings(&["n", "", "", "", "", "", "d", "", "l", "x,y", "", "", ""]);
    let rows = vec![row.clone(), strings(&["bad"])];
    assert_eq!(count_accepted(&rows), 1);
    let mut alloc = SlotAllocator::new(0);
    let rep = import_submissions(&rows, &mut alloc, 42);
    assert_eq!(rep.accepted.len(), 1);
    assert_eq!(rep.accepted[0].last_activity, 42);
    assert_eq!(rep.accepted[0].video_link, Some("l".to_string()));
    assert_eq!(rep.rejected, strings(&["bad"]));
    assert_eq!(alloc.next, 1);
    row.truncate(12);
    assert_eq!(count_accepted(&vec![row]), 0);
}

#[test]
fn next_slot_advances() {
    let mut alloc = SlotAllocator::new(7);
    assert_eq!(alloc.next_slot(), 7);
    assert_eq!(alloc.next_slot(), 8);
    assert_eq!(alloc.next, 9);
    assert!(alloc.has_room_for(0));
    assert!(!SlotAllocator::new(u64::MAX).has_room_for(1));
}

#[test]
fn roster_with_short_row_fails_whole_batch() {
    let r = parse_judge_csv("Alice,a@x.com,judge\nBob,b@x.com\n".to_string(), false);
    let e = r.unwrap_err();
    assert_eq!(e, ImportError::RowFieldCountMismatch { row: "Bob,b@x.com".to_string() });
    assert!(e.message().contains("Bob,b@x.com"));
}

#[test]
fn roster_names_first_bad_row() {
    let r = parse_judge_csv("A,a,r\nB,b\nC,c,r,extra\n".to_string(), false);
    assert_eq!(r, Err(ImportError::RowFieldCountMismatch { row: "B,b".to_string() }));
}

#[test]
fn roster_trims_fields_and_skips_header() {
    let r = parse_judge_csv("name,email,role\n  Alice , a@x.com ,\tjudge \nBob,b@x.com,mentor\n".to_string(), true).unwrap();
    assert_eq!(r.len(), 2);
    assert_eq!((r[0].name.as_str(), r[0].email.as_str(), r[0].role.as_str()), ("Alice", "a@x.com", "judge"));
    assert_eq!(r[1].role, "mentor");
}

#[test]
fn roster_on_rows_directly() {
    assert_eq!(import_roster(&vec![]).unwrap().len(), 0);
    let e = import_roster(&vec![strings(&["a", "b", "c", "d"])]).unwrap_err();
    assert_eq!(e, ImportError::RowFieldCountMismatch { row: "a,b,c,d".to_string() });
}

#[test]
fn error_messages() {
    assert_eq!(ImportError::MalformedInput.message(), "Unable to parse CSV");
    assert_eq!(ImportError::AllocatorUnavailable.message(), "Unable to allocate table numbers");
    assert_eq!(
        ImportError::RowFieldCountMismatch { row: "x,y".to_string() }.message(),
        "Unable to parse CSV, first error on line: x,y"
    );
}
