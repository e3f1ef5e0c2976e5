//! Field-level text operations: splitting a cell on commas, joining a row
//! back with commas, and the empty-to-absent mapping of optional cells.
use vstd::prelude::*;
use vstd::string::*;

verus! {

/// The pieces of `s` between commas, in order. A string without commas is one
/// piece, so the empty string splits to one empty piece.
pub open spec fn split_commas(s: Seq<char>) -> Seq<Seq<char>>
    decreases s.len(),
{
    if s.len() == 0 {
        seq![Seq::<char>::empty()]
    } else {
        let p = split_commas(s.drop_last());
        if s.last() == ',' {
            p.push(Seq::<char>::empty())
        } else {
            p.update(p.len() - 1, p.last().push(s.last()))
        }
    }
}

/// The fields of a row written back as one line, separated by commas.
pub open spec fn join_commas(fields: Seq<Seq<char>>) -> Seq<char>
    decreases fields.len(),
{
    if fields.len() == 0 {
        Seq::<char>::empty()
    } else if fields.len() == 1 {
        fields[0]
    } else {
        join_commas(fields.drop_last()) + seq![','] + fields.last()
    }
}

/// An optional cell: empty means no value.
pub open spec fn optional_of(s: Seq<char>) -> Option<Seq<char>> {
    if s.len() == 0 {
        None
    } else {
        Some(s)
    }
}

/// The view of a row of owned strings.
pub open spec fn row_view(row: Seq<String>) -> Seq<Seq<char>> {
    row.map_values(|f: String| f@)
}

/// The view of a sequence of rows.
pub open spec fn rows_view(rows: Seq<Vec<String>>) -> Seq<Seq<Seq<char>>> {
    rows.map_values(|r: Vec<String>| row_view(r@))
}

proof fn lemma_split_never_empty(s: Seq<char>)
    ensures
        split_commas(s).len() >= 1,
    decreases s.len(),
{
    if s.len() > 0 {
        lemma_split_never_empty(s.drop_last());
    }
}

/// Splits `s` at every comma, keeping empty pieces.
pub fn split_on_commas(s: &str) -> (r: Vec<String>)
    ensures
        row_view(r@) == split_commas(s@),
{
    let n = s.unicode_len();
    let mut pieces: Vec<String> = Vec::new();
    let mut start: usize = 0;
    let mut i: usize = 0;
    assert(s@.subrange(0, 0) =~= Seq::<char>::empty());
    assert(row_view(pieces@) =~= Seq::<Seq<char>>::empty());
    assert(split_commas(Seq::<char>::empty()) == seq![Seq::<char>::empty()]);
    assert(row_view(pieces@).push(s@.subrange(0, 0)) =~= split_commas(s@.subrange(0, 0)));
    while i < n
        invariant
            n == s@.len(),
            start <= i <= n,
            row_view(pieces@).push(s@.subrange(start as int, i as int)) == split_commas(
                s@.subrange(0, i as int),
            ),
        decreases n - i,
    {
        let c = s.get_char(i);
        let ghost prev = s@.subrange(0, i as int);
        assert(s@.subrange(0, i as int + 1).drop_last() == prev);
        proof {
            lemma_split_never_empty(prev);
        }
        if c == ',' {
            let ghost old_pieces = pieces@;
            let piece = s.substring_char(start, i).to_owned();
            pieces.push(piece);
            assert(row_view(pieces@) =~= row_view(old_pieces).push(piece@));
            start = i + 1;
            assert(s@.subrange(start as int, i as int + 1) =~= Seq::<char>::empty());
            assert(row_view(pieces@).push(s@.subrange(start as int, i as int + 1)) =~= split_commas(
                s@.subrange(0, i as int + 1),
            ));
        } else {
            assert(s@.subrange(start as int, i as int).push(c) =~= s@.subrange(
                start as int,
                i as int + 1,
            ));
            assert(row_view(pieces@).push(s@.subrange(start as int, i as int + 1)) =~= split_commas(
                s@.subrange(0, i as int + 1),
            ));
        }
        i = i + 1;
    }
    let last = s.substring_char(start, n).to_owned();
    pieces.push(last);
    assert(s@.subrange(0, n as int) =~= s@);
    assert(row_view(pieces@) =~= split_commas(s@));
    pieces
}

/// Joins the fields of a row with commas.
pub fn join_with_commas(fields: &Vec<String>) -> (r: String)
    ensures
        r@ == join_commas(row_view(fields@)),
{
    let mut out = String::new();
    let mut i: usize = 0;
    proof {
        reveal_strlit(",");
    }
    while i < fields.len()
        invariant
            i <= fields.len(),
            out@ == join_commas(row_view(fields@.subrange(0, i as int))),
            ","@ == seq![','],
        decreases fields.len() - i,
    {
        let ghost before = row_view(fields@.subrange(0, i as int));
        if i > 0 {
            out.append(",");
        }
        out.append(fields[i].as_str());
        let ghost after = row_view(fields@.subrange(0, i as int + 1));
        assert(after.drop_last() =~= before);
        assert(after.last() == fields@[i as int]@);
        if i == 0 {
            assert(after.len() == 1);
        }
        i = i + 1;
    }
    assert(fields@.subrange(0, fields.len() as int) =~= fields@);
    out
}

/// An optional cell as a value: `None` when the cell is empty, otherwise the
/// cell's exact text.
pub fn optional_field(s: &str) -> (r: Option<String>)
    ensures
        r.is_none() <==> s@.len() == 0,
        r matches Some(v) ==> v@ == s@,
        match r {
            Some(v) => optional_of(s@) == Some(v@),
            None => optional_of(s@).is_none(),
        },
{
    if s.unicode_len() == 0 {
        None
    } else {
        Some(s.to_owned())
    }
}

} // verus!
