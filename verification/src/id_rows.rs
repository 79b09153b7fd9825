//! Rows whose identifier the SQLite engine hands back as text: the rows whose
//! text is a UUID, with the identifier read.

use vstd::prelude::*;
use uuid::Uuid;
use crate::outside::{parse_uuid, parsed_uuid, uuid_from_bits, uuid_of_bits};

verus! {

/// The rows of `rows` whose first column reads as a UUID, in order, with the
/// identifier in its place; the other rows are dropped.
pub open spec fn parsed_rows<T>(rows: Seq<(String, T)>) -> Seq<(Uuid, T)>
    decreases rows.len(),
{
    if rows.len() == 0 {
        Seq::empty()
    } else {
        let init = parsed_rows(rows.drop_last());
        match parsed_uuid(rows.last().0@) {
            Some(id) => init.push((id, rows.last().1)),
            None => init,
        }
    }
}

/// Keeps the rows whose identifier text is a UUID, in order, with the
/// identifier read; drops the others.
pub fn keep_parsed_ids<T>(rows: Vec<(String, T)>) -> (r: Vec<(Uuid, T)>)
    ensures
        r@ == parsed_rows(rows@),
{
    let ghost given = rows@;
    let mut rest = rows;
    let mut out: Vec<(Uuid, T)> = Vec::new();
    let n: usize = rest.len();
    let mut k: usize = 0;
    while k < n
        invariant
            n == given.len(),
            k <= n,
            rest@ == given.subrange(k as int, n as int),
            out@ == parsed_rows(given.take(k as int)),
        decreases n - k,
    {
        let (text, value) = rest.remove(0);
        assert(given.take(k + 1).drop_last() =~= given.take(k as int));
        assert(given.take(k + 1).last() == given[k as int]);
        match parse_uuid(text.as_str()) {
            Some(id) => out.push((id, value)),
            None => {},
        }
        assert(rest@ =~= given.subrange(k + 1, n as int));
        k = k + 1;
    }
    assert(given.take(n as int) =~= given);
    out
}

/// Every kept pair comes from a row whose text reads as that identifier,
/// and carries that row's value.
pub proof fn law_kept_ids_come_from_their_row<T>(rows: Seq<(String, T)>, i: int)
    requires
        0 <= i < parsed_rows(rows).len(),
    ensures
        exists|j: int| 0 <= j < rows.len()
            && parsed_uuid((#[trigger] rows[j]).0@) == Some(parsed_rows(rows)[i].0)
            && parsed_rows(rows)[i].1 == rows[j].1,
    decreases rows.len(),
{
    let init = rows.drop_last();
    lemma_parsed_rows_len(init);
    if i < parsed_rows(init).len() {
        law_kept_ids_come_from_their_row(init, i);
        let j = choose|j: int| 0 <= j < init.len()
            && parsed_uuid((#[trigger] init[j]).0@) == Some(parsed_rows(init)[i].0)
            && parsed_rows(init)[i].1 == init[j].1;
        assert(init[j] == rows[j]);
    } else {
        assert(rows[rows.len() - 1] == rows.last());
    }
}

proof fn lemma_parsed_rows_len<T>(rows: Seq<(String, T)>)
    ensures
        parsed_rows(rows).len() <= rows.len(),
    decreases rows.len(),
{
    if rows.len() > 0 {
        lemma_parsed_rows_len(rows.drop_last());
    }
}

/// When every row's text reads as an identifier, every row is kept, in
/// order, with its identifier and its own value.
pub proof fn law_readable_ids_are_all_kept<T>(rows: Seq<(String, T)>)
    requires
        forall|j: int| 0 <= j < rows.len() ==> (#[trigger] parsed_uuid(rows[j].0@)) is Some,
    ensures
        parsed_rows(rows).len() == rows.len(),
        forall|j: int| 0 <= j < rows.len() ==> parsed_uuid(rows[j].0@) == Some((#[trigger] parsed_rows(rows)[j]).0)
            && parsed_rows(rows)[j].1 == rows[j].1,
    decreases rows.len(),
{
    if rows.len() > 0 {
        let init = rows.drop_last();
        assert forall|j: int| 0 <= j < init.len() implies (#[trigger] parsed_uuid(init[j].0@)) is Some by {
            assert(init[j] == rows[j]);
            assert(parsed_uuid(rows[j].0@) is Some);
        }
        law_readable_ids_are_all_kept(init);
        assert(parsed_uuid(rows[rows.len() - 1].0@) is Some);
        assert forall|j: int| 0 <= j < rows.len() implies parsed_uuid(rows[j].0@) == Some((#[trigger] parsed_rows(rows)[j]).0)
            && parsed_rows(rows)[j].1 == rows[j].1 by {
            if j < init.len() {
                assert(init[j] == rows[j]);
                assert(parsed_rows(init)[j] == parsed_rows(rows)[j]);
            }
        }
    }
}

/// The identifier written in `text`, or the nil identifier when the text is
/// not a UUID.
pub fn id_or_nil(text: &str) -> (r: Uuid)
    ensures
        r == match parsed_uuid(text@) {
            Some(id) => id,
            None => uuid_from_bits(0),
        },
{
    match parse_uuid(text) {
        Some(id) => id,
        None => uuid_of_bits(0),
    }
}

} // verus!
