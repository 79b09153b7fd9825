//! Numbered bind placeholders (`$1, $2, ...`) for statements whose `IN`
//! list has as many entries as the caller passes.

use vstd::prelude::*;
use crate::text::{decimal, push_decimal};

verus! {

/// The placeholder for bind parameter `n`: `$` and `n` in decimal.
pub open spec fn placeholder_text(n: nat) -> Seq<char> {
    seq!['$'] + decimal(n)
}

/// The placeholders `$first`, `$first+1`, ..., `count` of them, separated by
/// `", "` (empty when `count` is 0).
pub open spec fn placeholder_list(first: nat, count: nat) -> Seq<char>
    decreases count,
{
    if count == 0 {
        Seq::empty()
    } else if count == 1 {
        placeholder_text(first)
    } else {
        placeholder_list(first, (count - 1) as nat) + ", "@ + placeholder_text((first + count - 1) as nat)
    }
}

/// A list of placeholders starts with the first one: for two or more, it
/// is `$first`, `", "` and the list that starts one number later.
pub proof fn law_placeholder_list_starts_with_first(first: nat, count: nat)
    requires
        count >= 1,
    ensures
        placeholder_list(first, count + 1) == placeholder_text(first) + ", "@ + placeholder_list(first + 1, count),
    decreases count,
{
    let f = first;
    let c = count;
    assert(placeholder_list(f, c + 1) == placeholder_list(f, c) + ", "@ + placeholder_text(f + c));
    if c > 1 {
        law_placeholder_list_starts_with_first(f, (c - 1) as nat);
        assert(placeholder_list(f, c) == placeholder_text(f) + ", "@ + placeholder_list(f + 1, (c - 1) as nat));
        assert(placeholder_list(f + 1, c) == placeholder_list(f + 1, (c - 1) as nat) + ", "@
            + placeholder_text(f + c));
        assert(placeholder_list(f, c + 1) =~= placeholder_text(f) + ", "@ + placeholder_list(f + 1, c));
    } else {
        assert(placeholder_list(f, 1) == placeholder_text(f));
        assert(placeholder_list(f + 1, 1) == placeholder_text(f + 1));
    }
}

/// The placeholder for bind parameter `n`, such as `$3`.
pub fn placeholder(n: usize) -> (r: String)
    ensures
        r@ == placeholder_text(n as nat),
{
    let mut out = String::new();
    proof {
        reveal_strlit("$");
    }
    out.append("$");
    push_decimal(&mut out, n);
    assert(out@ =~= placeholder_text(n as nat));
    out
}

/// The placeholders for `count` consecutive bind parameters starting at
/// `first`, joined by `", "`: `numbered_placeholders(1, 3)` is `$1, $2, $3`.
pub fn numbered_placeholders(first: usize, count: usize) -> (r: String)
    requires
        first + count <= usize::MAX,
    ensures
        r@ == placeholder_list(first as nat, count as nat),
{
    let mut out = String::new();
    let mut i: usize = 0;
    while i < count
        invariant
            i <= count,
            first + count <= usize::MAX,
            out@ == placeholder_list(first as nat, i as nat),
        decreases count - i,
    {
        proof {
            reveal_strlit("$");
            reveal_strlit(", ");
        }
        let ghost prev = out@;
        if i > 0 {
            out.append(", ");
        }
        let ghost sep = out@;
        out.append("$");
        push_decimal(&mut out, first + i);
        proof {
            assert(out@ == sep + "$"@ + decimal((first + i) as nat));
            if i == 0 {
                assert(prev =~= Seq::<char>::empty());
                assert(sep =~= prev);
                assert(out@ =~= placeholder_text(first as nat));
            } else {
                assert(out@ =~= prev + ", "@ + placeholder_text((first + i) as nat));
            }
        }
        i = i + 1;
    }
    out
}

/// A statement with an `IN` list: `head`, then the placeholders for `count`
/// bind parameters from `first` on, then `tail`.
pub fn in_list_statement(head: &str, first: usize, count: usize, tail: &str) -> (r: String)
    requires
        first + count <= usize::MAX,
    ensures
        r@ == head@ + placeholder_list(first as nat, count as nat) + tail@,
{
    let mut out = String::new();
    out.append(head);
    let list = numbered_placeholders(first, count);
    out.append(list.as_str());
    out.append(tail);
    out
}

/// The statement to run for an `IN` list of `count` entries, or `None` when
/// the list is empty: an empty list matches no row, so no query is run and
/// the result is empty.
pub fn in_list_query(head: &str, first: usize, count: usize, tail: &str) -> (r: Option<String>)
    requires
        first + count <= usize::MAX,
    ensures
        count == 0 ==> r is None,
        count > 0 ==> (r matches Some(q) && q@ == head@ + placeholder_list(first as nat, count as nat) + tail@),
{
    if count == 0 {
        None
    } else {
        Some(in_list_statement(head, first, count, tail))
    }
}

} // verus!
