//! Fan-out member configurations pushed to an agent, grouped by component:
//! each component's members stand together, components in the order of their
//! first member, members of a component in the order read.

use vstd::prelude::*;
use uuid::Uuid;
use crate::cluster_members::AgentMemberConfig;
use crate::outside::same_uuid;

verus! {

broadcast use vstd::seq_lib::group_filter_ensures;

/// Whether a configuration belongs to component `c`.
pub open spec fn of_component(c: Uuid) -> spec_fn(AgentMemberConfig) -> bool {
    |x: AgentMemberConfig| x.component_id == c
}

/// Whether a configuration belongs to a component other than `c`.
pub open spec fn not_of_component(c: Uuid) -> spec_fn(AgentMemberConfig) -> bool {
    |x: AgentMemberConfig| x.component_id != c
}

/// Leaving out the first configuration's component shortens the sequence.
pub proof fn lemma_others_shorter(s: Seq<AgentMemberConfig>)
    requires
        s.len() > 0,
    ensures
        s.filter(not_of_component(s[0].component_id)).len() < s.len(),
{
    let p = not_of_component(s[0].component_id);
    let rest = s.drop_first();
    assert(s =~= seq![s[0]] + rest);
    rest.lemma_filter_prepend(s[0], p);
    rest.lemma_filter_len(p);
}

/// The configurations grouped by component: the first one's component with
/// all its members, in order, then the rest grouped the same way.
pub open spec fn grouped_by_component(s: Seq<AgentMemberConfig>) -> Seq<AgentMemberConfig>
    decreases s.len(),
{
    if s.len() == 0 {
        Seq::empty()
    } else {
        proof {
            lemma_others_shorter(s);
        }
        let c = s[0].component_id;
        s.filter(of_component(c)) + grouped_by_component(s.filter(not_of_component(c)))
    }
}

/// Every component's configurations stand together: between two of the same
/// component there is none of another.
pub open spec fn contiguous_by_component(s: Seq<AgentMemberConfig>) -> bool {
    forall|i: int, j: int, k: int|
        0 <= i < j < k < s.len() && #[trigger] s[i].component_id == #[trigger] s[k].component_id
            ==> #[trigger] s[j].component_id == s[i].component_id
}

proof fn lemma_grouped_from_input(s: Seq<AgentMemberConfig>)
    ensures
        forall|x: AgentMemberConfig| grouped_by_component(s).contains(x) ==> s.contains(x),
    decreases s.len(),
{
    if s.len() > 0 {
        let c = s[0].component_id;
        let same = s.filter(of_component(c));
        let others = s.filter(not_of_component(c));
        lemma_others_shorter(s);
        lemma_grouped_from_input(others);
        assert forall|x: AgentMemberConfig| grouped_by_component(s).contains(x) implies s.contains(x) by {
            let g = grouped_by_component(s);
            assert(g == same + grouped_by_component(others));
            let i = choose|i: int| 0 <= i < g.len() && g[i] == x;
            if i < same.len() {
                assert(same[i] == x);
                s.lemma_filter_contains_rev(of_component(c), x);
            } else {
                assert(grouped_by_component(others)[i - same.len()] == x);
                assert(grouped_by_component(others).contains(x));
                assert(others.contains(x));
                s.lemma_filter_contains_rev(not_of_component(c), x);
            }
        }
    }
}

/// Grouping keeps each component's configurations together.
pub proof fn law_grouping_is_contiguous(s: Seq<AgentMemberConfig>)
    ensures
        contiguous_by_component(grouped_by_component(s)),
    decreases s.len(),
{
    if s.len() > 0 {
        let c = s[0].component_id;
        let same = s.filter(of_component(c));
        let others = s.filter(not_of_component(c));
        lemma_others_shorter(s);
        law_grouping_is_contiguous(others);
        lemma_grouped_from_input(others);
        let rest = grouped_by_component(others);
        let g = grouped_by_component(s);
        assert(g == same + rest);
        assert forall|i: int| 0 <= i < same.len() implies #[trigger] same[i].component_id == c by {
            s.lemma_filter_pred(of_component(c), i);
        }
        assert forall|i: int| 0 <= i < rest.len() implies #[trigger] rest[i].component_id != c by {
            assert(rest.contains(rest[i]));
            assert(others.contains(rest[i]));
            let m = choose|m: int| 0 <= m < others.len() && others[m] == rest[i];
            s.lemma_filter_pred(not_of_component(c), m);
        }
        assert forall|i: int, j: int, k: int|
            0 <= i < j < k < g.len() && #[trigger] g[i].component_id == #[trigger] g[k].component_id
            implies #[trigger] g[j].component_id == g[i].component_id by {
            let n = same.len() as int;
            if k < n {
                assert(g[i] == same[i] && g[j] == same[j] && g[k] == same[k]);
            } else if i >= n {
                assert(g[i] == rest[i - n] && g[j] == rest[j - n] && g[k] == rest[k - n]);
            } else {
                assert(g[i] == same[i] && g[k] == rest[k - n]);
            }
        }
    }
}

proof fn lemma_filter_append(a: Seq<AgentMemberConfig>, b: Seq<AgentMemberConfig>, p: spec_fn(AgentMemberConfig) -> bool)
    ensures
        (a + b).filter(p) == a.filter(p) + b.filter(p),
    decreases b.len(),
{
    if b.len() == 0 {
        assert(a + b =~= a);
        assert(a.filter(p) + b.filter(p) =~= a.filter(p));
    } else {
        let init = b.drop_last();
        lemma_filter_append(a, init, p);
        assert(a + b =~= (a + init).push(b.last()));
        assert(b =~= init.push(b.last()));
        (a + init).lemma_filter_push(b.last(), p);
        init.lemma_filter_push(b.last(), p);
        assert((a.filter(p) + init.filter(p)).push(b.last()) =~= a.filter(p) + init.filter(p).push(b.last()));
    }
}

/// Filtering by two component predicates in turn: the configurations of `c`
/// among those of `c0` are those of `c` when `c == c0`, else none; among
/// those not of `c0`, none when `c == c0`, else those of `c`.
proof fn lemma_filter_twice(s: Seq<AgentMemberConfig>, c0: Uuid, c: Uuid)
    ensures
        c == c0 ==> s.filter(of_component(c0)).filter(of_component(c)) == s.filter(of_component(c)),
        c == c0 ==> s.filter(not_of_component(c0)).filter(of_component(c)).len() == 0,
        c != c0 ==> s.filter(of_component(c0)).filter(of_component(c)).len() == 0,
        c != c0 ==> s.filter(not_of_component(c0)).filter(of_component(c)) == s.filter(of_component(c)),
    decreases s.len(),
{
    if s.len() > 0 {
        let init = s.drop_last();
        let x = s.last();
        lemma_filter_twice(init, c0, c);
        assert(s =~= init.push(x));
        init.lemma_filter_push(x, of_component(c0));
        init.lemma_filter_push(x, not_of_component(c0));
        init.lemma_filter_push(x, of_component(c));
        init.filter(of_component(c0)).lemma_filter_push(x, of_component(c));
        init.filter(not_of_component(c0)).lemma_filter_push(x, of_component(c));
    }
}

proof fn lemma_filter_split_len(s: Seq<AgentMemberConfig>, c: Uuid)
    ensures
        s.filter(of_component(c)).len() + s.filter(not_of_component(c)).len() == s.len(),
    decreases s.len(),
{
    if s.len() > 0 {
        let init = s.drop_last();
        lemma_filter_split_len(init, c);
        assert(s =~= init.push(s.last()));
        init.lemma_filter_push(s.last(), of_component(c));
        init.lemma_filter_push(s.last(), not_of_component(c));
    }
}

/// Grouping keeps every configuration: as many come out as went in, and the
/// configurations of each component come out all of them, in the order read.
pub proof fn law_grouping_keeps_each_component(s: Seq<AgentMemberConfig>, c: Uuid)
    ensures
        grouped_by_component(s).len() == s.len(),
        grouped_by_component(s).filter(of_component(c)) == s.filter(of_component(c)),
    decreases s.len(),
{
    if s.len() > 0 {
        let c0 = s[0].component_id;
        let same = s.filter(of_component(c0));
        let others = s.filter(not_of_component(c0));
        lemma_others_shorter(s);
        law_grouping_keeps_each_component(others, c);
        lemma_filter_split_len(s, c0);
        let rest = grouped_by_component(others);
        assert(grouped_by_component(s) == same + rest);
        lemma_filter_append(same, rest, of_component(c));
        lemma_filter_twice(s, c0, c);
        if c == c0 {
            assert(others.filter(of_component(c)) =~= Seq::<AgentMemberConfig>::empty());
            assert(same.filter(of_component(c)) + rest.filter(of_component(c)) =~= same.filter(of_component(c)));
        } else {
            assert(same.filter(of_component(c)) =~= Seq::<AgentMemberConfig>::empty());
            assert(same.filter(of_component(c)) + rest.filter(of_component(c)) =~= others.filter(of_component(c)));
        }
    }
}

/// Splits the configurations into those of component `c` and the others,
/// each in the order read.
fn split_by_component(v: Vec<AgentMemberConfig>, c: &Uuid) -> (r: (Vec<AgentMemberConfig>, Vec<AgentMemberConfig>))
    ensures
        r.0@ == v@.filter(of_component(*c)),
        r.1@ == v@.filter(not_of_component(*c)),
{
    let ghost given = v@;
    let mut rest = v;
    let mut same: Vec<AgentMemberConfig> = Vec::new();
    let mut others: Vec<AgentMemberConfig> = Vec::new();
    let n: usize = rest.len();
    let mut k: usize = 0;
    while k < n
        invariant
            n == given.len(),
            k <= n,
            rest@ == given.subrange(k as int, n as int),
            same@ == given.take(k as int).filter(of_component(*c)),
            others@ == given.take(k as int).filter(not_of_component(*c)),
        decreases n - k,
    {
        let x = rest.remove(0);
        assert(given.take(k + 1) =~= given.take(k as int).push(x));
        proof {
            given.take(k as int).lemma_filter_push(x, of_component(*c));
            given.take(k as int).lemma_filter_push(x, not_of_component(*c));
        }
        if same_uuid(&x.component_id, c) {
            same.push(x);
        } else {
            others.push(x);
        }
        assert(rest@ =~= given.subrange(k + 1, n as int));
        k = k + 1;
    }
    assert(given.take(n as int) =~= given);
    (same, others)
}

/// Groups the configurations by component (see `grouped_by_component`).
pub fn group_by_component(configs: Vec<AgentMemberConfig>) -> (r: Vec<AgentMemberConfig>)
    ensures
        r@ == grouped_by_component(configs@),
{
    let ghost given = configs@;
    let mut rest = configs;
    let mut out: Vec<AgentMemberConfig> = Vec::new();
    while rest.len() > 0
        invariant
            out@ + grouped_by_component(rest@) == grouped_by_component(given),
        decreases rest@.len(),
    {
        let c: Uuid = rest[0].component_id;
        let ghost before = rest@;
        proof {
            lemma_others_shorter(before);
        }
        let (mut same, others) = split_by_component(rest, &c);
        let ghost prev = out@;
        out.append(&mut same);
        rest = others;
        assert(out@ + grouped_by_component(rest@) =~= prev + grouped_by_component(before));
    }
    assert(grouped_by_component(rest@) =~= Seq::<AgentMemberConfig>::empty());
    assert(out@ =~= out@ + grouped_by_component(rest@));
    out
}

} // verus!
