//! Facts about matching and costing that hold for every input.
use vstd::prelude::*;
use crate::ast::{same_kind, Directive, FragmentDefinition, Selection, ValueView};
use crate::expressions::{int_capture, linear_value, LinearExpression, LinearOperator};
use crate::language::{item_match, predicate_match, statement_cost, Predicate, Statement, TopLevelQueryItem};
use crate::matching::{
    find_argument, find_fragment, is_spread, match_children, match_directive, match_selection, search,
    Bindings,
};

verus! {

/// A pattern never matches an item of the other kind (directive against
/// selection, or the reverse), and the attempt binds nothing.
pub proof fn lemma_kind_mismatch(
    p: Predicate,
    q: TopLevelQueryItem,
    frags: Seq<FragmentDefinition>,
    c: Bindings,
)
    requires
        (p.graphql is Directive) != (q is Directive),
    ensures
        item_match(p.graphql, q, frags, c) == (Ok::<bool, ()>(false), c),
        predicate_match(p, q, frags) == (Ok::<bool, ()>(false), Map::<Seq<char>, ValueView>::empty()),
{
}

/// Clearing a store and then matching gives the same outcome and bindings,
/// whatever the store held before.
pub proof fn lemma_match_after_clear(
    p: Predicate,
    q: TopLevelQueryItem,
    frags: Seq<FragmentDefinition>,
    c1: Bindings,
    c2: Bindings,
)
    ensures
        item_match(p.graphql, q, frags, c1.remove_keys(c1.dom())) == item_match(
            p.graphql,
            q,
            frags,
            c2.remove_keys(c2.dom()),
        ),
        item_match(p.graphql, q, frags, c1.remove_keys(c1.dom())) == item_match(
            p.graphql,
            q,
            frags,
            Map::empty(),
        ),
{
    assert(c1.remove_keys(c1.dom()) =~= Map::empty());
    assert(c2.remove_keys(c2.dom()) =~= Map::empty());
}

/// A variable written at two arguments of a directive pattern matches only
/// where the query gives both arguments equal values; values of one kind that
/// differ are a non-match, not an error.
pub proof fn lemma_reused_variable(p: Directive, o: Directive, name: Seq<char>, v1: ValueView, v2: ValueView, c: Bindings)
    requires
        p.name@ == o.name@,
        p.arguments@.len() == 2,
        p.arguments@[0].1@ == ValueView::Variable(name),
        p.arguments@[1].1@ == ValueView::Variable(name),
        find_argument(o.arguments@, p.arguments@[0].0@, 0) == Some(v1),
        find_argument(o.arguments@, p.arguments@[1].0@, 0) == Some(v2),
        !c.contains_key(name),
    ensures
        same_kind(v1, v2) ==> match_directive(p, o, c).0 == Ok::<bool, ()>(v1 == v2),
        !same_kind(v1, v2) ==> match_directive(p, o, c).0 == Err::<bool, ()>(()),
{
    let ps = p.arguments@;
    let os = o.arguments@;
    let c1 = c.insert(name, v1);
    assert(crate::matching::match_value(ps[0].1@, v1, c) == (Ok::<bool, ()>(true), c1));
    assert(c1[name] == v1);
    assert(crate::matching::match_arguments(ps, os, 2, c1) == (Ok::<bool, ()>(true), c1));
    let second = crate::matching::match_value(ps[1].1@, v2, c1);
    if same_kind(v1, v2) {
        assert(second == (Ok::<bool, ()>(v1 == v2), c1));
    } else {
        assert(second == (Err::<bool, ()>(()), c1));
    }
    assert(crate::matching::match_arguments(ps, os, 1, c1) == second);
    assert(crate::matching::match_arguments(ps, os, 0, c) == crate::matching::match_arguments(ps, os, 1, c1));
}

/// A spread in the query is matched as the selections of its fragment:
/// where the table holds the fragment, matching a non-spread pattern against
/// the spread is searching the fragment's selections; where it does not, the
/// match is an error.
pub proof fn lemma_spread_transparent(p: Selection, q: Selection, frags: Seq<FragmentDefinition>, c: Bindings)
    requires
        q is FragmentSpread,
        !(p is FragmentSpread),
    ensures
        find_fragment(frags, q->FragmentSpread_0.fragment_name@, 0) is None ==> match_selection(
            p,
            q,
            frags,
            c,
        ) == (Err::<bool, ()>(()), c),
        find_fragment(frags, q->FragmentSpread_0.fragment_name@, 0) is Some ==> match_selection(
            p,
            q,
            frags,
            c,
        ) == match search(
            p,
            find_fragment(frags, q->FragmentSpread_0.fragment_name@, 0)->0.selection_set.items@,
            0,
            frags,
            (frags.len() - 1) as nat,
            c,
        ) {
            Some(r) => r,
            None => (Ok::<bool, ()>(false), c),
        },
{
    if find_fragment(frags, q->FragmentSpread_0.fragment_name@, 0) is Some {
        lemma_found_fragment_in_table(frags, q->FragmentSpread_0.fragment_name@, 0);
    }
}

/// A selection list that is one spread of a fragment in the table offers
/// each pattern child exactly what the fragment's own selections offer (the
/// expansion taking one step of the nesting bound).
pub proof fn lemma_spread_children_inline(
    ps: Seq<Selection>,
    qs: Seq<Selection>,
    f: FragmentDefinition,
    frags: Seq<FragmentDefinition>,
    fuel: nat,
    i: int,
    c: Bindings,
)
    requires
        0 <= i,
        qs.len() == 1,
        qs[0] is FragmentSpread,
        find_fragment(frags, qs[0]->FragmentSpread_0.fragment_name@, 0) == Some(f),
        forall|k: int| 0 <= k < ps.len() ==> !is_spread(#[trigger] ps[k]),
    ensures
        match_children(ps, qs, i, frags, fuel + 1, c) == match_children(
            ps,
            f.selection_set.items@,
            i,
            frags,
            fuel,
            c,
        ),
    decreases ps.len() - i,
{
    if i < ps.len() {
        let fs = f.selection_set.items@;
        assert(!is_spread(ps[i]));
        assert(((fuel + 1) - 1) as nat == fuel);
        assert(search(ps[i], qs, 1, frags, fuel + 1, c) is None);
        assert(search(ps[i], qs, 0, frags, fuel + 1, c) == search(ps[i], fs, 0, frags, fuel, c));
        match search(ps[i], fs, 0, frags, fuel, c) {
            Some((Ok(true), c2)) => {
                lemma_spread_children_inline(ps, qs, f, frags, fuel, i + 1, c2);
            },
            _ => {},
        }
    }
}

proof fn lemma_found_fragment_in_table(frags: Seq<FragmentDefinition>, name: Seq<char>, j: int)
    requires
        find_fragment(frags, name, j) is Some,
    ensures
        frags.len() > 0,
    decreases frags.len() - j,
{
    if 0 <= j < frags.len() {
    } else {
        assert(find_fragment(frags, name, j) is None);
    }
}

/// A bound integer times a constant is the exact product, however large.
pub proof fn lemma_product_exact(e: LinearExpression, c: Bindings, n: int)
    requires
        e is BinaryExpression,
        e->BinaryExpression_0 == LinearOperator::Multiply,
        *e->BinaryExpression_1 is Variable,
        *e->BinaryExpression_2 is Const,
        int_capture(c, (*e->BinaryExpression_1)->Variable_0@) == Some(n),
    ensures
        linear_value(e, c) == Some(n * (*e->BinaryExpression_2)->Const_0@),
{
    assert(linear_value(*e->BinaryExpression_1, c) == Some(n));
    assert(linear_value(*e->BinaryExpression_2, c) == Some((*e->BinaryExpression_2)->Const_0@));
}

/// Where the pattern matches but the guard is false, the predicate does not
/// hold and the statement gives no cost, whatever its cost formula.
pub proof fn lemma_false_guard(s: Statement, q: TopLevelQueryItem, frags: Seq<FragmentDefinition>)
    requires
        item_match(s.predicate.graphql, q, frags, Map::empty()).0 == Ok::<bool, ()>(true),
        s.predicate.when_clause is Some,
        crate::expressions::condition_value(
            s.predicate.when_clause->0.condition,
            item_match(s.predicate.graphql, q, frags, Map::empty()).1,
        ) == Some(false),
    ensures
        predicate_match(s.predicate, q, frags).0 == Ok::<bool, ()>(false),
        statement_cost(s, q, frags) == Ok::<Option<int>, ()>(None),
{
}

} // verus!
