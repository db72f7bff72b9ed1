//! Rules: a statement pairs a predicate (a pattern and an optional guard)
//! with a cost formula; a document is an ordered list of statements.
use vstd::prelude::*;
use crate::ast::{Directive, FragmentDefinition, Query, Selection, SelectionSet};
use crate::captures::Captures;
use crate::expressions::{condition_value, linear_value, Condition, LinearExpression};
use crate::matching::{
    match_directive, match_directives, match_selection, match_selections, Bindings, Outcome,
};
use crate::number::Number;

verus! {

/// A directive or a selection at the top of a query (or of a pattern).
#[derive(Debug)]
pub enum TopLevelQueryItem {
    Directive(Directive),
    Selection(Selection),
}

/// The guard of a predicate.
#[derive(Debug)]
pub struct WhenClause {
    pub condition: Condition,
}

/// A pattern and an optional guard.
#[derive(Debug)]
pub struct Predicate {
    pub graphql: TopLevelQueryItem,
    pub when_clause: Option<WhenClause>,
}

/// A rule: where its predicate holds, its cost formula gives the cost.
#[derive(Debug)]
pub struct Statement {
    pub predicate: Predicate,
    pub cost_expr: LinearExpression,
}

/// The rules, in order.
#[derive(Debug)]
pub struct Document {
    pub statements: Vec<Statement>,
}

/// A pattern item against a query item: directives against directives,
/// selections against selections, and no match across the two kinds.
pub open spec fn item_match(
    p: TopLevelQueryItem,
    q: TopLevelQueryItem,
    frags: Seq<FragmentDefinition>,
    c: Bindings,
) -> Outcome {
    match (p, q) {
        (TopLevelQueryItem::Directive(a), TopLevelQueryItem::Directive(b)) => match_directive(
            a,
            b,
            c,
        ),
        (TopLevelQueryItem::Selection(a), TopLevelQueryItem::Selection(b)) => match_selection(
            a,
            b,
            frags,
            c,
        ),
        _ => (Ok(false), c),
    }
}

/// A predicate against a query item, from no bindings: the structural match,
/// then the guard (where there is one) over the bindings it made.
pub open spec fn predicate_match(
    p: Predicate,
    q: TopLevelQueryItem,
    frags: Seq<FragmentDefinition>,
) -> Outcome {
    let (r, c) = item_match(p.graphql, q, frags, Map::empty());
    if r == Ok::<bool, ()>(true) {
        match p.when_clause {
            None => (Ok(true), c),
            Some(w) => match condition_value(w.condition, c) {
                Some(b) => (Ok(b), c),
                None => (Err(()), c),
            },
        }
    } else {
        (r, c)
    }
}

/// The cost a statement gives a query item: `Ok(None)` where its predicate
/// does not hold, `Err(())` on a binding or evaluation error.
pub open spec fn statement_cost(
    s: Statement,
    q: TopLevelQueryItem,
    frags: Seq<FragmentDefinition>,
) -> Result<Option<int>, ()> {
    let (r, c) = predicate_match(s.predicate, q, frags);
    match r {
        Err(()) => Err(()),
        Ok(false) => Ok(None),
        Ok(true) => match linear_value(s.cost_expr, c) {
            Some(v) => Ok(Some(v)),
            None => Err(()),
        },
    }
}

/// Whether an executable cost result is the one `statement_cost` gives.
pub open spec fn cost_result_is(r: Result<Option<Number>, ()>, expected: Result<Option<int>, ()>) -> bool {
    match r {
        Ok(Some(n)) => expected == Ok::<Option<int>, ()>(Some(n@)),
        Ok(None) => expected == Ok::<Option<int>, ()>(None),
        Err(()) => expected == Err::<Option<int>, ()>(()),
    }
}

pub open spec fn directive_items(ds: Seq<Directive>) -> Seq<TopLevelQueryItem> {
    ds.map_values(|d: Directive| TopLevelQueryItem::Directive(d))
}

pub open spec fn selection_items(ss: Seq<Selection>) -> Seq<TopLevelQueryItem> {
    ss.map_values(|s: Selection| TopLevelQueryItem::Selection(s))
}

impl TopLevelQueryItem {
    pub fn match_with_vars(
        &self,
        other: &TopLevelQueryItem,
        fragments: &[FragmentDefinition],
        capture: &mut Captures,
    ) -> (r: Result<bool, ()>)
        requires
            old(capture).wf(),
        ensures
            final(capture).wf(),
            (r, final(capture)@) == item_match(*self, *other, fragments@, old(capture)@),
    {
        match (self, other) {
            (TopLevelQueryItem::Directive(s), TopLevelQueryItem::Directive(o)) => {
                match_directives(s, o, capture)
            },
            (TopLevelQueryItem::Selection(s), TopLevelQueryItem::Selection(o)) => {
                match_selections(s, o, fragments, capture)
            },
            _ => Ok(false),
        }
    }

    /// The top-level items of a query: its directives, then its outermost
    /// selections.
    pub fn from_query(query: Query) -> (r: Vec<TopLevelQueryItem>)
        ensures
            r@ == directive_items(query.directives@) + selection_items(
                query.selection_set.items@,
            ),
    {
        let ghost ds0 = query.directives@;
        let mut directives = query.directives;
        let mut result: Vec<TopLevelQueryItem> = Vec::new();
        while directives.len() > 0
            invariant
                directives@.len() <= ds0.len(),
                directives@ == ds0.subrange(ds0.len() - directives@.len(), ds0.len() as int),
                result@ == directive_items(ds0.subrange(0, ds0.len() - directives@.len())),
            decreases directives@.len(),
        {
            let ghost k = ds0.len() - directives@.len();
            let d = directives.remove(0);
            result.push(TopLevelQueryItem::Directive(d));
            proof {
                assert(directives@ =~= ds0.subrange(k + 1, ds0.len() as int));
                assert(result@ =~= directive_items(ds0.subrange(0, k + 1)));
            }
        }
        proof {
            assert(ds0.subrange(0, ds0.len() as int) =~= ds0);
        }
        let mut rest = TopLevelQueryItem::from_selection_set(query.selection_set);
        result.append(&mut rest);
        result
    }

    /// The selections of a selection set, as top-level items.
    pub fn from_selection_set(selection_set: SelectionSet) -> (r: Vec<TopLevelQueryItem>)
        ensures
            r@ == selection_items(selection_set.items@),
    {
        let ghost ss0 = selection_set.items@;
        let mut selections = selection_set.items;
        let mut result: Vec<TopLevelQueryItem> = Vec::new();
        while selections.len() > 0
            invariant
                selections@.len() <= ss0.len(),
                selections@ == ss0.subrange(ss0.len() - selections@.len(), ss0.len() as int),
                result@ == selection_items(ss0.subrange(0, ss0.len() - selections@.len())),
            decreases selections@.len(),
        {
            let ghost k = ss0.len() - selections@.len();
            let s = selections.remove(0);
            result.push(TopLevelQueryItem::Selection(s));
            proof {
                assert(selections@ =~= ss0.subrange(k + 1, ss0.len() as int));
                assert(result@ =~= selection_items(ss0.subrange(0, k + 1)));
            }
        }
        proof {
            assert(ss0.subrange(0, ss0.len() as int) =~= ss0);
        }
        result
    }
}

impl Predicate {
    /// Clears `captures`, matches the pattern against `item`, and on a match
    /// checks the guard over the bindings the match made.
    pub fn match_with_vars(
        &self,
        item: &TopLevelQueryItem,
        fragments: &[FragmentDefinition],
        captures: &mut Captures,
    ) -> (r: Result<bool, ()>)
        requires
            old(captures).wf(),
        ensures
            final(captures).wf(),
            (r, final(captures)@) == predicate_match(*self, *item, fragments@),
    {
        captures.clear();
        let m = self.graphql.match_with_vars(item, fragments, captures);
        match m {
            Ok(true) => {},
            _ => {
                return m;
            },
        }
        match &self.when_clause {
            None => Ok(true),
            Some(when_clause) => {
                let g = when_clause.condition.eval(captures);
                match g {
                    Ok(b) => Ok(b),
                    Err(()) => Err(()),
                }
            },
        }
    }
}

impl Statement {
    /// The cost of `query` under this rule: `Ok(None)` where the rule does
    /// not apply.
    pub fn try_cost(
        &self,
        query: &TopLevelQueryItem,
        fragments: &[FragmentDefinition],
        captures: &mut Captures,
    ) -> (r: Result<Option<Number>, ()>)
        requires
            old(captures).wf(),
        ensures
            final(captures).wf(),
            final(captures)@ == predicate_match(self.predicate, *query, fragments@).1,
            cost_result_is(r, statement_cost(*self, *query, fragments@)),
    {
        let m = self.predicate.match_with_vars(query, fragments, captures);
        match m {
            Err(()) => Err(()),
            Ok(false) => Ok(None),
            Ok(true) => match self.cost_expr.eval(captures) {
                Ok(n) => Ok(Some(n)),
                Err(()) => Err(()),
            },
        }
    }
}

impl Document {
    /// The cost each statement gives each item: entry `[i][s]` is statement
    /// `s` tried on item `i`. An error stays in its own entry.
    pub fn evaluate(
        &self,
        items: &[TopLevelQueryItem],
        fragments: &[FragmentDefinition],
    ) -> (r: Vec<Vec<Result<Option<Number>, ()>>>)
        ensures
            r@.len() == items@.len(),
            forall|i: int| 0 <= i < items@.len() ==> (#[trigger] r@[i])@.len() == self.statements@.len(),
            forall|i: int, s: int| 0 <= i < items@.len() && 0 <= s < self.statements@.len() ==>
                cost_result_is(#[trigger] r@[i]@[s], statement_cost(self.statements@[s], items@[i], fragments@)),
    {
        let mut captures = Captures::new();
        let mut result: Vec<Vec<Result<Option<Number>, ()>>> = Vec::new();
        let mut i: usize = 0;
        while i < items.len()
            invariant
                i <= items@.len(),
                captures.wf(),
                result@.len() == i,
                forall|k: int| 0 <= k < i ==> (#[trigger] result@[k])@.len() == self.statements@.len(),
                forall|k: int, s: int| 0 <= k < i && 0 <= s < self.statements@.len() ==>
                    cost_result_is(#[trigger] result@[k]@[s], statement_cost(self.statements@[s], items@[k], fragments@)),
            decreases items@.len() - i,
        {
            let mut row: Vec<Result<Option<Number>, ()>> = Vec::new();
            let mut s: usize = 0;
            while s < self.statements.len()
                invariant
                    i < items@.len(),
                    s <= self.statements@.len(),
                    captures.wf(),
                    row@.len() == s,
                    forall|t: int| 0 <= t < s ==>
                        cost_result_is(#[trigger] row@[t], statement_cost(self.statements@[t], items@[i as int], fragments@)),
                decreases self.statements@.len() - s,
            {
                let c = self.statements[s].try_cost(&items[i], fragments, &mut captures);
                row.push(c);
                s = s + 1;
            }
            result.push(row);
            i = i + 1;
        }
        result
    }
}

} // verus!
