//! Structural matching of rule patterns against query items. Fragment spreads
//! on the query side are expanded through the fragment table; pattern
//! variables bind the values they meet in a capture store.
use vstd::prelude::*;
use crate::ast::{
    same_kind, Directive, FragmentDefinition, Selection, Value, ValueView,
};
use crate::captures::Captures;

verus! {

/// Bindings by name.
pub type Bindings = Map<Seq<char>, ValueView>;

/// The outcome of a match attempt and the bindings after it. `Ok(false)` is
/// a non-match; `Err(())` is a binding error: a variable met a value of
/// another kind than it was bound to, or a spread names no fragment (or
/// fragments spread each other without end).
pub type Outcome = (Result<bool, ()>, Bindings);

/// A pattern value against an observed one. A variable binds the value the
/// first time; after that it matches only an equal value of the same kind.
pub open spec fn match_value(p: ValueView, o: ValueView, c: Bindings) -> Outcome {
    match p {
        ValueView::Variable(name) => {
            if c.contains_key(name) {
                if same_kind(c[name], o) {
                    (Ok(c[name] == o), c)
                } else {
                    (Err(()), c)
                }
            } else {
                (Ok(true), c.insert(name, o))
            }
        },
        _ => (Ok(p == o), c),
    }
}

/// The value of the first argument named `name`, from position `j` on.
pub open spec fn find_argument(args: Seq<(String, Value)>, name: Seq<char>, j: int) -> Option<
    ValueView,
>
    decreases args.len() - j,
{
    if j < 0 || j >= args.len() {
        None
    } else if args[j].0@ == name {
        Some(args[j].1@)
    } else {
        find_argument(args, name, j + 1)
    }
}

/// Each pattern argument from position `i` on against the query's argument
/// of that name; arguments the pattern does not name are free.
pub open spec fn match_arguments(
    ps: Seq<(String, Value)>,
    os: Seq<(String, Value)>,
    i: int,
    c: Bindings,
) -> Outcome
    decreases ps.len() - i,
{
    if i < 0 || i >= ps.len() {
        (Ok(true), c)
    } else {
        match find_argument(os, ps[i].0@, 0) {
            None => (Ok(false), c),
            Some(o) => {
                let (r, c2) = match_value(ps[i].1@, o, c);
                if r == Ok::<bool, ()>(true) {
                    match_arguments(ps, os, i + 1, c2)
                } else {
                    (r, c2)
                }
            },
        }
    }
}

/// A directive pattern: the same name, and its arguments matched.
pub open spec fn match_directive(p: Directive, o: Directive, c: Bindings) -> Outcome {
    if p.name@ == o.name@ {
        match_arguments(p.arguments@, o.arguments@, 0, c)
    } else {
        (Ok(false), c)
    }
}

/// The first fragment named `name`, from position `j` on.
pub open spec fn find_fragment(frags: Seq<FragmentDefinition>, name: Seq<char>, j: int) -> Option<
    FragmentDefinition,
>
    decreases frags.len() - j,
{
    if j < 0 || j >= frags.len() {
        None
    } else if frags[j].name@ == name {
        Some(frags[j])
    } else {
        find_fragment(frags, name, j + 1)
    }
}

pub open spec fn is_spread(s: Selection) -> bool {
    s is FragmentSpread
}

/// Whether a query selection is the one a pattern selection speaks of: a
/// field of the same name (and alias, where the pattern gives one), a spread
/// of the same fragment, an inline fragment on the same type (where the
/// pattern gives one).
pub open spec fn same_subject(p: Selection, q: Selection) -> bool {
    match (p, q) {
        (Selection::Field(a), Selection::Field(b)) => a.name@ == b.name@ && match a.alias {
            None => true,
            Some(x) => match b.alias {
                Some(y) => x@ == y@,
                None => false,
            },
        },
        (Selection::FragmentSpread(a), Selection::FragmentSpread(b)) => a.fragment_name@
            == b.fragment_name@,
        (Selection::InlineFragment(a), Selection::InlineFragment(b)) => match a.type_condition {
            None => true,
            Some(x) => match b.type_condition {
                Some(y) => x@ == y@,
                None => false,
            },
        },
        _ => false,
    }
}

/// A pattern selection against the first selection of `qs` (from position
/// `j` on, spreads expanded in place) that it speaks of; `None` where there
/// is none. That first selection decides: later ones are not tried. At most
/// `fuel` spreads are expanded one inside another.
pub open spec fn search(
    p: Selection,
    qs: Seq<Selection>,
    j: int,
    frags: Seq<FragmentDefinition>,
    fuel: nat,
    c: Bindings,
) -> Option<Outcome>
    decreases fuel, qs, qs.len() - j,
{
    if j < 0 || j >= qs.len() {
        None
    } else if is_spread(qs[j]) && !is_spread(p) {
        match find_fragment(frags, qs[j]->FragmentSpread_0.fragment_name@, 0) {
            None => Some((Err(()), c)),
            Some(f) => {
                if fuel == 0 {
                    Some((Err(()), c))
                } else {
                    match search(p, f.selection_set.items@, 0, frags, (fuel - 1) as nat, c) {
                        Some(r) => Some(r),
                        None => search(p, qs, j + 1, frags, fuel, c),
                    }
                }
            },
        }
    } else if same_subject(p, qs[j]) {
        Some(match_body(p, qs[j], frags, fuel, c))
    } else {
        search(p, qs, j + 1, frags, fuel, c)
    }
}

/// A pattern selection against the query selection it speaks of: the
/// arguments of a field, then the children of a field or inline fragment,
/// each child pattern against the child it speaks of.
pub open spec fn match_body(
    p: Selection,
    q: Selection,
    frags: Seq<FragmentDefinition>,
    fuel: nat,
    c: Bindings,
) -> Outcome
    decreases fuel, q, 0int,
{
    match (p, q) {
        (Selection::Field(a), Selection::Field(b)) => {
            let (r, c2) = match_arguments(a.arguments@, b.arguments@, 0, c);
            if r == Ok::<bool, ()>(true) {
                match_children(
                    a.selection_set.items@,
                    b.selection_set.items@,
                    0,
                    frags,
                    fuel,
                    c2,
                )
            } else {
                (r, c2)
            }
        },
        (Selection::InlineFragment(a), Selection::InlineFragment(b)) => match_children(
            a.selection_set.items@,
            b.selection_set.items@,
            0,
            frags,
            fuel,
            c,
        ),
        _ => (Ok(true), c),
    }
}

/// Each child pattern from position `i` on against the query children.
pub open spec fn match_children(
    ps: Seq<Selection>,
    qs: Seq<Selection>,
    i: int,
    frags: Seq<FragmentDefinition>,
    fuel: nat,
    c: Bindings,
) -> Outcome
    decreases fuel, qs, qs.len() + 1 + ps.len() - i,
{
    if i < 0 || i >= ps.len() {
        (Ok(true), c)
    } else {
        match search(ps[i], qs, 0, frags, fuel, c) {
            None => (Ok(false), c),
            Some((Ok(true), c2)) => match_children(ps, qs, i + 1, frags, fuel, c2),
            Some(r) => r,
        }
    }
}

/// A pattern selection against one query selection, expanding it where it is
/// a spread and the pattern is not.
pub open spec fn match_selection(
    p: Selection,
    q: Selection,
    frags: Seq<FragmentDefinition>,
    c: Bindings,
) -> Outcome {
    let fuel = frags.len();
    if is_spread(q) && !is_spread(p) {
        match find_fragment(frags, q->FragmentSpread_0.fragment_name@, 0) {
            None => (Err(()), c),
            Some(f) => {
                if fuel == 0 {
                    (Err(()), c)
                } else {
                    match search(p, f.selection_set.items@, 0, frags, (fuel - 1) as nat, c) {
                        Some(r) => r,
                        None => (Ok(false), c),
                    }
                }
            },
        }
    } else if same_subject(p, q) {
        match_body(p, q, frags, fuel, c)
    } else {
        (Ok(false), c)
    }
}


/// Matches one pattern value against an observed value.
pub fn match_pattern_value(p: &Value, o: &Value, caps: &mut Captures) -> (r: Result<bool, ()>)
    requires
        old(caps).wf(),
    ensures
        final(caps).wf(),
        (r, final(caps)@) == match_value(p@, o@, old(caps)@),
{
    match p {
        Value::Variable(name) => {
            match caps.lookup(name.as_str()) {
                Some(bound) => {
                    if bound.same_kind_as(o) {
                        Ok(bound.equals(o))
                    } else {
                        Err(())
                    }
                },
                None => {
                    caps.insert(name.clone(), o.duplicate());
                    Ok(true)
                },
            }
        },
        _ => Ok(p.equals(o)),
    }
}

fn argument_named<'a>(args: &'a Vec<(String, Value)>, name: &String) -> (r: Option<&'a Value>)
    ensures
        match r {
            Some(v) => find_argument(args@, name@, 0) == Some(v@),
            None => find_argument(args@, name@, 0) is None,
        },
{
    let mut i: usize = 0;
    while i < args.len()
        invariant
            i <= args@.len(),
            find_argument(args@, name@, 0) == find_argument(args@, name@, i as int),
        decreases args@.len() - i,
    {
        if args[i].0 == *name {
            return Some(&args[i].1);
        }
        i = i + 1;
    }
    None
}

fn match_argument_list(
    ps: &Vec<(String, Value)>,
    os: &Vec<(String, Value)>,
    caps: &mut Captures,
) -> (r: Result<bool, ()>)
    requires
        old(caps).wf(),
    ensures
        final(caps).wf(),
        (r, final(caps)@) == match_arguments(ps@, os@, 0, old(caps)@),
{
    let mut i: usize = 0;
    while i < ps.len()
        invariant
            i <= ps@.len(),
            caps.wf(),
            match_arguments(ps@, os@, 0, old(caps)@) == match_arguments(ps@, os@, i as int, caps@),
        decreases ps@.len() - i,
    {
        match argument_named(os, &ps[i].0) {
            None => {
                return Ok(false);
            },
            Some(o) => {
                let r = match_pattern_value(&ps[i].1, o, caps);
                match r {
                    Ok(true) => {},
                    _ => {
                        return r;
                    },
                }
            },
        }
        i = i + 1;
    }
    Ok(true)
}

/// Matches a directive pattern against a query directive.
pub fn match_directives(p: &Directive, o: &Directive, caps: &mut Captures) -> (r: Result<bool, ()>)
    requires
        old(caps).wf(),
    ensures
        final(caps).wf(),
        (r, final(caps)@) == match_directive(*p, *o, old(caps)@),
{
    if p.name == o.name {
        match_argument_list(&p.arguments, &o.arguments, caps)
    } else {
        Ok(false)
    }
}

fn fragment_named<'a>(frags: &'a [FragmentDefinition], name: &String) -> (r: Option<
    &'a FragmentDefinition,
>)
    ensures
        match r {
            Some(f) => find_fragment(frags@, name@, 0) == Some(*f),
            None => find_fragment(frags@, name@, 0) is None,
        },
{
    let mut i: usize = 0;
    while i < frags.len()
        invariant
            i <= frags@.len(),
            find_fragment(frags@, name@, 0) == find_fragment(frags@, name@, i as int),
        decreases frags@.len() - i,
    {
        if frags[i].name == *name {
            return Some(&frags[i]);
        }
        i = i + 1;
    }
    None
}

fn speaks_of(p: &Selection, q: &Selection) -> (r: bool)
    ensures
        r == same_subject(*p, *q),
{
    match (p, q) {
        (Selection::Field(a), Selection::Field(b)) => {
            a.name == b.name && match &a.alias {
                None => true,
                Some(x) => match &b.alias {
                    Some(y) => *x == *y,
                    None => false,
                },
            }
        },
        (Selection::FragmentSpread(a), Selection::FragmentSpread(b)) => {
            a.fragment_name == b.fragment_name
        },
        (Selection::InlineFragment(a), Selection::InlineFragment(b)) => match &a.type_condition {
            None => true,
            Some(x) => match &b.type_condition {
                Some(y) => *x == *y,
                None => false,
            },
        },
        _ => false,
    }
}

fn search_selections(
    p: &Selection,
    qs: &Vec<Selection>,
    j: usize,
    frags: &[FragmentDefinition],
    fuel: usize,
    caps: &mut Captures,
) -> (r: Option<Result<bool, ()>>)
    requires
        old(caps).wf(),
    ensures
        final(caps).wf(),
        match r {
            Some(x) => search(*p, qs@, j as int, frags@, fuel as nat, old(caps)@) == Some(
                (x, final(caps)@),
            ),
            None => search(*p, qs@, j as int, frags@, fuel as nat, old(caps)@) is None
                && final(caps)@ == old(caps)@,
        },
    decreases fuel, qs@, qs@.len() - j,
{
    if j >= qs.len() {
        return None;
    }
    let q = &qs[j];
    let p_spread = match p {
        Selection::FragmentSpread(_) => true,
        _ => false,
    };
    match q {
        Selection::FragmentSpread(spread) => {
            if !p_spread {
                match fragment_named(frags, &spread.fragment_name) {
                    None => {
                        return Some(Err(()));
                    },
                    Some(f) => {
                        if fuel == 0 {
                            return Some(Err(()));
                        }
                        let r = search_selections(p, &f.selection_set.items, 0, frags, fuel - 1, caps);
                        match r {
                            Some(_) => {
                                return r;
                            },
                            None => {
                                return search_selections(p, qs, j + 1, frags, fuel, caps);
                            },
                        }
                    },
                }
            }
        },
        _ => {},
    }
    if speaks_of(p, q) {
        Some(match_selection_body(p, q, frags, fuel, caps))
    } else {
        search_selections(p, qs, j + 1, frags, fuel, caps)
    }
}

fn match_selection_body(
    p: &Selection,
    q: &Selection,
    frags: &[FragmentDefinition],
    fuel: usize,
    caps: &mut Captures,
) -> (r: Result<bool, ()>)
    requires
        old(caps).wf(),
    ensures
        final(caps).wf(),
        (r, final(caps)@) == match_body(*p, *q, frags@, fuel as nat, old(caps)@),
    decreases fuel, *q, 0int,
{
    match (p, q) {
        (Selection::Field(a), Selection::Field(b)) => {
            let r = match_argument_list(&a.arguments, &b.arguments, caps);
            match r {
                Ok(true) => match_child_selections(
                    &a.selection_set.items,
                    &b.selection_set.items,
                    0,
                    frags,
                    fuel,
                    caps,
                ),
                _ => r,
            }
        },
        (Selection::InlineFragment(a), Selection::InlineFragment(b)) => match_child_selections(
            &a.selection_set.items,
            &b.selection_set.items,
            0,
            frags,
            fuel,
            caps,
        ),
        _ => Ok(true),
    }
}

fn match_child_selections(
    ps: &Vec<Selection>,
    qs: &Vec<Selection>,
    i: usize,
    frags: &[FragmentDefinition],
    fuel: usize,
    caps: &mut Captures,
) -> (r: Result<bool, ()>)
    requires
        old(caps).wf(),
    ensures
        final(caps).wf(),
        (r, final(caps)@) == match_children(ps@, qs@, i as int, frags@, fuel as nat, old(caps)@),
    decreases fuel, qs@, qs@.len() + 1 + ps@.len() - i,
{
    if i >= ps.len() {
        return Ok(true);
    }
    match search_selections(&ps[i], qs, 0, frags, fuel, caps) {
        None => Ok(false),
        Some(Ok(true)) => match_child_selections(ps, qs, i + 1, frags, fuel, caps),
        Some(r) => r,
    }
}

/// Matches a selection pattern against a query selection.
pub fn match_selections(
    p: &Selection,
    q: &Selection,
    frags: &[FragmentDefinition],
    caps: &mut Captures,
) -> (r: Result<bool, ()>)
    requires
        old(caps).wf(),
    ensures
        final(caps).wf(),
        (r, final(caps)@) == match_selection(*p, *q, frags@, old(caps)@),
{
    let fuel = frags.len();
    let p_spread = match p {
        Selection::FragmentSpread(_) => true,
        _ => false,
    };
    match q {
        Selection::FragmentSpread(spread) => {
            if !p_spread {
                match fragment_named(frags, &spread.fragment_name) {
                    None => {
                        return Err(());
                    },
                    Some(f) => {
                        if fuel == 0 {
                            return Err(());
                        }
                        return match search_selections(p, &f.selection_set.items, 0, frags, fuel - 1, caps) {
                            Some(r) => r,
                            None => Ok(false),
                        };
                    },
                }
            }
        },
        _ => {},
    }
    if speaks_of(p, q) {
        match_selection_body(p, q, frags, fuel, caps)
    } else {
        Ok(false)
    }
}

} // verus!
