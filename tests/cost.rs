use num_bigint::{BigInt, Sign};
use query_cost::ast::{
    Directive, Field, FragmentDefinition, FragmentSpread, InlineFragment, Query, Selection,
    SelectionSet, Value,
};
use query_cost::captures::Captures;
use query_cost::expressions::{
    BooleanOperator, ComparisonOperator, Condition, LinearExpression, LinearOperator,
};
use query_cost::language::{Document, Predicate, Statement, TopLevelQueryItem, WhenClause};
use query_cost::number::Number;

fn int_value(v: i64) -> Value {
    Value::Int(Number::from_i64(v))
}

fn var(name: &str) -> Value {
    Value::Variable(name.to_string())
}

fn field(name: &str, args: Vec<(&str, Value)>, children: Vec<Selection>) -> Selection {
    Selection::Field(Field {
        alias: None,
        name: name.to_string(),
        arguments: args.into_iter().map(|(k, v)| (k.to_string(), v)).collect(),
        selection_set: SelectionSet { items: children },
    })
}

fn spread(name: &str) -> Selection {
    Selection::FragmentSpread(FragmentSpread { fragment_name: name.to_string() })
}

fn fragment(name: &str, items: Vec<Selection>) -> FragmentDefinition {
    FragmentDefinition {
        name: name.to_string(),
        type_condition: "Query".to_string(),
        selection_set: SelectionSet { items },
    }
}

fn directive(name: &str, args: Vec<(&str, Value)>) -> Directive {
    Directive {
        name: name.to_string(),
        arguments: args.into_iter().map(|(k, v)| (k.to_string(), v)).collect(),
    }
}

fn lin_const(v: i64) -> LinearExpression {
    LinearExpression::Const(Number::from_i64(v))
}

fn lin_var(name: &str) -> LinearExpression {
    LinearExpression::Variable(name.to_string())
}

fn lin_op(op: LinearOperator, l: LinearExpression, r: LinearExpression) -> LinearExpression {
    LinearExpression::BinaryExpression(op, Box::new(l), Box::new(r))
}

fn to_bigint(n: &Number) -> BigInt {
    BigInt::from_slice(if n.negative { Sign::Minus } else { Sign::Plus }, &n.digits)
}

fn is_cost(r: &Result<Option<Number>, ()>, expected: i64) -> bool {
    match r {
        Ok(Some(n)) => n.equals(&Number::from_i64(expected)),
        _ => false,
    }
}

fn users_statement() -> Statement {
    Statement {
        predicate: Predicate {
            graphql: TopLevelQueryItem::Selection(field("users", vec![("first", var("n"))], vec![])),
            when_clause: Some(WhenClause {
                condition: Condition::Comparison(
                    ComparisonOperator::Greater,
                    lin_var("$n"),
                    lin_const(100),
                ),
            }),
        },
        cost_expr: lin_op(LinearOperator::Multiply, lin_var("$n"), lin_const(2)),
    }
}

fn users_item(first: i64) -> TopLevelQueryItem {
    TopLevelQueryItem::Selection(field("users", vec![("first", int_value(first))], vec![]))
}

#[test]
fn end_to_end_users_cost() {
    let s = users_statement();
    let mut caps = Captures::new();
    let r = s.try_cost(&users_item(150), &[], &mut caps);
    assert!(is_cost(&r, 300));
    let r = s.try_cost(&users_item(50), &[], &mut caps);
    assert!(matches!(r, Ok(None)));
}

#[test]
fn kind_mismatch_is_no_match_and_binds_nothing() {
    let p = Predicate {
        graphql: TopLevelQueryItem::Directive(directive("limit", vec![("n", var("n"))])),
        when_clause: None,
    };
    let mut caps = Captures::new();
    caps.insert("old".to_string(), int_value(1));
    let r = p.match_with_vars(&users_item(5), &[], &mut caps);
    assert_eq!(r, Ok(false));
    assert!(caps.get("n").is_none());
    assert!(caps.get("old").is_none());

    let p = Predicate {
        graphql: TopLevelQueryItem::Selection(field("users", vec![], vec![])),
        when_clause: None,
    };
    let item = TopLevelQueryItem::Directive(directive("users", vec![]));
    assert_eq!(p.match_with_vars(&item, &[], &mut caps), Ok(false));
}

fn twice_pattern() -> Predicate {
    Predicate {
        graphql: TopLevelQueryItem::Directive(directive("limit", vec![("a", var("x")), ("b", var("x"))])),
        when_clause: None,
    }
}

#[test]
fn reused_variable_equal_values_match() {
    let item = TopLevelQueryItem::Directive(directive("limit", vec![("a", int_value(3)), ("b", int_value(3))]));
    let mut caps = Captures::new();
    assert_eq!(twice_pattern().match_with_vars(&item, &[], &mut caps), Ok(true));
    assert!(matches!(caps.get_int("x"), Some(Ok(n)) if n.equals(&Number::from_i64(3))));
}

#[test]
fn reused_variable_different_values_do_not_match() {
    let item = TopLevelQueryItem::Directive(directive("limit", vec![("a", int_value(3)), ("b", int_value(4))]));
    let mut caps = Captures::new();
    assert_eq!(twice_pattern().match_with_vars(&item, &[], &mut caps), Ok(false));
}

#[test]
fn reused_variable_different_kinds_is_an_error() {
    let item = TopLevelQueryItem::Directive(directive(
        "limit",
        vec![("a", int_value(3)), ("b", Value::Str("3".to_string()))],
    ));
    let mut caps = Captures::new();
    assert_eq!(twice_pattern().match_with_vars(&item, &[], &mut caps), Err(()));
}

#[test]
fn fragment_spread_is_transparent() {
    let frags = vec![fragment("F", vec![field("a", vec![], vec![]), field("b", vec![], vec![])])];
    let query = TopLevelQueryItem::Selection(field("root", vec![], vec![spread("F")]));
    let p = Predicate {
        graphql: TopLevelQueryItem::Selection(field(
            "root",
            vec![],
            vec![field("a", vec![], vec![]), field("b", vec![], vec![])],
        )),
        when_clause: None,
    };
    let mut caps = Captures::new();
    assert_eq!(p.match_with_vars(&query, &frags, &mut caps), Ok(true));

    let top = TopLevelQueryItem::Selection(spread("F"));
    let p = Predicate {
        graphql: TopLevelQueryItem::Selection(field("b", vec![], vec![])),
        when_clause: None,
    };
    assert_eq!(p.match_with_vars(&top, &frags, &mut caps), Ok(true));
}

#[test]
fn missing_fragment_is_an_error() {
    let query = TopLevelQueryItem::Selection(field("root", vec![], vec![spread("F")]));
    let p = Predicate {
        graphql: TopLevelQueryItem::Selection(field("root", vec![], vec![field("a", vec![], vec![])])),
        when_clause: None,
    };
    let mut caps = Captures::new();
    assert_eq!(p.match_with_vars(&query, &[], &mut caps), Err(()));
}

#[test]
fn cyclic_fragments_are_an_error() {
    let frags = vec![fragment("F", vec![spread("G")]), fragment("G", vec![spread("F")])];
    let top = TopLevelQueryItem::Selection(spread("F"));
    let p = Predicate {
        graphql: TopLevelQueryItem::Selection(field("a", vec![], vec![])),
        when_clause: None,
    };
    let mut caps = Captures::new();
    assert_eq!(p.match_with_vars(&top, &frags, &mut caps), Err(()));
}

#[test]
fn missing_child_is_no_match() {
    let query = TopLevelQueryItem::Selection(field("root", vec![], vec![field("a", vec![], vec![])]));
    let p = Predicate {
        graphql: TopLevelQueryItem::Selection(field("root", vec![], vec![field("b", vec![], vec![])])),
        when_clause: None,
    };
    let mut caps = Captures::new();
    assert_eq!(p.match_with_vars(&query, &[], &mut caps), Ok(false));
}

#[test]
fn product_is_exact() {
    let mut caps = Captures::new();
    caps.insert("n".to_string(), int_value(i64::MAX));
    let e = lin_op(LinearOperator::Multiply, lin_var("n"), lin_const(1_000_000_000_000));
    let r = e.eval(&caps).unwrap();
    let expected = BigInt::from(i64::MAX) * BigInt::from(1_000_000_000_000i64);
    assert_eq!(to_bigint(&r), expected);
    assert_eq!(expected.to_string(), "9223372036854775807000000000000");
}

#[test]
fn repeated_costing_gives_the_same_result() {
    let s = users_statement();
    let item = users_item(150);
    let mut caps = Captures::new();
    let first = s.try_cost(&item, &[], &mut caps);
    caps.insert("n".to_string(), int_value(7));
    let second = s.try_cost(&item, &[], &mut caps);
    let mut fresh = Captures::new();
    let third = s.try_cost(&item, &[], &mut fresh);
    assert!(is_cost(&first, 300));
    assert!(is_cost(&second, 300));
    assert!(is_cost(&third, 300));
}

#[test]
fn false_guard_skips_the_cost_formula() {
    let s = Statement {
        predicate: Predicate {
            graphql: TopLevelQueryItem::Selection(field("users", vec![("first", var("n"))], vec![])),
            when_clause: Some(WhenClause { condition: Condition::Const(false) }),
        },
        cost_expr: lin_var("unbound"),
    };
    let mut caps = Captures::new();
    assert_eq!(s.predicate.match_with_vars(&users_item(5), &[], &mut caps), Ok(false));
    assert!(matches!(s.try_cost(&users_item(5), &[], &mut caps), Ok(None)));
}

#[test]
fn matching_rule_with_unbound_cost_variable_is_an_error() {
    let s = Statement {
        predicate: Predicate {
            graphql: TopLevelQueryItem::Selection(field("users", vec![], vec![])),
            when_clause: None,
        },
        cost_expr: lin_var("unbound"),
    };
    let mut caps = Captures::new();
    assert!(matches!(s.try_cost(&users_item(5), &[], &mut caps), Err(())));
}

#[test]
fn captures_insert_get_and_clear() {
    let mut caps = Captures::new();
    assert!(caps.get("x").is_none());
    caps.insert("x".to_string(), int_value(5));
    caps.insert("flag".to_string(), Value::Boolean(true));
    assert!(matches!(caps.get_int("$x"), Some(Ok(n)) if n.equals(&Number::from_i64(5))));
    assert!(matches!(caps.get_int("$$x"), Some(Ok(_))));
    assert!(matches!(caps.get_int("flag"), Some(Err(()))));
    assert!(matches!(caps.get_bool("flag"), Some(Ok(true))));
    assert!(matches!(caps.get_bool("x"), Some(Err(()))));
    assert!(caps.get_int("y").is_none());
    caps.insert("x".to_string(), int_value(6));
    assert!(matches!(caps.get_int("x"), Some(Ok(n)) if n.equals(&Number::from_i64(6))));
    caps.clear();
    assert!(caps.get("x").is_none());
    assert!(caps.get("flag").is_none());
}

#[test]
fn captures_insert_keeps_the_sigil() {
    let mut caps = Captures::new();
    caps.insert("$x".to_string(), int_value(1));
    assert!(caps.get("$x").is_none());
    assert!(caps.lookup("$x").is_some());
}

#[test]
fn linear_operators() {
    let caps = Captures::new();
    let sub = lin_op(LinearOperator::Subtract, lin_const(7), lin_const(10));
    assert_eq!(to_bigint(&sub.eval(&caps).unwrap()), BigInt::from(-3));
    let add = lin_op(LinearOperator::Add, lin_const(-7), lin_const(10));
    assert_eq!(to_bigint(&add.eval(&caps).unwrap()), BigInt::from(3));
    let mul = lin_op(LinearOperator::Multiply, lin_const(-4), lin_const(i64::MIN));
    assert_eq!(to_bigint(&mul.eval(&caps).unwrap()), BigInt::from(-4) * BigInt::from(i64::MIN));
}

#[test]
fn comparisons_and_boolean_operators() {
    let caps = Captures::new();
    let cmp = |op, a, b| Condition::Comparison(op, lin_const(a), lin_const(b)).eval(&caps);
    assert_eq!(cmp(ComparisonOperator::Equal, 2, 2), Ok(true));
    assert_eq!(cmp(ComparisonOperator::NotEqual, 2, 2), Ok(false));
    assert_eq!(cmp(ComparisonOperator::Less, 1, 2), Ok(true));
    assert_eq!(cmp(ComparisonOperator::LessOrEqual, 2, 2), Ok(true));
    assert_eq!(cmp(ComparisonOperator::Greater, 2, 2), Ok(false));
    assert_eq!(cmp(ComparisonOperator::GreaterOrEqual, -3, 2), Ok(false));
    let and = Condition::Boolean(
        BooleanOperator::And,
        Box::new(Condition::Const(true)),
        Box::new(Condition::Const(false)),
    );
    assert_eq!(and.eval(&caps), Ok(false));
    let or = Condition::Boolean(
        BooleanOperator::Or,
        Box::new(Condition::Const(true)),
        Box::new(Condition::Variable("missing".to_string())),
    );
    assert_eq!(or.eval(&caps), Err(()));
}

#[test]
fn condition_variable_reads_a_boolean() {
    let mut caps = Captures::new();
    caps.insert("b".to_string(), Value::Boolean(true));
    assert_eq!(Condition::Variable("$b".to_string()).eval(&caps), Ok(true));
    caps.insert("b".to_string(), int_value(1));
    assert_eq!(Condition::Variable("b".to_string()).eval(&caps), Err(()));
}

#[test]
fn alias_in_pattern_must_agree() {
    let mut aliased = field("users", vec![], vec![]);
    if let Selection::Field(f) = &mut aliased {
        f.alias = Some("u".to_string());
    }
    let p = Predicate { graphql: TopLevelQueryItem::Selection(aliased), when_clause: None };
    let mut caps = Captures::new();
    assert_eq!(p.match_with_vars(&users_item(1), &[], &mut caps), Ok(false));
}

#[test]
fn inline_fragments_match_their_children() {
    let inline = |cond: Option<&str>, items| {
        Selection::InlineFragment(InlineFragment {
            type_condition: cond.map(|c| c.to_string()),
            selection_set: SelectionSet { items },
        })
    };
    let q = TopLevelQueryItem::Selection(inline(Some("User"), vec![field("id", vec![], vec![])]));
    let p = Predicate {
        graphql: TopLevelQueryItem::Selection(inline(None, vec![field("id", vec![], vec![])])),
        when_clause: None,
    };
    let mut caps = Captures::new();
    assert_eq!(p.match_with_vars(&q, &[], &mut caps), Ok(true));
}

#[test]
fn query_items_are_directives_then_selections() {
    let q = Query {
        name: None,
        directives: vec![directive("d1", vec![]), directive("d2", vec![])],
        selection_set: SelectionSet { items: vec![field("a", vec![], vec![]), spread("F")] },
    };
    let items = TopLevelQueryItem::from_query(q);
    assert_eq!(items.len(), 4);
    assert!(matches!(&items[0], TopLevelQueryItem::Directive(d) if d.name == "d1"));
    assert!(matches!(&items[1], TopLevelQueryItem::Directive(d) if d.name == "d2"));
    assert!(matches!(&items[2], TopLevelQueryItem::Selection(Selection::Field(f)) if f.name == "a"));
    assert!(matches!(&items[3], TopLevelQueryItem::Selection(Selection::FragmentSpread(_))));
    let set = SelectionSet { items: vec![field("b", vec![], vec![])] };
    assert_eq!(TopLevelQueryItem::from_selection_set(set).len(), 1);
}

#[test]
fn document_costs_every_item_under_every_statement() {
    let doc = Document {
        statements: vec![
            users_statement(),
            Statement {
                predicate: Predicate {
                    graphql: TopLevelQueryItem::Selection(field("users", vec![], vec![])),
                    when_clause: None,
                },
                cost_expr: lin_const(1),
            },
        ],
    };
    let items = vec![users_item(150), users_item(50), TopLevelQueryItem::Directive(directive("x", vec![]))];
    let r = doc.evaluate(&items, &[]);
    assert_eq!(r.len(), 3);
    assert!(is_cost(&r[0][0], 300));
    assert!(is_cost(&r[0][1], 1));
    assert!(matches!(r[1][0], Ok(None)));
    assert!(is_cost(&r[1][1], 1));
    assert!(matches!(r[2][0], Ok(None)));
    assert!(matches!(r[2][1], Ok(None)));
}

#[test]
fn number_arithmetic_and_order() {
    let a = Number::from_i64(-5);
    let b = Number::from_i64(12);
    assert_eq!(to_bigint(&a.add(&b)), BigInt::from(7));
    assert_eq!(to_bigint(&a.sub(&b)), BigInt::from(-17));
    assert_eq!(to_bigint(&a.mul(&b)), BigInt::from(-60));
    assert_eq!(a.compare(&b), std::cmp::Ordering::Less);
    assert!(!a.equals(&b));
    let zero = Number { negative: true, digits: vec![0] };
    assert!(zero.equals(&Number::from_i64(0)));
    assert_eq!(to_bigint(&Number::from_i64(i64::MIN)), BigInt::from(i64::MIN));
}

#[test]
fn default_store_is_empty() {
    let caps = Captures::default();
    assert!(caps.get("x").is_none());
}

#[test]
fn product_of_a_value_beyond_machine_integers_is_exact() {
    let big = Number::from_i64(i64::MAX).mul(&Number::from_i64(i64::MAX));
    let mut caps = Captures::new();
    caps.insert("n".to_string(), Value::Int(big));
    let e = lin_op(LinearOperator::Multiply, lin_var("$n"), lin_const(1_000_000_000_000));
    let r = e.eval(&caps).unwrap();
    let m = BigInt::from(i64::MAX);
    assert_eq!(to_bigint(&r), &m * &m * BigInt::from(1_000_000_000_000i64));
}

#[test]
fn empty_document_and_empty_query() {
    let doc = Document { statements: vec![] };
    let r = doc.evaluate(&[users_item(1)], &[]);
    assert_eq!(r.len(), 1);
    assert!(r[0].is_empty());
    let doc = Document { statements: vec![users_statement()] };
    assert!(doc.evaluate(&[], &[]).is_empty());
}
