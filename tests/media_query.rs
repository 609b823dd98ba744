use css_media::media_query::{
    MediaCondition, MediaFeatureExpression, MediaList, MediaQuery, MediaQueryOperator, MediaType, Operator, ParseError,
    Qualifier,
};
use css_media::tokens::tokenize;

fn parse_list(css: &str) -> MediaList {
    let toks = tokenize(css);
    MediaList::parse(&toks)
}

fn parse_one(css: &str) -> Result<MediaQuery, ParseError> {
    let toks = tokenize(css);
    MediaQuery::parse(&toks, 0, toks.len())
}

fn feature(name: &str, operator: Option<MediaQueryOperator>, value: Option<&str>) -> MediaFeatureExpression {
    MediaFeatureExpression { name: name.to_string(), operator, value: value.map(|v| v.to_string()) }
}

fn as_feature(c: &MediaCondition) -> &MediaFeatureExpression {
    match c {
        MediaCondition::Feature(f) => f,
        other => panic!("expected a feature, got {:?}", other),
    }
}

#[test]
fn not_all() {
    let list = parse_list("not all");
    assert_eq!(list.media_queries.len(), 1);
    let q = &list.media_queries[0];
    assert_eq!(q.qualifier, Some(Qualifier::Not));
    assert_eq!(q.media_type, MediaType::All);
    assert!(q.condition.is_none());
}

#[test]
fn screen_and_min_width() {
    let list = parse_list("screen and (min-width: 100px)");
    assert_eq!(list.media_queries.len(), 1);
    let q = &list.media_queries[0];
    assert_eq!(q.qualifier, None);
    assert_eq!(q.media_type, MediaType::Screen);
    let c = q.condition.as_ref().unwrap();
    assert_eq!(as_feature(c), &feature("min-width", None, Some("100px")));
}

#[test]
fn bare_condition_with_range_operator() {
    let list = parse_list("(width >= 100px)");
    assert_eq!(list.media_queries.len(), 1);
    let q = &list.media_queries[0];
    assert_eq!(q.qualifier, None);
    assert_eq!(q.media_type, MediaType::All);
    let c = q.condition.as_ref().unwrap();
    assert_eq!(as_feature(c), &feature("width", Some(MediaQueryOperator::GreaterThanEqual), Some("100px")));
}

#[test]
fn comparison_operators() {
    let cases = [
        ("(w = 1)", MediaQueryOperator::Equal),
        ("(w > 1)", MediaQueryOperator::GreaterThan),
        ("(w >= 1)", MediaQueryOperator::GreaterThanEqual),
        ("(w < 1)", MediaQueryOperator::LessThan),
        ("(w <= 1)", MediaQueryOperator::LessThanEqual),
    ];
    for (css, op) in cases {
        let q = parse_one(css).unwrap();
        assert_eq!(as_feature(q.condition.as_ref().unwrap()), &feature("w", Some(op), Some("1")));
    }
}

#[test]
fn bare_feature_has_no_value() {
    let q = parse_one("(color)").unwrap();
    assert_eq!(as_feature(q.condition.as_ref().unwrap()), &feature("color", None, None));
}

#[test]
fn and_chain_keeps_operands_in_order() {
    let q = parse_one("(a: 1) and (b: 2)").unwrap();
    match q.condition.as_ref().unwrap() {
        MediaCondition::Operation(items, op) => {
            assert_eq!(*op, Operator::And);
            assert_eq!(items.len(), 2);
            assert_eq!(as_feature(&items[0]), &feature("a", None, Some("1")));
            assert_eq!(as_feature(&items[1]), &feature("b", None, Some("2")));
        },
        other => panic!("expected an operation, got {:?}", other),
    }
}

#[test]
fn or_chain_of_three() {
    let q = parse_one("(a) or (b) OR (c)").unwrap();
    match q.condition.as_ref().unwrap() {
        MediaCondition::Operation(items, op) => {
            assert_eq!(*op, Operator::Or);
            assert_eq!(items.len(), 3);
            assert_eq!(as_feature(&items[2]), &feature("c", None, None));
        },
        other => panic!("expected an operation, got {:?}", other),
    }
}

#[test]
fn mixed_operators_need_parentheses() {
    assert!(parse_one("(a) and (b) or (c)").is_err());
    let q = parse_one("(a) and ((b) or (c))").unwrap();
    match q.condition.as_ref().unwrap() {
        MediaCondition::Operation(items, Operator::And) => match &items[1] {
            MediaCondition::InParens(inner) => {
                assert!(matches!(inner.as_ref(), MediaCondition::Operation(v, Operator::Or) if v.len() == 2))
            },
            other => panic!("expected a nested group, got {:?}", other),
        },
        other => panic!("expected an operation, got {:?}", other),
    }
}

#[test]
fn negated_condition() {
    let q = parse_one("not (color)").unwrap();
    assert_eq!(q.media_type, MediaType::All);
    assert_eq!(q.qualifier, None);
    match q.condition.as_ref().unwrap() {
        MediaCondition::Not(inner) => assert_eq!(as_feature(inner), &feature("color", None, None)),
        other => panic!("expected a negation, got {:?}", other),
    }
}

#[test]
fn unterminated_group_drops_its_segment() {
    let list = parse_list("speech, (min-width: 100px");
    assert_eq!(list.media_queries.len(), 1);
    assert_eq!(list.media_queries[0].media_type, MediaType::Custom("speech".to_string()));
}

#[test]
fn list_never_longer_than_segments() {
    let list = parse_list("screen, (a: b, c), print, only");
    assert_eq!(list.media_queries.len(), 3);
    assert_eq!(list.media_queries[0].media_type, MediaType::Screen);
    let c = list.media_queries[1].condition.as_ref().unwrap();
    assert_eq!(as_feature(c), &feature("a", None, Some("b, c")));
    assert_eq!(list.media_queries[2].media_type, MediaType::Print);
}

#[test]
fn empty_list() {
    assert_eq!(parse_list("").media_queries.len(), 0);
    assert_eq!(parse_list("  ").media_queries.len(), 0);
}

#[test]
fn media_type_names() {
    assert_eq!(MediaType::parse(&"PRINT".to_string()), MediaType::Print);
    assert_eq!(MediaType::parse(&"Screen".to_string()), MediaType::Screen);
    assert_eq!(MediaType::parse(&"all".to_string()), MediaType::All);
    assert_eq!(MediaType::parse(&"TV".to_string()), MediaType::Custom("TV".to_string()));
}

#[test]
fn only_qualifier() {
    let q = parse_one("ONLY screen and (color)").unwrap();
    assert_eq!(q.qualifier, Some(Qualifier::Only));
    assert_eq!(q.media_type, MediaType::Screen);
    assert!(q.condition.is_some());
}

#[test]
fn parse_errors() {
    assert_eq!(parse_one("").unwrap_err(), ParseError::EndOfInput);
    assert_eq!(parse_one("screen foo").unwrap_err(), ParseError::UnexpectedToken(2));
    assert_eq!(parse_one("only").unwrap_err(), ParseError::UnexpectedToken(0));
    assert_eq!(parse_one("not").unwrap_err(), ParseError::EndOfInput);
    assert_eq!(parse_one("screen and").unwrap_err(), ParseError::EndOfInput);
}

#[test]
fn qualifier_and_operator_words() {
    let toks = tokenize("Not");
    assert_eq!(Qualifier::parse(&toks, 0, toks.len()), Ok((Qualifier::Not, 1)));
    let toks = tokenize("  and");
    assert_eq!(Operator::parse(&toks, 0, toks.len()), Ok((Operator::And, 2)));
    let toks = tokenize("xor");
    assert_eq!(Operator::parse(&toks, 0, toks.len()), Err(ParseError::UnexpectedToken(0)));
}

#[test]
fn feature_value_keeps_its_text() {
    let q = parse_one("(aspect-ratio: 16 / 9)").unwrap();
    assert_eq!(as_feature(q.condition.as_ref().unwrap()), &feature("aspect-ratio", None, Some("16 / 9")));
    let q = parse_one("(width: calc(1px, 2px))").unwrap();
    assert_eq!(as_feature(q.condition.as_ref().unwrap()), &feature("width", None, Some("calc(1px, 2px)")));
}

#[test]
fn feature_expression_directly() {
    let toks = tokenize("width: 3px");
    let (f, end) = MediaFeatureExpression::parse_in_parenthesis_block(&toks, 0, toks.len()).unwrap();
    assert_eq!(f, feature("width", None, Some("3px")));
    assert_eq!(end, toks.len());
}

#[test]
fn condition_in_parens_directly() {
    let toks = tokenize("((a) and (b))");
    let (c, end) = MediaCondition::parse_in_parens(&toks, 0, toks.len()).unwrap();
    assert_eq!(end, 1);
    assert!(matches!(c, MediaCondition::InParens(_)));
    let (c, _) = MediaCondition::parse(&toks, 0, toks.len(), true).unwrap();
    assert!(matches!(c, MediaCondition::InParens(_)));
}

#[test]
fn nesting_beyond_the_limit_is_rejected() {
    let shallow = format!("{}a{}", "(".repeat(5), ")".repeat(5));
    assert_eq!(parse_list(&shallow).media_queries.len(), 1);
    let deep = format!("{}a{}", "(".repeat(40), ")".repeat(40));
    assert_eq!(parse_list(&deep).media_queries.len(), 0);
    let list = parse_list(&format!("screen, {}", deep));
    assert_eq!(list.media_queries.len(), 1);
    assert_eq!(list.media_queries[0].media_type, MediaType::Screen);
}

#[test]
fn conditions_clone_and_compare() {
    let q = parse_one("(a: 1) and ((b) or (c))").unwrap();
    let c = q.condition.as_ref().unwrap();
    let copy = c.clone();
    assert!(copy == *c);
    let other = parse_one("(a: 1) and ((b) or (d))").unwrap();
    assert!(*other.condition.as_ref().unwrap() != *c);
    let list = parse_list("print, not (color)");
    let list_copy = list.clone();
    assert_eq!(list_copy.media_queries.len(), 2);
    assert_eq!(list_copy.media_queries[0].media_type, MediaType::Print);
    assert!(list_copy.media_queries[1].condition == list.media_queries[1].condition);
}
