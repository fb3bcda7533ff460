use dioscript_parser::operator::CalculateMark;

fn named() -> Vec<(CalculateMark, &'static str)> {
    vec![
        (CalculateMark::Plus, "+"),
        (CalculateMark::Minus, "-"),
        (CalculateMark::Multiply, "*"),
        (CalculateMark::Divide, "/"),
        (CalculateMark::Equal, "=="),
        (CalculateMark::NotEqual, "!="),
        (CalculateMark::Large, ">"),
        (CalculateMark::Small, "<"),
        (CalculateMark::LargeOrEqual, ">="),
        (CalculateMark::SmallOrEqual, "<="),
        (CalculateMark::And, "&&"),
        (CalculateMark::Or, "||"),
    ]
}

#[test]
fn each_operator_has_its_token() {
    for (op, token) in named() {
        assert_eq!(op.to_string(), token);
    }
}

#[test]
fn each_token_reads_as_its_operator() {
    for (op, token) in named() {
        assert_eq!(CalculateMark::from_string(token.to_string()), op);
    }
}

#[test]
fn twelve_operators_round_trip() {
    let all = named();
    assert_eq!(all.len(), 12);
    for (op, _) in all {
        assert_eq!(CalculateMark::from_string(op.to_string()), op);
    }
}

#[test]
fn no_mark_is_written_none_and_reads_back() {
    assert_eq!(CalculateMark::NoMark.to_string(), "none");
    assert_eq!(CalculateMark::from_string("none".to_string()), CalculateMark::NoMark);
}

#[test]
fn empty_text_is_no_mark() {
    assert_eq!(CalculateMark::from_string(String::new()), CalculateMark::NoMark);
}

#[test]
fn percent_is_no_mark() {
    assert_eq!(CalculateMark::from_string("%".to_string()), CalculateMark::NoMark);
}

#[test]
fn other_texts_are_no_mark() {
    let others = [
        "=", "!", "&", "|", "===", "=>", "=<", "<>", "++", "--", "**", "//", "&|", "|&", "+ ", " +",
        "+\n", "plus", "and", "or", "None", "＋", "≥", "+=", "a", "1", " ", "\u{0}", "&&&",
        "|||", "!==", ">>", "<<",
    ];
    for text in others {
        let op = CalculateMark::from_string(text.to_string());
        assert_eq!(op, CalculateMark::NoMark, "{:?}", text);
    }
}

#[test]
fn tokens_differ_from_each_other() {
    let all = named();
    for (i, (_, a)) in all.iter().enumerate() {
        for (j, (_, b)) in all.iter().enumerate() {
            assert_eq!(i == j, a == b);
        }
    }
}

#[test]
fn operators_compare_by_their_tag() {
    assert_eq!(CalculateMark::And, CalculateMark::And);
    assert_ne!(CalculateMark::And, CalculateMark::Or);
    assert_ne!(CalculateMark::NoMark, CalculateMark::Plus);
    let copy = CalculateMark::Divide;
    assert_eq!(copy.clone(), CalculateMark::Divide);
    assert_eq!(format!("{:?}", CalculateMark::LargeOrEqual), "LargeOrEqual");
}
