use dioscript_parser::{
    ConditionalStatement, DioAstStatement, DioscriptAst, FunctionCall, FunctionDefine,
    FunctionName, LoopExecuteType, LoopStatement, ParamsType, UseStatement, VariableDefine,
};

type Statement = DioAstStatement<String, i64>;
type Program = DioscriptAst<String, i64>;

fn text(s: &str) -> String {
    s.to_string()
}

fn texts(items: &[&str]) -> Vec<String> {
    items.iter().map(|s| s.to_string()).collect()
}

fn assign(new: bool, name: &str, expr: &str) -> Statement {
    DioAstStatement::VariableAss(VariableDefine { new, name: text(name), expr: text(expr) })
}

fn call(name: FunctionName, arguments: &[i64]) -> Statement {
    DioAstStatement::FunctionCall(FunctionCall { name, arguments: arguments.to_vec() })
}

fn conditional(
    condition: &str,
    inner: Vec<Statement>,
    otherwise: Option<Vec<Statement>>,
) -> Statement {
    DioAstStatement::IfStatement(ConditionalStatement {
        condition: text(condition),
        inner,
        otherwise,
    })
}

fn while_loop(condition: &str, inner: Vec<Statement>) -> Statement {
    DioAstStatement::LoopStatement(LoopStatement {
        execute_type: LoopExecuteType::Conditional(text(condition)),
        inner,
    })
}

fn for_loop(iter: i64, var: &str, inner: Vec<Statement>) -> Statement {
    DioAstStatement::LoopStatement(LoopStatement {
        execute_type: LoopExecuteType::Iter { iter, var: text(var) },
        inner,
    })
}

fn function(name: Option<&str>, params: ParamsType, inner: Vec<Statement>) -> Statement {
    DioAstStatement::FunctionDefine(FunctionDefine { name: name.map(text), params, inner })
}

fn module(path: &[&str]) -> Statement {
    DioAstStatement::ModuleUse(UseStatement(texts(path)))
}

// One statement of each kind, with bodies three levels deep.
fn sample() -> Program {
    DioscriptAst {
        stats: vec![
            module(&["std", "io"]),
            DioAstStatement::LineComment(text(" a comment")),
            assign(true, "x", "1 + 2"),
            function(
                Some("main"),
                ParamsType::List(texts(&["a", "b"])),
                vec![
                    conditional(
                        "a > b",
                        vec![DioAstStatement::ReturnValue(text("a"))],
                        Some(vec![conditional(
                            "a == b",
                            vec![call(FunctionName::Single(text("print")), &[1, 2])],
                            Some(vec![DioAstStatement::ReturnValue(text("b"))]),
                        )]),
                    ),
                    while_loop("x < 10", vec![assign(false, "x", "x + 1")]),
                    for_loop(
                        7,
                        "item",
                        vec![call(FunctionName::Namespace(texts(&["std", "print"])), &[])],
                    ),
                ],
            ),
            function(None, ParamsType::Variable(text("args")), vec![]),
        ],
    }
}

// The sample with the statement in the innermost `otherwise` replaced.
fn sample_with_innermost(replacement: Statement) -> Program {
    let mut program = sample();
    if let DioAstStatement::FunctionDefine(define) = &mut program.stats[3] {
        if let DioAstStatement::IfStatement(outer) = &mut define.inner[0] {
            if let Some(otherwise) = &mut outer.otherwise {
                if let DioAstStatement::IfStatement(inner) = &mut otherwise[0] {
                    inner.otherwise = Some(vec![replacement]);
                    return program;
                }
            }
        }
    }
    unreachable!()
}

#[test]
fn trees_built_alike_are_equal() {
    assert_eq!(sample(), sample());
    assert!(sample() == sample());
    assert!(!(sample() != sample()));
}

#[test]
fn trees_that_differ_deep_inside_are_not_equal() {
    let same = sample_with_innermost(DioAstStatement::ReturnValue(text("b")));
    let other = sample_with_innermost(DioAstStatement::ReturnValue(text("c")));
    assert_eq!(same, sample());
    assert_ne!(other, sample());
}

#[test]
fn trees_of_different_length_are_not_equal() {
    let mut longer = sample();
    longer.stats.push(DioAstStatement::LineComment(String::new()));
    assert_ne!(longer, sample());
    let mut shorter = sample();
    shorter.stats.pop();
    assert_ne!(shorter, sample());
    assert_eq!(Program { stats: vec![] }, Program { stats: vec![] });
    assert_ne!(Program { stats: vec![] }, sample());
}

#[test]
fn statements_of_different_kinds_are_not_equal() {
    let kinds: Vec<Statement> = vec![
        assign(true, "x", "x"),
        DioAstStatement::ReturnValue(text("x")),
        conditional("x", vec![], None),
        while_loop("x", vec![]),
        DioAstStatement::LineComment(text("x")),
        call(FunctionName::Single(text("x")), &[]),
        function(Some("x"), ParamsType::List(vec![]), vec![]),
        module(&["x"]),
    ];
    for (i, a) in kinds.iter().enumerate() {
        for (j, b) in kinds.iter().enumerate() {
            assert_eq!(a == b, i == j, "{:?} {:?}", a, b);
        }
    }
}

#[test]
fn each_field_counts_in_equality() {
    assert_ne!(assign(true, "x", "1"), assign(false, "x", "1"));
    assert_ne!(assign(true, "x", "1"), assign(true, "y", "1"));
    assert_ne!(assign(true, "x", "1"), assign(true, "x", "2"));
    assert_ne!(conditional("a", vec![], None), conditional("b", vec![], None));
    assert_ne!(conditional("a", vec![], None), conditional("a", vec![], Some(vec![])));
    assert_ne!(
        conditional("a", vec![assign(true, "x", "1")], None),
        conditional("a", vec![assign(true, "x", "2")], None)
    );
    assert_ne!(
        conditional("a", vec![], Some(vec![assign(true, "x", "1")])),
        conditional("a", vec![], Some(vec![assign(true, "x", "2")]))
    );
    assert_ne!(while_loop("a", vec![]), while_loop("b", vec![]));
    assert_ne!(while_loop("a", vec![]), for_loop(1, "a", vec![]));
    assert_ne!(for_loop(1, "a", vec![]), for_loop(2, "a", vec![]));
    assert_ne!(for_loop(1, "a", vec![]), for_loop(1, "b", vec![]));
    assert_ne!(for_loop(1, "a", vec![]), for_loop(1, "a", vec![module(&["m"])]));
    assert_ne!(
        call(FunctionName::Single(text("f")), &[1, 2]),
        call(FunctionName::Single(text("f")), &[2, 1])
    );
    assert_ne!(
        call(FunctionName::Single(text("f")), &[1]),
        call(FunctionName::Single(text("f")), &[1, 1])
    );
    assert_ne!(
        call(FunctionName::Single(text("f")), &[1]),
        call(FunctionName::Namespace(texts(&["f"])), &[1])
    );
    assert_ne!(
        function(Some("f"), ParamsType::List(vec![]), vec![]),
        function(None, ParamsType::List(vec![]), vec![])
    );
    assert_ne!(
        function(Some("f"), ParamsType::List(vec![]), vec![]),
        function(Some("g"), ParamsType::List(vec![]), vec![])
    );
    assert_ne!(
        function(None, ParamsType::List(texts(&["a"])), vec![]),
        function(None, ParamsType::Variable(text("a")), vec![])
    );
    assert_ne!(
        function(None, ParamsType::List(texts(&["a", "b"])), vec![]),
        function(None, ParamsType::List(texts(&["b", "a"])), vec![])
    );
    assert_ne!(module(&["a", "b"]), module(&["a"]));
    assert_ne!(module(&["a", "b"]), module(&["b", "a"]));
    assert_ne!(
        DioAstStatement::<String, i64>::LineComment(text("a")),
        DioAstStatement::LineComment(text("b"))
    );
}

#[test]
fn equality_of_leaves_is_their_own() {
    // f64 has a value that is not equal to itself: a tree that holds it is not equal to itself.
    let tree: DioscriptAst<f64, f64> = DioscriptAst {
        stats: vec![DioAstStatement::ReturnValue(f64::NAN)],
    };
    let copy = tree.clone();
    assert!(tree != copy);
    let plain: DioscriptAst<f64, f64> = DioscriptAst {
        stats: vec![DioAstStatement::ReturnValue(0.5)],
    };
    assert_eq!(plain.clone(), plain);
}

#[test]
fn a_copy_is_equal_to_what_it_was_made_of() {
    let program = sample();
    let copy = program.clone();
    assert_eq!(copy, program);
    for statement in &program.stats {
        assert_eq!(&statement.clone(), statement);
    }
    let define = VariableDefine { new: true, name: text("x"), expr: 3u8 };
    assert_eq!(define.clone(), define);
    let call = FunctionCall { name: FunctionName::Single(text("f")), arguments: vec![1u8, 2] };
    assert_eq!(call.clone(), call);
    let params = ParamsType::List(texts(&["a", "b"]));
    assert_eq!(params.clone(), params);
    let path = UseStatement(texts(&["a", "b"]));
    assert_eq!(path.clone(), path);
    let kind: LoopExecuteType<u8, u8> = LoopExecuteType::Iter { iter: 1, var: text("i") };
    assert_eq!(kind.clone(), kind);
}

#[test]
fn a_copy_shares_nothing_with_what_it_was_made_of() {
    let program = sample();
    let mut copy = program.clone();
    copy.stats.clear();
    assert_eq!(program, sample());
    let mut copy = program.clone();
    if let DioAstStatement::VariableAss(define) = &mut copy.stats[2] {
        define.name.push('!');
    }
    assert_ne!(copy, program);
    assert_eq!(program, sample());
}

#[test]
fn else_if_is_a_conditional_alone_in_otherwise() {
    let program = sample();
    let DioAstStatement::FunctionDefine(define) = &program.stats[3] else { unreachable!() };
    let DioAstStatement::IfStatement(outer) = &define.inner[0] else { unreachable!() };
    let otherwise = outer.otherwise.as_ref().unwrap();
    assert_eq!(otherwise.len(), 1);
    assert!(matches!(otherwise[0], DioAstStatement::IfStatement(_)));
}

#[test]
fn debug_text_shows_every_field() {
    assert_eq!(
        format!("{:?}", assign(true, "x", "1")),
        "VariableAss(VariableDefine { new: true, name: \"x\", expr: \"1\" })"
    );
    assert_eq!(
        format!("{:?}", for_loop(7, "item", vec![])),
        "LoopStatement(LoopStatement { execute_type: Iter { iter: 7, var: \"item\" }, inner: [] })"
    );
    assert_eq!(
        format!("{:?}", Program { stats: vec![module(&["a", "b"])] }),
        "DioscriptAst { stats: [ModuleUse(UseStatement([\"a\", \"b\"]))] }"
    );
    assert_eq!(
        format!("{:?}", conditional("c", vec![], None)),
        "IfStatement(ConditionalStatement { condition: \"c\", inner: [], otherwise: None })"
    );
    assert_eq!(
        format!("{:?}", function(None, ParamsType::Variable(text("args")), vec![])),
        "FunctionDefine(FunctionDefine { name: None, params: Variable(\"args\"), inner: [] })"
    );
}

#[test]
fn sample_tree_is_well_formed() {
    assert!(sample().is_well_formed());
    for statement in &sample().stats {
        assert!(statement.is_well_formed());
    }
    assert!(Program { stats: vec![] }.is_well_formed());
}

#[test]
fn an_empty_name_deep_inside_is_found() {
    let good = sample_with_innermost(assign(true, "x", "1"));
    let bad = sample_with_innermost(assign(true, "", "1"));
    assert!(good.is_well_formed());
    assert!(!bad.is_well_formed());
}

#[test]
fn each_rule_of_well_formed_names() {
    let ill: Vec<Statement> = vec![
        assign(true, "", "1"),
        for_loop(1, "", vec![]),
        function(Some(""), ParamsType::List(vec![]), vec![]),
        function(None, ParamsType::Variable(String::new()), vec![]),
        function(None, ParamsType::List(texts(&["a", "", "c"])), vec![]),
        module(&[]),
        module(&["a", ""]),
        call(FunctionName::Single(String::new()), &[]),
        call(FunctionName::Namespace(vec![]), &[]),
        call(FunctionName::Namespace(texts(&["", "b"])), &[]),
        conditional("c", vec![module(&[])], None),
        conditional("c", vec![], Some(vec![module(&[])])),
        while_loop("c", vec![module(&[])]),
        for_loop(1, "i", vec![module(&[])]),
        function(None, ParamsType::List(vec![]), vec![module(&[])]),
    ];
    for statement in &ill {
        assert!(!statement.is_well_formed(), "{:?}", statement);
    }
    let well: Vec<Statement> = vec![
        assign(false, "x", ""),
        DioAstStatement::ReturnValue(String::new()),
        DioAstStatement::LineComment(String::new()),
        conditional("", vec![], None),
        conditional("", vec![], Some(vec![])),
        while_loop("", vec![]),
        for_loop(0, "i", vec![]),
        function(None, ParamsType::List(vec![]), vec![]),
        function(Some("f"), ParamsType::Variable(text("a")), vec![]),
        module(&["m"]),
        call(FunctionName::Single(text("f")), &[]),
        call(FunctionName::Namespace(texts(&["a", "a"])), &[1, 1]),
    ];
    for statement in &well {
        assert!(statement.is_well_formed(), "{:?}", statement);
    }
}

#[test]
fn well_formed_parts() {
    assert!(VariableDefine { new: true, name: text("x"), expr: 0u8 }.is_well_formed());
    assert!(!VariableDefine { new: true, name: String::new(), expr: 0u8 }.is_well_formed());
    assert!(ParamsType::List(vec![]).is_well_formed());
    assert!(!ParamsType::Variable(String::new()).is_well_formed());
    assert!(UseStatement(texts(&["a"])).is_well_formed());
    assert!(!UseStatement(vec![]).is_well_formed());
    assert!(LoopExecuteType::<u8, u8>::Conditional(0).is_well_formed());
    assert!(!LoopExecuteType::<u8, u8>::Iter { iter: 0, var: String::new() }.is_well_formed());
    assert!(FunctionName::Namespace(texts(&["a", "b"])).is_well_formed());
    assert!(!FunctionName::Namespace(texts(&["a", ""])).is_well_formed());
    assert!(!FunctionName::Namespace(vec![]).is_well_formed());
    assert!(!FunctionName::Single(String::new()).is_well_formed());
    let call = FunctionCall { name: FunctionName::Single(text("f")), arguments: vec![0u8] };
    assert!(call.is_well_formed());
}

#[test]
fn canonical_name_of_a_well_formed_name_is_not_empty() {
    let names = [
        FunctionName::Single(text("f")),
        FunctionName::Namespace(texts(&["a"])),
        FunctionName::Namespace(texts(&["a", "b"])),
    ];
    for name in names {
        assert!(name.is_well_formed());
        assert!(!name.as_single().is_empty());
    }
}
