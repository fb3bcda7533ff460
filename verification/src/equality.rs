//! Equality of syntax trees, of their parts and of errors.
//!
//! Two values are equal where they are of one kind and hold equal fields, through all the
//! bodies that they own. Texts are equal by their characters. Expressions and values are equal
//! as their own `==` says: where that goes by their models, the `==` of trees goes by the models
//! of the trees.

use crate::ast::{
    block_view, statement_view, ConditionalStatement, DioAstStatement, DioscriptAst, FunctionCall,
    FunctionDefine, LoopExecuteType, LoopStatement, ParamsType, UseStatement, VariableDefine,
};
use crate::name::FunctionName;
use vstd::laws_eq::obeys_deep_eq;
use vstd::prelude::*;
use vstd::std_specs::cmp::PartialEqSpec;

verus! {

/// Whether `first` and `second` hold the same texts in the same order.
fn same_texts(first: &Vec<String>, second: &Vec<String>) -> (same: bool)
    ensures
        same == (first.deep_view() == second.deep_view()),
{
    if first.len() != second.len() {
        assert(first.deep_view().len() != second.deep_view().len());
        return false;
    }
    let mut i: usize = 0;
    while i < first.len()
        invariant
            i <= first.len(),
            first.len() == second.len(),
            forall|k: int| 0 <= k < i ==> first.deep_view()[k] == second.deep_view()[k],
        decreases first.len() - i,
    {
        if first[i] != second[i] {
            assert(first.deep_view()[i as int] != second.deep_view()[i as int]);
            return false;
        }
        i += 1;
    }
    assert(first.deep_view() =~= second.deep_view());
    true
}

/// Whether `first` and `second` are both absent, or both present with the same characters.
fn same_optional_text(first: &Option<String>, second: &Option<String>) -> (same: bool)
    ensures
        same == (first.deep_view() == second.deep_view()),
{
    match first {
        Some(text) => match second {
            Some(other_text) => *text == *other_text,
            None => false,
        },
        None => second.is_none(),
    }
}

/// Two names are equal where both are bare or both are paths, and they hold the same texts in
/// the same order. A bare name is never equal to a path.
impl PartialEq for FunctionName {
    fn eq(&self, other: &Self) -> (same: bool) {
        match self {
            FunctionName::Single(name) => match other {
                FunctionName::Single(other_name) => *name == *other_name,
                FunctionName::Namespace(_) => false,
            },
            FunctionName::Namespace(segments) => match other {
                FunctionName::Single(_) => false,
                FunctionName::Namespace(other_segments) => same_texts(segments, other_segments),
            },
        }
    }
}

impl vstd::std_specs::cmp::PartialEqSpecImpl for FunctionName {
    open spec fn obeys_eq_spec() -> bool {
        true
    }

    open spec fn eq_spec(&self, other: &Self) -> bool {
        self.deep_view() == other.deep_view()
    }
}

/// Two lists of parameters are equal where both are of one kind and hold the same names in the
/// same order.
impl PartialEq for ParamsType {
    fn eq(&self, other: &Self) -> (same: bool) {
        match self {
            ParamsType::Variable(name) => match other {
                ParamsType::Variable(other_name) => *name == *other_name,
                ParamsType::List(_) => false,
            },
            ParamsType::List(names) => match other {
                ParamsType::Variable(_) => false,
                ParamsType::List(other_names) => same_texts(names, other_names),
            },
        }
    }
}

impl vstd::std_specs::cmp::PartialEqSpecImpl for ParamsType {
    open spec fn obeys_eq_spec() -> bool {
        true
    }

    open spec fn eq_spec(&self, other: &Self) -> bool {
        self.deep_view() == other.deep_view()
    }
}

/// Two paths are equal where they hold the same segments in the same order.
impl PartialEq for UseStatement {
    fn eq(&self, other: &Self) -> (same: bool) {
        same_texts(&self.0, &other.0)
    }
}

impl vstd::std_specs::cmp::PartialEqSpecImpl for UseStatement {
    open spec fn obeys_eq_spec() -> bool {
        true
    }

    open spec fn eq_spec(&self, other: &Self) -> bool {
        self.deep_view() == other.deep_view()
    }
}

/// Two assignments are equal where both declare or both assign again, to variables of the same
/// name, equal expressions.
impl<E: PartialEq> PartialEq for VariableDefine<E> {
    fn eq(&self, other: &Self) -> (same: bool) {
        self.new == other.new && self.name == other.name && self.expr == other.expr
    }
}

impl<E: PartialEq> vstd::std_specs::cmp::PartialEqSpecImpl for VariableDefine<E> {
    open spec fn obeys_eq_spec() -> bool {
        E::obeys_eq_spec()
    }

    open spec fn eq_spec(&self, other: &Self) -> bool {
        &&& self.new == other.new
        &&& self.name@ == other.name@
        &&& self.expr.eq_spec(&other.expr)
    }
}

/// Two calls are equal where they name the same function and hold as many arguments, equal
/// place by place.
impl<V: PartialEq> PartialEq for FunctionCall<V> {
    fn eq(&self, other: &Self) -> (same: bool) {
        self.name == other.name && self.arguments == other.arguments
    }
}

impl<V: PartialEq> vstd::std_specs::cmp::PartialEqSpecImpl for FunctionCall<V> {
    open spec fn obeys_eq_spec() -> bool {
        V::obeys_eq_spec()
    }

    open spec fn eq_spec(&self, other: &Self) -> bool {
        &&& self.name.deep_view() == other.name.deep_view()
        &&& self.arguments.len() == other.arguments.len()
        &&& forall|i: int|
            0 <= i < self.arguments.len() ==> (#[trigger] self.arguments[i]).eq_spec(
                &other.arguments[i],
            )
    }
}

/// Two kinds of loop are equal where both go by a condition and the conditions are equal, or
/// both go through the items of equal values under the same name.
impl<E: PartialEq, V: PartialEq> PartialEq for LoopExecuteType<E, V> {
    fn eq(&self, other: &Self) -> (same: bool) {
        match self {
            LoopExecuteType::Conditional(condition) => match other {
                LoopExecuteType::Conditional(other_condition) => *condition == *other_condition,
                LoopExecuteType::Iter { .. } => false,
            },
            LoopExecuteType::Iter { iter, var } => match other {
                LoopExecuteType::Conditional(_) => false,
                LoopExecuteType::Iter { iter: other_iter, var: other_var } => *iter == *other_iter
                    && *var == *other_var,
            },
        }
    }
}

impl<E: PartialEq, V: PartialEq> vstd::std_specs::cmp::PartialEqSpecImpl for LoopExecuteType<E, V> {
    open spec fn obeys_eq_spec() -> bool {
        E::obeys_eq_spec() && V::obeys_eq_spec()
    }

    open spec fn eq_spec(&self, other: &Self) -> bool {
        match (self, other) {
            (
                LoopExecuteType::Conditional(condition),
                LoopExecuteType::Conditional(other_condition),
            ) => condition.eq_spec(other_condition),
            (
                LoopExecuteType::Iter { iter, var },
                LoopExecuteType::Iter { iter: other_iter, var: other_var },
            ) => iter.eq_spec(other_iter) && var@ == other_var@,
            _ => false,
        }
    }
}

/// Whether two statements are of one kind and hold equal fields, through all their bodies.
pub open spec fn statement_eq<E: PartialEq, V: PartialEq>(
    first: DioAstStatement<E, V>,
    second: DioAstStatement<E, V>,
) -> bool
    decreases first,
{
    match (first, second) {
        (DioAstStatement::VariableAss(a), DioAstStatement::VariableAss(b)) => a.eq_spec(&b),
        (DioAstStatement::ReturnValue(a), DioAstStatement::ReturnValue(b)) => a.eq_spec(&b),
        (DioAstStatement::IfStatement(a), DioAstStatement::IfStatement(b)) => conditional_eq(a, b),
        (DioAstStatement::LoopStatement(a), DioAstStatement::LoopStatement(b)) => loop_eq(a, b),
        (DioAstStatement::LineComment(a), DioAstStatement::LineComment(b)) => a@ == b@,
        (DioAstStatement::FunctionCall(a), DioAstStatement::FunctionCall(b)) => a.eq_spec(&b),
        (DioAstStatement::FunctionDefine(a), DioAstStatement::FunctionDefine(b)) => define_eq(
            a,
            b,
        ),
        (DioAstStatement::ModuleUse(a), DioAstStatement::ModuleUse(b)) => a.deep_view()
            == b.deep_view(),
        _ => false,
    }
}

/// Whether two bodies have as many statements, and equal statements at each place.
pub open spec fn block_eq<E: PartialEq, V: PartialEq>(
    first: Seq<DioAstStatement<E, V>>,
    second: Seq<DioAstStatement<E, V>>,
) -> bool
    decreases first,
{
    &&& first.len() == second.len()
    &&& forall|i: int| 0 <= i < first.len() ==> statement_eq(#[trigger] first[i], second[i])
}

/// Whether two conditional statements have equal conditions and equal bodies.
pub open spec fn conditional_eq<E: PartialEq, V: PartialEq>(
    first: ConditionalStatement<E, V>,
    second: ConditionalStatement<E, V>,
) -> bool
    decreases first,
{
    &&& first.condition.eq_spec(&second.condition)
    &&& block_eq(first.inner@, second.inner@)
    &&& match (first.otherwise, second.otherwise) {
        (Some(body), Some(other_body)) => block_eq(body@, other_body@),
        (None, None) => true,
        _ => false,
    }
}

/// Whether two loops are of equal kinds and have equal bodies.
pub open spec fn loop_eq<E: PartialEq, V: PartialEq>(
    first: LoopStatement<E, V>,
    second: LoopStatement<E, V>,
) -> bool
    decreases first,
{
    &&& first.execute_type.eq_spec(&second.execute_type)
    &&& block_eq(first.inner@, second.inner@)
}

/// Whether two function definitions have equal names, parameters and bodies.
pub open spec fn define_eq<E: PartialEq, V: PartialEq>(
    first: FunctionDefine<E, V>,
    second: FunctionDefine<E, V>,
) -> bool
    decreases first,
{
    &&& first.name.deep_view() == second.name.deep_view()
    &&& first.params.deep_view() == second.params.deep_view()
    &&& block_eq(first.inner@, second.inner@)
}

/// Whether the two statements are equal.
fn same_statement<E: PartialEq, V: PartialEq>(
    first: &DioAstStatement<E, V>,
    second: &DioAstStatement<E, V>,
) -> (same: bool)
    ensures
        E::obeys_eq_spec() && V::obeys_eq_spec() ==> same == statement_eq(*first, *second),
    decreases first,
{
    match (first, second) {
        (DioAstStatement::VariableAss(a), DioAstStatement::VariableAss(b)) => *a == *b,
        (DioAstStatement::ReturnValue(a), DioAstStatement::ReturnValue(b)) => *a == *b,
        (DioAstStatement::IfStatement(a), DioAstStatement::IfStatement(b)) => same_conditional(
            a,
            b,
        ),
        (DioAstStatement::LoopStatement(a), DioAstStatement::LoopStatement(b)) => same_loop(a, b),
        (DioAstStatement::LineComment(a), DioAstStatement::LineComment(b)) => *a == *b,
        (DioAstStatement::FunctionCall(a), DioAstStatement::FunctionCall(b)) => *a == *b,
        (DioAstStatement::FunctionDefine(a), DioAstStatement::FunctionDefine(b)) => same_define(
            a,
            b,
        ),
        (DioAstStatement::ModuleUse(a), DioAstStatement::ModuleUse(b)) => *a == *b,
        _ => false,
    }
}

/// Whether the two bodies are equal.
fn same_block<E: PartialEq, V: PartialEq>(
    first: &Vec<DioAstStatement<E, V>>,
    second: &Vec<DioAstStatement<E, V>>,
) -> (same: bool)
    ensures
        E::obeys_eq_spec() && V::obeys_eq_spec() ==> same == block_eq(first@, second@),
    decreases first,
{
    if first.len() != second.len() {
        return false;
    }
    let mut i: usize = 0;
    while i < first.len()
        invariant
            i <= first.len(),
            first.len() == second.len(),
            E::obeys_eq_spec() && V::obeys_eq_spec() ==> forall|k: int|
                0 <= k < i ==> statement_eq(#[trigger] first@[k], second@[k]),
        decreases first.len() - i,
    {
        if !same_statement(&first[i], &second[i]) {
            assert(E::obeys_eq_spec() && V::obeys_eq_spec() ==> !statement_eq(
                first@[i as int],
                second@[i as int],
            ));
            return false;
        }
        i += 1;
    }
    true
}

/// Whether the two conditional statements are equal.
fn same_conditional<E: PartialEq, V: PartialEq>(
    first: &ConditionalStatement<E, V>,
    second: &ConditionalStatement<E, V>,
) -> (same: bool)
    ensures
        E::obeys_eq_spec() && V::obeys_eq_spec() ==> same == conditional_eq(*first, *second),
    decreases first,
{
    first.condition == second.condition && same_block(&first.inner, &second.inner) && match (
        &first.otherwise,
        &second.otherwise,
    ) {
        (Some(body), Some(other_body)) => same_block(body, other_body),
        (None, None) => true,
        _ => false,
    }
}

/// Whether the two loops are equal.
fn same_loop<E: PartialEq, V: PartialEq>(
    first: &LoopStatement<E, V>,
    second: &LoopStatement<E, V>,
) -> (same: bool)
    ensures
        E::obeys_eq_spec() && V::obeys_eq_spec() ==> same == loop_eq(*first, *second),
    decreases first,
{
    first.execute_type == second.execute_type && same_block(&first.inner, &second.inner)
}

/// Whether the two function definitions are equal.
fn same_define<E: PartialEq, V: PartialEq>(
    first: &FunctionDefine<E, V>,
    second: &FunctionDefine<E, V>,
) -> (same: bool)
    ensures
        E::obeys_eq_spec() && V::obeys_eq_spec() ==> same == define_eq(*first, *second),
    decreases first,
{
    same_optional_text(&first.name, &second.name) && first.params == second.params && same_block(
        &first.inner,
        &second.inner,
    )
}

/// Two statements are equal as [`statement_eq`] says.
impl<E: PartialEq, V: PartialEq> PartialEq for DioAstStatement<E, V> {
    fn eq(&self, other: &Self) -> (same: bool) {
        same_statement(self, other)
    }
}

impl<E: PartialEq, V: PartialEq> vstd::std_specs::cmp::PartialEqSpecImpl for DioAstStatement<E, V> {
    open spec fn obeys_eq_spec() -> bool {
        E::obeys_eq_spec() && V::obeys_eq_spec()
    }

    open spec fn eq_spec(&self, other: &Self) -> bool {
        statement_eq(*self, *other)
    }
}

/// Two conditional statements are equal as [`conditional_eq`] says.
impl<E: PartialEq, V: PartialEq> PartialEq for ConditionalStatement<E, V> {
    fn eq(&self, other: &Self) -> (same: bool) {
        same_conditional(self, other)
    }
}

impl<E: PartialEq, V: PartialEq> vstd::std_specs::cmp::PartialEqSpecImpl for ConditionalStatement<E, V> {
    open spec fn obeys_eq_spec() -> bool {
        E::obeys_eq_spec() && V::obeys_eq_spec()
    }

    open spec fn eq_spec(&self, other: &Self) -> bool {
        conditional_eq(*self, *other)
    }
}

/// Two loops are equal as [`loop_eq`] says.
impl<E: PartialEq, V: PartialEq> PartialEq for LoopStatement<E, V> {
    fn eq(&self, other: &Self) -> (same: bool) {
        same_loop(self, other)
    }
}

impl<E: PartialEq, V: PartialEq> vstd::std_specs::cmp::PartialEqSpecImpl for LoopStatement<E, V> {
    open spec fn obeys_eq_spec() -> bool {
        E::obeys_eq_spec() && V::obeys_eq_spec()
    }

    open spec fn eq_spec(&self, other: &Self) -> bool {
        loop_eq(*self, *other)
    }
}

/// Two function definitions are equal as [`define_eq`] says.
impl<E: PartialEq, V: PartialEq> PartialEq for FunctionDefine<E, V> {
    fn eq(&self, other: &Self) -> (same: bool) {
        same_define(self, other)
    }
}

impl<E: PartialEq, V: PartialEq> vstd::std_specs::cmp::PartialEqSpecImpl for FunctionDefine<E, V> {
    open spec fn obeys_eq_spec() -> bool {
        E::obeys_eq_spec() && V::obeys_eq_spec()
    }

    open spec fn eq_spec(&self, other: &Self) -> bool {
        define_eq(*self, *other)
    }
}

/// Two programs are equal where they hold as many statements, equal place by place.
impl<E: PartialEq, V: PartialEq> PartialEq for DioscriptAst<E, V> {
    fn eq(&self, other: &Self) -> (same: bool) {
        same_block(&self.stats, &other.stats)
    }
}

impl<E: PartialEq, V: PartialEq> vstd::std_specs::cmp::PartialEqSpecImpl for DioscriptAst<E, V> {
    open spec fn obeys_eq_spec() -> bool {
        E::obeys_eq_spec() && V::obeys_eq_spec()
    }

    open spec fn eq_spec(&self, other: &Self) -> bool {
        block_eq(self.stats@, other.stats@)
    }
}

/// Where equality of expressions and of values goes by their models, equality of statements
/// goes by the models of the statements: two statements are equal exactly where they are the same
/// field by field, through all their bodies.
pub proof fn lemma_statement_eq_is_model_eq<E: PartialEq + DeepView, V: PartialEq + DeepView>(
    first: DioAstStatement<E, V>,
    second: DioAstStatement<E, V>,
)
    requires
        obeys_deep_eq::<E>(),
        obeys_deep_eq::<V>(),
    ensures
        statement_eq(first, second) <==> statement_view(first) == statement_view(second),
    decreases first,
{
    reveal(obeys_deep_eq);
    match (first, second) {
        (DioAstStatement::VariableAss(a), DioAstStatement::VariableAss(b)) => {},
        (DioAstStatement::ReturnValue(a), DioAstStatement::ReturnValue(b)) => {},
        (DioAstStatement::IfStatement(a), DioAstStatement::IfStatement(b)) => {
            lemma_block_eq_is_model_eq(a.inner@, b.inner@);
            match (a.otherwise, b.otherwise) {
                (Some(body), Some(other_body)) => {
                    lemma_block_eq_is_model_eq(body@, other_body@);
                },
                _ => {},
            }
        },
        (DioAstStatement::LoopStatement(a), DioAstStatement::LoopStatement(b)) => {
            lemma_block_eq_is_model_eq(a.inner@, b.inner@);
        },
        (DioAstStatement::LineComment(a), DioAstStatement::LineComment(b)) => {},
        (DioAstStatement::FunctionCall(a), DioAstStatement::FunctionCall(b)) => {
            lemma_values_eq_is_model_eq(a.arguments, b.arguments);
        },
        (DioAstStatement::FunctionDefine(a), DioAstStatement::FunctionDefine(b)) => {
            lemma_block_eq_is_model_eq(a.inner@, b.inner@);
        },
        (DioAstStatement::ModuleUse(a), DioAstStatement::ModuleUse(b)) => {},
        _ => {},
    }
}

/// Where equality of expressions and of values goes by their models, equality of bodies goes by
/// the models of the bodies.
pub proof fn lemma_block_eq_is_model_eq<E: PartialEq + DeepView, V: PartialEq + DeepView>(
    first: Seq<DioAstStatement<E, V>>,
    second: Seq<DioAstStatement<E, V>>,
)
    requires
        obeys_deep_eq::<E>(),
        obeys_deep_eq::<V>(),
    ensures
        block_eq(first, second) <==> block_view(first) == block_view(second),
    decreases first,
{
    if first.len() == second.len() {
        assert forall|i: int| 0 <= i < first.len() implies (statement_eq(first[i], second[i])
            <==> block_view(first)[i] == block_view(second)[i]) by {
            lemma_statement_eq_is_model_eq(first[i], second[i]);
        }
        if block_eq(first, second) {
            assert(block_view(first) =~= block_view(second));
        }
        if block_view(first) == block_view(second) {
            assert forall|i: int| 0 <= i < first.len() implies statement_eq(
                #[trigger] first[i],
                second[i],
            ) by {
                assert(block_view(first)[i] == block_view(second)[i]);
            }
        }
    } else {
        assert(block_view(first).len() != block_view(second).len());
    }
}

/// Where equality of values goes by their models, two lists of values are equal place by place
/// exactly where their models are equal.
proof fn lemma_values_eq_is_model_eq<V: PartialEq + DeepView>(first: Vec<V>, second: Vec<V>)
    requires
        obeys_deep_eq::<V>(),
    ensures
        first.deep_view() == second.deep_view() <==> first.len() == second.len() && forall|i: int|
            0 <= i < first.len() ==> (#[trigger] first[i]).eq_spec(&second[i]),
{
    reveal(obeys_deep_eq);
    if first.len() == second.len() {
        if forall|i: int| 0 <= i < first.len() ==> (#[trigger] first[i]).eq_spec(&second[i]) {
            assert(first.deep_view() =~= second.deep_view());
        }
        if first.deep_view() == second.deep_view() {
            assert forall|i: int| 0 <= i < first.len() implies (#[trigger] first[i]).eq_spec(
                &second[i],
            ) by {
                assert(first.deep_view()[i] == second.deep_view()[i]);
            }
        }
    } else {
        assert(first.deep_view().len() != second.deep_view().len());
    }
}

/// Where `==` on expressions and on values goes by their models, `==` on programs goes by the
/// models of the programs: two programs are equal exactly where they are the same statement by
/// statement, field by field, through all bodies.
pub proof fn lemma_program_eq_is_model_eq<E: PartialEq + DeepView, V: PartialEq + DeepView>()
    requires
        obeys_deep_eq::<E>(),
        obeys_deep_eq::<V>(),
    ensures
        obeys_deep_eq::<DioscriptAst<E, V>>(),
        obeys_deep_eq::<DioAstStatement<E, V>>(),
{
    reveal(obeys_deep_eq);
    assert forall|first: DioscriptAst<E, V>, second: DioscriptAst<E, V>|
        first.eq_spec(&second) <==> first.deep_view() == second.deep_view() by {
        lemma_block_eq_is_model_eq(first.stats@, second.stats@);
    }
    assert forall|first: DioAstStatement<E, V>, second: DioAstStatement<E, V>|
        first.eq_spec(&second) <==> first.deep_view() == second.deep_view() by {
        lemma_statement_eq_is_model_eq(first, second);
    }
}

} // verus!
