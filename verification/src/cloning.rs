//! Copies of syntax trees and of their parts.
//!
//! A copy is of the same kind as what it was made of and holds the same texts; each expression
//! and each value in it is a clone of the one in its place. Where a clone of an expression or of
//! a value has the model of what it was made of, so has a copy of a tree.

use crate::ast::{
    block_view, statement_view, ConditionalStatement, DioAstStatement, DioscriptAst, FunctionCall,
    FunctionDefine, LoopExecuteType, LoopStatement, ParamsType, UseStatement, VariableDefine,
};
use crate::name::FunctionName;
use vstd::prelude::*;

verus! {

/// A copy of `texts`.
fn copy_texts(texts: &Vec<String>) -> (copy: Vec<String>)
    ensures
        copy.deep_view() == texts.deep_view(),
{
    texts.clone()
}

/// A copy of `text`, where there is one.
fn copy_optional_text(text: &Option<String>) -> (copy: Option<String>)
    ensures
        copy.deep_view() == text.deep_view(),
{
    match text {
        Some(text) => Some(text.clone()),
        None => None,
    }
}

/// A copy of a name holds the same texts in the same order.
impl Clone for FunctionName {
    fn clone(&self) -> (copy: Self)
        ensures
            copy.deep_view() == self.deep_view(),
    {
        match self {
            FunctionName::Single(name) => FunctionName::Single(name.clone()),
            FunctionName::Namespace(segments) => FunctionName::Namespace(copy_texts(segments)),
        }
    }
}

/// A copy of a list of parameters holds the same names in the same order.
impl Clone for ParamsType {
    fn clone(&self) -> (copy: Self)
        ensures
            copy.deep_view() == self.deep_view(),
    {
        match self {
            ParamsType::Variable(name) => ParamsType::Variable(name.clone()),
            ParamsType::List(names) => ParamsType::List(copy_texts(names)),
        }
    }
}

/// A copy of a path holds the same segments in the same order.
impl Clone for UseStatement {
    fn clone(&self) -> (copy: Self)
        ensures
            copy.deep_view() == self.deep_view(),
    {
        UseStatement(copy_texts(&self.0))
    }
}

/// A copy of an assignment, as [`variable_cloned`] says.
impl<E: Clone> Clone for VariableDefine<E> {
    fn clone(&self) -> (copy: Self)
        ensures
            variable_cloned(*self, copy),
    {
        VariableDefine { new: self.new, name: self.name.clone(), expr: self.expr.clone() }
    }
}

/// Whether `copy` can be a copy of the assignment `from`.
pub open spec fn variable_cloned<E: Clone>(
    from: VariableDefine<E>,
    copy: VariableDefine<E>,
) -> bool {
    &&& copy.new == from.new
    &&& copy.name@ == from.name@
    &&& cloned(from.expr, copy.expr)
}

/// A copy of a call, as [`call_cloned`] says.
impl<V: Clone> Clone for FunctionCall<V> {
    fn clone(&self) -> (copy: Self)
        ensures
            call_cloned(*self, copy),
    {
        FunctionCall { name: self.name.clone(), arguments: self.arguments.clone() }
    }
}

/// Whether `copy` can be a copy of the call `from`.
pub open spec fn call_cloned<V: Clone>(from: FunctionCall<V>, copy: FunctionCall<V>) -> bool {
    &&& copy.name.deep_view() == from.name.deep_view()
    &&& copy.arguments.len() == from.arguments.len()
    &&& forall|i: int|
        0 <= i < from.arguments.len() ==> cloned(#[trigger] from.arguments[i], copy.arguments[i])
}

/// A copy of a kind of loop, as [`kind_cloned`] says.
impl<E: Clone, V: Clone> Clone for LoopExecuteType<E, V> {
    fn clone(&self) -> (copy: Self)
        ensures
            kind_cloned(*self, copy),
    {
        match self {
            LoopExecuteType::Conditional(condition) => LoopExecuteType::Conditional(
                condition.clone(),
            ),
            LoopExecuteType::Iter { iter, var } => LoopExecuteType::Iter {
                iter: iter.clone(),
                var: var.clone(),
            },
        }
    }
}

/// Whether `copy` can be a copy of the kind of loop `from`.
pub open spec fn kind_cloned<E: Clone, V: Clone>(
    from: LoopExecuteType<E, V>,
    copy: LoopExecuteType<E, V>,
) -> bool {
    match (from, copy) {
        (LoopExecuteType::Conditional(a), LoopExecuteType::Conditional(b)) => cloned(a, b),
        (
            LoopExecuteType::Iter { iter: a, var: name },
            LoopExecuteType::Iter { iter: b, var: other_name },
        ) => cloned(a, b) && other_name@ == name@,
        _ => false,
    }
}

/// Whether `copy` can be a copy of the statement `from`: whether it is of the same kind and
/// holds the same texts, clones of its expressions and values, and such copies of its bodies.
pub open spec fn statement_cloned<E: Clone, V: Clone>(
    from: DioAstStatement<E, V>,
    copy: DioAstStatement<E, V>,
) -> bool
    decreases from,
{
    match (from, copy) {
        (DioAstStatement::VariableAss(a), DioAstStatement::VariableAss(b)) => variable_cloned(
            a,
            b,
        ),
        (DioAstStatement::ReturnValue(a), DioAstStatement::ReturnValue(b)) => cloned(a, b),
        (DioAstStatement::IfStatement(a), DioAstStatement::IfStatement(b)) => conditional_cloned(
            a,
            b,
        ),
        (DioAstStatement::LoopStatement(a), DioAstStatement::LoopStatement(b)) => loop_cloned(
            a,
            b,
        ),
        (DioAstStatement::LineComment(a), DioAstStatement::LineComment(b)) => b@ == a@,
        (DioAstStatement::FunctionCall(a), DioAstStatement::FunctionCall(b)) => call_cloned(a, b),
        (DioAstStatement::FunctionDefine(a), DioAstStatement::FunctionDefine(b)) => define_cloned(
            a,
            b,
        ),
        (DioAstStatement::ModuleUse(a), DioAstStatement::ModuleUse(b)) => b.deep_view()
            == a.deep_view(),
        _ => false,
    }
}

/// Whether `copy` can be a copy of the body `from`, statement by statement.
pub open spec fn block_cloned<E: Clone, V: Clone>(
    from: Seq<DioAstStatement<E, V>>,
    copy: Seq<DioAstStatement<E, V>>,
) -> bool
    decreases from,
{
    &&& copy.len() == from.len()
    &&& forall|i: int| 0 <= i < from.len() ==> statement_cloned(#[trigger] from[i], copy[i])
}

/// Whether `copy` can be a copy of the conditional statement `from`.
pub open spec fn conditional_cloned<E: Clone, V: Clone>(
    from: ConditionalStatement<E, V>,
    copy: ConditionalStatement<E, V>,
) -> bool
    decreases from,
{
    &&& cloned(from.condition, copy.condition)
    &&& block_cloned(from.inner@, copy.inner@)
    &&& match (from.otherwise, copy.otherwise) {
        (Some(body), Some(other_body)) => block_cloned(body@, other_body@),
        (None, None) => true,
        _ => false,
    }
}

/// Whether `copy` can be a copy of the loop `from`.
pub open spec fn loop_cloned<E: Clone, V: Clone>(
    from: LoopStatement<E, V>,
    copy: LoopStatement<E, V>,
) -> bool
    decreases from,
{
    &&& kind_cloned(from.execute_type, copy.execute_type)
    &&& block_cloned(from.inner@, copy.inner@)
}

/// Whether `copy` can be a copy of the function definition `from`.
pub open spec fn define_cloned<E: Clone, V: Clone>(
    from: FunctionDefine<E, V>,
    copy: FunctionDefine<E, V>,
) -> bool
    decreases from,
{
    &&& copy.name.deep_view() == from.name.deep_view()
    &&& copy.params.deep_view() == from.params.deep_view()
    &&& block_cloned(from.inner@, copy.inner@)
}

/// A copy of `statement`, with copies of the statements that it owns.
fn copy_statement<E: Clone, V: Clone>(statement: &DioAstStatement<E, V>) -> (copy: DioAstStatement<
    E,
    V,
>)
    ensures
        statement_cloned(*statement, copy),
    decreases statement,
{
    match statement {
        DioAstStatement::VariableAss(define) => DioAstStatement::VariableAss(define.clone()),
        DioAstStatement::ReturnValue(expr) => DioAstStatement::ReturnValue(expr.clone()),
        DioAstStatement::IfStatement(conditional) => DioAstStatement::IfStatement(
            copy_conditional(conditional),
        ),
        DioAstStatement::LoopStatement(repeat) => DioAstStatement::LoopStatement(
            copy_loop(repeat),
        ),
        DioAstStatement::LineComment(text) => DioAstStatement::LineComment(text.clone()),
        DioAstStatement::FunctionCall(call) => DioAstStatement::FunctionCall(call.clone()),
        DioAstStatement::FunctionDefine(define) => DioAstStatement::FunctionDefine(
            copy_define(define),
        ),
        DioAstStatement::ModuleUse(path) => DioAstStatement::ModuleUse(path.clone()),
    }
}

/// Copies of the statements of `body`, in their order.
fn copy_block<E: Clone, V: Clone>(body: &Vec<DioAstStatement<E, V>>) -> (copy: Vec<
    DioAstStatement<E, V>,
>)
    ensures
        block_cloned(body@, copy@),
    decreases body,
{
    let mut copy: Vec<DioAstStatement<E, V>> = Vec::new();
    let mut i: usize = 0;
    while i < body.len()
        invariant
            i <= body.len(),
            copy@.len() == i,
            forall|k: int| 0 <= k < i ==> statement_cloned(#[trigger] body@[k], copy@[k]),
        decreases body.len() - i,
    {
        copy.push(copy_statement(&body[i]));
        i += 1;
    }
    copy
}

/// A copy of `conditional`, with copies of its bodies.
fn copy_conditional<E: Clone, V: Clone>(conditional: &ConditionalStatement<E, V>) -> (copy:
    ConditionalStatement<E, V>)
    ensures
        conditional_cloned(*conditional, copy),
    decreases conditional,
{
    ConditionalStatement {
        condition: conditional.condition.clone(),
        inner: copy_block(&conditional.inner),
        otherwise: match &conditional.otherwise {
            Some(body) => Some(copy_block(body)),
            None => None,
        },
    }
}

/// A copy of `repeat`, with a copy of its body.
fn copy_loop<E: Clone, V: Clone>(repeat: &LoopStatement<E, V>) -> (copy: LoopStatement<E, V>)
    ensures
        loop_cloned(*repeat, copy),
    decreases repeat,
{
    LoopStatement { execute_type: repeat.execute_type.clone(), inner: copy_block(&repeat.inner) }
}

/// A copy of `define`, with a copy of its body.
fn copy_define<E: Clone, V: Clone>(define: &FunctionDefine<E, V>) -> (copy: FunctionDefine<E, V>)
    ensures
        define_cloned(*define, copy),
    decreases define,
{
    FunctionDefine {
        name: copy_optional_text(&define.name),
        params: define.params.clone(),
        inner: copy_block(&define.inner),
    }
}

/// A copy of a statement, as [`statement_cloned`] says.
impl<E: Clone, V: Clone> Clone for DioAstStatement<E, V> {
    fn clone(&self) -> (copy: Self)
        ensures
            statement_cloned(*self, copy),
    {
        copy_statement(self)
    }
}

/// A copy of a conditional statement, as [`conditional_cloned`] says.
impl<E: Clone, V: Clone> Clone for ConditionalStatement<E, V> {
    fn clone(&self) -> (copy: Self)
        ensures
            conditional_cloned(*self, copy),
    {
        copy_conditional(self)
    }
}

/// A copy of a loop, as [`loop_cloned`] says.
impl<E: Clone, V: Clone> Clone for LoopStatement<E, V> {
    fn clone(&self) -> (copy: Self)
        ensures
            loop_cloned(*self, copy),
    {
        copy_loop(self)
    }
}

/// A copy of a function definition, as [`define_cloned`] says.
impl<E: Clone, V: Clone> Clone for FunctionDefine<E, V> {
    fn clone(&self) -> (copy: Self)
        ensures
            define_cloned(*self, copy),
    {
        copy_define(self)
    }
}

/// A copy of a program holds copies of its statements, in their order.
impl<E: Clone, V: Clone> Clone for DioscriptAst<E, V> {
    fn clone(&self) -> (copy: Self)
        ensures
            block_cloned(self.stats@, copy.stats@),
    {
        DioscriptAst { stats: copy_block(&self.stats) }
    }
}

/// Whether a clone of a `T` always has the model of what it was made of.
pub open spec fn clone_keeps_model<T: Clone + DeepView>() -> bool {
    forall|from: T, copy: T| #[trigger] cloned(from, copy) ==> copy.deep_view() == from.deep_view()
}

/// Where clones of expressions and of values keep the model, a copy of a statement has the model
/// of the statement.
pub proof fn lemma_statement_cloned_keeps_model<E: Clone + DeepView, V: Clone + DeepView>(
    from: DioAstStatement<E, V>,
    copy: DioAstStatement<E, V>,
)
    requires
        clone_keeps_model::<E>(),
        clone_keeps_model::<V>(),
        statement_cloned(from, copy),
    ensures
        statement_view(copy) == statement_view(from),
    decreases from,
{
    match (from, copy) {
        (DioAstStatement::IfStatement(a), DioAstStatement::IfStatement(b)) => {
            lemma_block_cloned_keeps_model(a.inner@, b.inner@);
            match (a.otherwise, b.otherwise) {
                (Some(body), Some(other_body)) => {
                    lemma_block_cloned_keeps_model(body@, other_body@);
                },
                _ => {},
            }
        },
        (DioAstStatement::LoopStatement(a), DioAstStatement::LoopStatement(b)) => {
            lemma_block_cloned_keeps_model(a.inner@, b.inner@);
        },
        (DioAstStatement::FunctionCall(a), DioAstStatement::FunctionCall(b)) => {
            assert(b.arguments.deep_view() =~= a.arguments.deep_view());
        },
        (DioAstStatement::FunctionDefine(a), DioAstStatement::FunctionDefine(b)) => {
            lemma_block_cloned_keeps_model(a.inner@, b.inner@);
        },
        _ => {},
    }
}

/// Where clones of expressions and of values keep the model, a copy of a body has the model of
/// the body.
pub proof fn lemma_block_cloned_keeps_model<E: Clone + DeepView, V: Clone + DeepView>(
    from: Seq<DioAstStatement<E, V>>,
    copy: Seq<DioAstStatement<E, V>>,
)
    requires
        clone_keeps_model::<E>(),
        clone_keeps_model::<V>(),
        block_cloned(from, copy),
    ensures
        block_view(copy) == block_view(from),
    decreases from,
{
    assert forall|i: int| 0 <= i < from.len() implies block_view(copy)[i] == block_view(
        from,
    )[i] by {
        lemma_statement_cloned_keeps_model(from[i], copy[i]);
    }
}

} // verus!
