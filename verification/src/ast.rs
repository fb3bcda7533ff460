//! The syntax tree of a program: the closed set of statement shapes.
//!
//! A program is a list of statements in source order. Statements that hold a body own the
//! statements of that body, so a program is a tree. Expressions and values are leaves that the
//! tree carries and never looks into: the tree is generic in their types, `E` for an expression
//! and `V` for a value.
//!
//! Each type has a mathematical model, its deep view, in which texts are sequences of characters
//! and lists are sequences. Two trees with the same deep view hold the same program.

use crate::name::{FunctionName, FunctionNameView};
use vstd::prelude::*;

verus! {

/// A program: its statements in source order.
#[derive(Debug)]
pub struct DioscriptAst<E, V> {
    pub stats: Vec<DioAstStatement<E, V>>,
}

/// One statement.
#[derive(Debug)]
pub enum DioAstStatement<E, V> {
    /// A variable is declared or assigned.
    VariableAss(VariableDefine<E>),
    /// The value of an expression is returned.
    ReturnValue(E),
    /// A body runs if a condition holds, another if it does not.
    IfStatement(ConditionalStatement<E, V>),
    /// A body runs repeatedly.
    LoopStatement(LoopStatement<E, V>),
    /// A comment, with its text. It changes nothing in what the program does.
    LineComment(String),
    /// A function is called for its effect.
    FunctionCall(FunctionCall<V>),
    /// A function is defined.
    FunctionDefine(FunctionDefine<E, V>),
    /// A module is brought into scope.
    ModuleUse(UseStatement),
}

/// `name` is bound to the value of `expr`: for the first time where `new` is set, again where
/// it is not.
#[derive(Debug)]
pub struct VariableDefine<E> {
    pub new: bool,
    pub name: String,
    pub expr: E,
}

/// A call of the function `name` with `arguments`, in their order.
#[derive(Debug)]
pub struct FunctionCall<V> {
    pub name: FunctionName,
    pub arguments: Vec<V>,
}

/// A function with its parameters and body. It is anonymous where `name` is absent.
#[derive(Debug)]
pub struct FunctionDefine<E, V> {
    pub name: Option<String>,
    pub params: ParamsType,
    pub inner: Vec<DioAstStatement<E, V>>,
}

/// The parameters of a function.
#[derive(Debug)]
pub enum ParamsType {
    /// One name that receives all the arguments.
    Variable(String),
    /// One name for each argument, in their order.
    List(Vec<String>),
}

/// `inner` runs if `condition` holds, and `otherwise`, where present, if it does not. A chain of
/// further conditions is an `otherwise` whose one statement is again conditional.
#[derive(Debug)]
pub struct ConditionalStatement<E, V> {
    pub condition: E,
    pub inner: Vec<DioAstStatement<E, V>>,
    pub otherwise: Option<Vec<DioAstStatement<E, V>>>,
}

/// `inner` runs as often as `execute_type` says.
#[derive(Debug)]
pub struct LoopStatement<E, V> {
    pub execute_type: LoopExecuteType<E, V>,
    pub inner: Vec<DioAstStatement<E, V>>,
}

/// The path of a module, outermost segment first. A path has at least one segment.
#[derive(Debug)]
pub struct UseStatement(pub Vec<String>);

/// How often a loop runs.
#[derive(Debug)]
pub enum LoopExecuteType<E, V> {
    /// As long as the condition holds.
    Conditional(E),
    /// Once for each item of `iter`, which `var` names in the body.
    Iter { iter: V, var: String },
}

/// The model of a [`DioscriptAst`].
pub struct DioscriptAstView<E, V> {
    pub stats: Seq<DioAstStatementView<E, V>>,
}

/// The model of a [`DioAstStatement`].
pub enum DioAstStatementView<E, V> {
    VariableAss(VariableDefineView<E>),
    ReturnValue(E),
    IfStatement(ConditionalStatementView<E, V>),
    LoopStatement(LoopStatementView<E, V>),
    LineComment(Seq<char>),
    FunctionCall(FunctionCallView<V>),
    FunctionDefine(FunctionDefineView<E, V>),
    ModuleUse(UseStatementView),
}

/// The model of a [`VariableDefine`].
pub struct VariableDefineView<E> {
    pub new: bool,
    pub name: Seq<char>,
    pub expr: E,
}

/// The model of a [`FunctionCall`].
pub struct FunctionCallView<V> {
    pub name: FunctionNameView,
    pub arguments: Seq<V>,
}

/// The model of a [`FunctionDefine`].
pub struct FunctionDefineView<E, V> {
    pub name: Option<Seq<char>>,
    pub params: ParamsTypeView,
    pub inner: Seq<DioAstStatementView<E, V>>,
}

/// The model of a [`ParamsType`].
pub enum ParamsTypeView {
    Variable(Seq<char>),
    List(Seq<Seq<char>>),
}

/// The model of a [`ConditionalStatement`].
pub struct ConditionalStatementView<E, V> {
    pub condition: E,
    pub inner: Seq<DioAstStatementView<E, V>>,
    pub otherwise: Option<Seq<DioAstStatementView<E, V>>>,
}

/// The model of a [`LoopStatement`].
pub struct LoopStatementView<E, V> {
    pub execute_type: LoopExecuteTypeView<E, V>,
    pub inner: Seq<DioAstStatementView<E, V>>,
}

/// The model of a [`UseStatement`].
pub struct UseStatementView(pub Seq<Seq<char>>);

/// The model of a [`LoopExecuteType`].
pub enum LoopExecuteTypeView<E, V> {
    Conditional(E),
    Iter { iter: V, var: Seq<char> },
}

/// The model of one statement, with the models of the statements that it owns.
pub open spec fn statement_view<E: DeepView, V: DeepView>(
    statement: DioAstStatement<E, V>,
) -> DioAstStatementView<E::V, V::V>
    decreases statement,
{
    match statement {
        DioAstStatement::VariableAss(define) => DioAstStatementView::VariableAss(
            define.deep_view(),
        ),
        DioAstStatement::ReturnValue(expr) => DioAstStatementView::ReturnValue(expr.deep_view()),
        DioAstStatement::IfStatement(conditional) => DioAstStatementView::IfStatement(
            conditional_view(conditional),
        ),
        DioAstStatement::LoopStatement(repeat) => DioAstStatementView::LoopStatement(
            loop_view(repeat),
        ),
        DioAstStatement::LineComment(text) => DioAstStatementView::LineComment(text@),
        DioAstStatement::FunctionCall(call) => DioAstStatementView::FunctionCall(call.deep_view()),
        DioAstStatement::FunctionDefine(define) => DioAstStatementView::FunctionDefine(
            define_view(define),
        ),
        DioAstStatement::ModuleUse(path) => DioAstStatementView::ModuleUse(path.deep_view()),
    }
}

/// The models of the statements of a body, in their order.
pub open spec fn block_view<E: DeepView, V: DeepView>(
    body: Seq<DioAstStatement<E, V>>,
) -> Seq<DioAstStatementView<E::V, V::V>>
    decreases body,
{
    Seq::new(
        body.len(),
        |i: int|
            if 0 <= i < body.len() {
                statement_view(body[i])
            } else {
                arbitrary()
            },
    )
}

/// The model of a conditional statement, with the models of its bodies.
pub open spec fn conditional_view<E: DeepView, V: DeepView>(
    conditional: ConditionalStatement<E, V>,
) -> ConditionalStatementView<E::V, V::V>
    decreases conditional,
{
    ConditionalStatementView {
        condition: conditional.condition.deep_view(),
        inner: block_view(conditional.inner@),
        otherwise: match conditional.otherwise {
            Some(body) => Some(block_view(body@)),
            None => None,
        },
    }
}

/// The model of a loop, with the model of its body.
pub open spec fn loop_view<E: DeepView, V: DeepView>(
    repeat: LoopStatement<E, V>,
) -> LoopStatementView<E::V, V::V>
    decreases repeat,
{
    LoopStatementView {
        execute_type: repeat.execute_type.deep_view(),
        inner: block_view(repeat.inner@),
    }
}

/// The model of a function definition, with the model of its body.
pub open spec fn define_view<E: DeepView, V: DeepView>(
    define: FunctionDefine<E, V>,
) -> FunctionDefineView<E::V, V::V>
    decreases define,
{
    FunctionDefineView {
        name: define.name.deep_view(),
        params: define.params.deep_view(),
        inner: block_view(define.inner@),
    }
}

impl<E: DeepView, V: DeepView> DeepView for DioscriptAst<E, V> {
    type V = DioscriptAstView<E::V, V::V>;

    open spec fn deep_view(&self) -> Self::V {
        DioscriptAstView { stats: block_view(self.stats@) }
    }
}

impl<E: DeepView, V: DeepView> DeepView for DioAstStatement<E, V> {
    type V = DioAstStatementView<E::V, V::V>;

    open spec fn deep_view(&self) -> Self::V {
        statement_view(*self)
    }
}

impl<E: DeepView> DeepView for VariableDefine<E> {
    type V = VariableDefineView<E::V>;

    open spec fn deep_view(&self) -> Self::V {
        VariableDefineView { new: self.new, name: self.name@, expr: self.expr.deep_view() }
    }
}

impl<V: DeepView> DeepView for FunctionCall<V> {
    type V = FunctionCallView<V::V>;

    open spec fn deep_view(&self) -> Self::V {
        FunctionCallView { name: self.name.deep_view(), arguments: self.arguments.deep_view() }
    }
}

impl<E: DeepView, V: DeepView> DeepView for FunctionDefine<E, V> {
    type V = FunctionDefineView<E::V, V::V>;

    open spec fn deep_view(&self) -> Self::V {
        define_view(*self)
    }
}

impl DeepView for ParamsType {
    type V = ParamsTypeView;

    open spec fn deep_view(&self) -> Self::V {
        match self {
            ParamsType::Variable(name) => ParamsTypeView::Variable(name@),
            ParamsType::List(names) => ParamsTypeView::List(names.deep_view()),
        }
    }
}

impl<E: DeepView, V: DeepView> DeepView for ConditionalStatement<E, V> {
    type V = ConditionalStatementView<E::V, V::V>;

    open spec fn deep_view(&self) -> Self::V {
        conditional_view(*self)
    }
}

impl<E: DeepView, V: DeepView> DeepView for LoopStatement<E, V> {
    type V = LoopStatementView<E::V, V::V>;

    open spec fn deep_view(&self) -> Self::V {
        loop_view(*self)
    }
}

impl DeepView for UseStatement {
    type V = UseStatementView;

    open spec fn deep_view(&self) -> Self::V {
        UseStatementView(self.0.deep_view())
    }
}

impl<E: DeepView, V: DeepView> DeepView for LoopExecuteType<E, V> {
    type V = LoopExecuteTypeView<E::V, V::V>;

    open spec fn deep_view(&self) -> Self::V {
        match self {
            LoopExecuteType::Conditional(condition) => LoopExecuteTypeView::Conditional(
                condition.deep_view(),
            ),
            LoopExecuteType::Iter { iter, var } => LoopExecuteTypeView::Iter {
                iter: iter.deep_view(),
                var: var@,
            },
        }
    }
}

} // verus!
