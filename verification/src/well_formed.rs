//! What holds of every tree that a grammar engine may hand out, and how to find out whether it
//! holds of a given tree.
//!
//! Every name is an identifier, which is to say not empty: the name of a variable, of a
//! parameter, of a function that has one, and each segment of a path. A path, of a module or of
//! a function, has at least one segment. Nothing is asked of the text of a comment, nor of
//! expressions and values.

use crate::ast::{
    block_view, ConditionalStatement, ConditionalStatementView, DioAstStatement,
    DioAstStatementView, DioscriptAst, DioscriptAstView, FunctionCall, FunctionCallView,
    FunctionDefine, FunctionDefineView, LoopExecuteType, LoopExecuteTypeView, LoopStatement,
    LoopStatementView, ParamsType, ParamsTypeView, UseStatement, UseStatementView, VariableDefine,
    VariableDefineView,
};
use crate::name::{all_identifiers, are_identifiers, is_identifier};
use vstd::prelude::*;

verus! {

impl<E> VariableDefineView<E> {
    /// The variable has a name.
    pub open spec fn well_formed(self) -> bool {
        is_identifier(self.name)
    }
}

impl<V> FunctionCallView<V> {
    /// The name of the function is well formed.
    pub open spec fn well_formed(self) -> bool {
        self.name.well_formed()
    }
}

impl ParamsTypeView {
    /// Each parameter has a name.
    pub open spec fn well_formed(self) -> bool {
        match self {
            ParamsTypeView::Variable(name) => is_identifier(name),
            ParamsTypeView::List(names) => are_identifiers(names),
        }
    }
}

impl UseStatementView {
    /// The path has at least one segment, and each segment is an identifier.
    pub open spec fn well_formed(self) -> bool {
        self.0.len() > 0 && are_identifiers(self.0)
    }
}

impl<E, V> LoopExecuteTypeView<E, V> {
    /// The variable that names the item has a name.
    pub open spec fn well_formed(self) -> bool {
        self matches LoopExecuteTypeView::Iter { var, .. } ==> is_identifier(var)
    }
}

impl<E, V> DioAstStatementView<E, V> {
    /// Every name in the statement, and in the statements that it owns, is an identifier, and
    /// every path has at least one segment. A name that is absent, the text of a comment, the
    /// expressions and the values are free.
    pub open spec fn well_formed(self) -> bool
        decreases self,
    {
        match self {
            DioAstStatementView::VariableAss(define) => define.well_formed(),
            DioAstStatementView::ReturnValue(_) => true,
            DioAstStatementView::IfStatement(conditional) => {
                &&& block_well_formed(conditional.inner)
                &&& conditional.otherwise matches Some(body) ==> block_well_formed(body)
            },
            DioAstStatementView::LoopStatement(repeat) => {
                &&& repeat.execute_type.well_formed()
                &&& block_well_formed(repeat.inner)
            },
            DioAstStatementView::LineComment(_) => true,
            DioAstStatementView::FunctionCall(call) => call.well_formed(),
            DioAstStatementView::FunctionDefine(define) => {
                &&& define.name matches Some(name) ==> is_identifier(name)
                &&& define.params.well_formed()
                &&& block_well_formed(define.inner)
            },
            DioAstStatementView::ModuleUse(path) => path.well_formed(),
        }
    }
}

/// Every statement of `body` is well formed.
pub open spec fn block_well_formed<E, V>(body: Seq<DioAstStatementView<E, V>>) -> bool
    decreases body,
{
    forall|i: int| 0 <= i < body.len() ==> (#[trigger] body[i]).well_formed()
}

impl<E, V> ConditionalStatementView<E, V> {
    /// Both bodies are well formed.
    pub open spec fn well_formed(self) -> bool {
        DioAstStatementView::IfStatement(self).well_formed()
    }
}

impl<E, V> LoopStatementView<E, V> {
    /// The kind of the loop and its body are well formed.
    pub open spec fn well_formed(self) -> bool {
        DioAstStatementView::LoopStatement(self).well_formed()
    }
}

impl<E, V> FunctionDefineView<E, V> {
    /// The name, if there is one, the parameters and the body are well formed.
    pub open spec fn well_formed(self) -> bool {
        DioAstStatementView::FunctionDefine(self).well_formed()
    }
}

impl<E, V> DioscriptAstView<E, V> {
    /// Every statement of the program is well formed.
    pub open spec fn well_formed(self) -> bool {
        block_well_formed(self.stats)
    }
}

impl<E: DeepView> VariableDefine<E> {
    /// Whether the variable has a name.
    pub fn is_well_formed(&self) -> (b: bool)
        ensures
            b == self.deep_view().well_formed(),
    {
        !self.name.as_str().is_empty()
    }
}

impl<V: DeepView> FunctionCall<V> {
    /// Whether the name of the function is well formed.
    pub fn is_well_formed(&self) -> (b: bool)
        ensures
            b == self.deep_view().well_formed(),
    {
        self.name.is_well_formed()
    }
}

impl ParamsType {
    /// Whether each parameter has a name.
    pub fn is_well_formed(&self) -> (b: bool)
        ensures
            b == self.deep_view().well_formed(),
    {
        match self {
            ParamsType::Variable(name) => !name.as_str().is_empty(),
            ParamsType::List(names) => all_identifiers(names),
        }
    }
}

impl UseStatement {
    /// Whether the path has at least one segment, and each segment is an identifier.
    pub fn is_well_formed(&self) -> (b: bool)
        ensures
            b == self.deep_view().well_formed(),
    {
        self.0.len() > 0 && all_identifiers(&self.0)
    }
}

impl<E: DeepView, V: DeepView> LoopExecuteType<E, V> {
    /// Whether the variable that names the item has a name.
    pub fn is_well_formed(&self) -> (b: bool)
        ensures
            b == self.deep_view().well_formed(),
    {
        match self {
            LoopExecuteType::Conditional(_) => true,
            LoopExecuteType::Iter { iter: _, var } => !var.as_str().is_empty(),
        }
    }
}

/// Whether every statement of `body` is well formed.
fn block_is_well_formed<E: DeepView, V: DeepView>(body: &Vec<DioAstStatement<E, V>>) -> (b: bool)
    ensures
        b == block_well_formed(block_view(body@)),
    decreases body,
{
    let mut i: usize = 0;
    while i < body.len()
        invariant
            i <= body.len(),
            forall|k: int| 0 <= k < i ==> (#[trigger] block_view(body@)[k]).well_formed(),
        decreases body.len() - i,
    {
        if !body[i].is_well_formed() {
            assert(!block_view(body@)[i as int].well_formed());
            return false;
        }
        i += 1;
    }
    true
}

impl<E: DeepView, V: DeepView> DioAstStatement<E, V> {
    /// Whether every name in the statement, and in the statements that it owns, is an
    /// identifier, and every path has at least one segment.
    pub fn is_well_formed(&self) -> (b: bool)
        ensures
            b == self.deep_view().well_formed(),
        decreases self,
    {
        match self {
            DioAstStatement::VariableAss(define) => define.is_well_formed(),
            DioAstStatement::ReturnValue(_) => true,
            DioAstStatement::IfStatement(conditional) => conditional.is_well_formed(),
            DioAstStatement::LoopStatement(repeat) => repeat.is_well_formed(),
            DioAstStatement::LineComment(_) => true,
            DioAstStatement::FunctionCall(call) => call.is_well_formed(),
            DioAstStatement::FunctionDefine(define) => define.is_well_formed(),
            DioAstStatement::ModuleUse(path) => path.is_well_formed(),
        }
    }
}

impl<E: DeepView, V: DeepView> ConditionalStatement<E, V> {
    /// Whether both bodies are well formed.
    pub fn is_well_formed(&self) -> (b: bool)
        ensures
            b == self.deep_view().well_formed(),
        decreases self,
    {
        block_is_well_formed(&self.inner) && match &self.otherwise {
            Some(body) => block_is_well_formed(body),
            None => true,
        }
    }
}

impl<E: DeepView, V: DeepView> LoopStatement<E, V> {
    /// Whether the kind of the loop and its body are well formed.
    pub fn is_well_formed(&self) -> (b: bool)
        ensures
            b == self.deep_view().well_formed(),
        decreases self,
    {
        self.execute_type.is_well_formed() && block_is_well_formed(&self.inner)
    }
}

impl<E: DeepView, V: DeepView> FunctionDefine<E, V> {
    /// Whether the name, if there is one, the parameters and the body are well formed.
    pub fn is_well_formed(&self) -> (b: bool)
        ensures
            b == self.deep_view().well_formed(),
        decreases self,
    {
        let named = match &self.name {
            Some(name) => !name.as_str().is_empty(),
            None => true,
        };
        named && self.params.is_well_formed() && block_is_well_formed(&self.inner)
    }
}

impl<E: DeepView, V: DeepView> DioscriptAst<E, V> {
    /// Whether every statement of the program is well formed.
    pub fn is_well_formed(&self) -> (b: bool)
        ensures
            b == self.deep_view().well_formed(),
    {
        block_is_well_formed(&self.stats)
    }
}

} // verus!
