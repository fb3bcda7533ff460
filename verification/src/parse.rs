//! From a source text to a program, or to the reason why it is none.
//!
//! The grammar engine reads the text; this module decides what its answer means. It mends
//! nothing and tries nothing twice: the result is the whole program, or one error.

use crate::ast::{block_view, DioAstStatement, DioAstStatementView, DioscriptAst};
use crate::engine::{finish, finished, outcome_of, Outcome};
use crate::error::{ParseError, ParseErrorView};
use crate::text::{blank, first_line, first_line_of, is_blank, lemma_first_line_is_a_prefix};
use nom::IResult;
use vstd::prelude::*;
use vstd::string::*;

verus! {

/// What parsing makes of the engine's outcome.
///
/// Where the engine read statements and left nothing but white space, they are the program.
/// Where it left more, the text does not match: the error keeps the first line of what was left,
/// and no more of it. Where the engine stopped, the error holds its code and the input that it
/// had not read, both unchanged.
pub open spec fn classify<S>(outcome: Outcome<S>) -> Result<S, ParseErrorView> {
    match outcome {
        Outcome::Matched { rest, stats } => if blank(rest) {
            Ok(stats)
        } else {
            Err(ParseErrorView::UnMatchContent { content: first_line(rest) })
        },
        Outcome::Failed { kind, text } => Err(ParseErrorView::ParseFailure { kind, text }),
    }
}

/// A result of parsing as mathematical values: the statements of the program, or the model of
/// the error.
pub open spec fn result_view<E, V>(result: Result<DioscriptAst<E, V>, ParseError>) -> Result<
    Vec<DioAstStatement<E, V>>,
    ParseErrorView,
> {
    match result {
        Ok(program) => Ok(program.stats),
        Err(error) => Err(error.deep_view()),
    }
}

/// Whether `result` is what parsing makes of `answer`, the answer of the engine: whether the
/// answer is one that `finish` takes, and the result is what [`classify`] makes of it.
pub open spec fn parsed_from<'a, E, V>(
    answer: IResult<&'a str, Vec<DioAstStatement<E, V>>>,
    result: Result<DioscriptAst<E, V>, ParseError>,
) -> bool {
    finished(answer) matches Some(done) && result_view(result) == classify(outcome_of(done))
}

impl<E, V> DioscriptAst<E, V> {
    /// Parses `message` with the grammar engine `engine`.
    ///
    /// The engine is called once, on `message`, and its answer decides the result as
    /// [`classify`] says: the program, where the engine read statements and left nothing but
    /// white space; else one error. The engine must be one that never asks for more input.
    pub fn from_string<'a, F>(message: &'a str, engine: F) -> (result: Result<Self, ParseError>)
        where F: FnOnce(&'a str) -> IResult<&'a str, Vec<DioAstStatement<E, V>>>,
        requires
            engine.requires((message,)),
            forall|answer: IResult<&'a str, Vec<DioAstStatement<E, V>>>|
                engine.ensures((message,), answer) ==> finished(answer) is Some,
        ensures
            exists|answer: IResult<&'a str, Vec<DioAstStatement<E, V>>>|
                #[trigger] engine.ensures((message,), answer) && parsed_from(answer, result),
    {
        let answer = engine(message);
        let done = finish(answer);
        Self::from_outcome(done)
    }

    /// Makes the program, or the error, of the answer of a grammar engine. Nothing is made of an
    /// answer by which the engine asks for more input: the result is then `None`.
    pub fn from_answer<'a>(answer: IResult<&'a str, Vec<DioAstStatement<E, V>>>) -> (result:
        Option<Result<Self, ParseError>>)
        ensures
            result is Some <==> finished(answer) is Some,
            result is Some ==> parsed_from(answer, result->Some_0),
    {
        let asks_for_more = match &answer {
            Err(nom::Err::Incomplete(_)) => true,
            _ => false,
        };
        if asks_for_more {
            None
        } else {
            Some(Self::from_outcome(finish(answer)))
        }
    }

    /// Makes the program, or the error, of what the grammar engine answered in the end.
    pub fn from_outcome<'a>(
        done: Result<(&'a str, Vec<DioAstStatement<E, V>>), nom::error::Error<&'a str>>,
    ) -> (result: Result<Self, ParseError>)
        ensures
            result_view(result) == classify(outcome_of(done)),
    {
        match done {
            Ok((rest, stats)) => {
                if is_blank(rest) {
                    Ok(DioscriptAst { stats })
                } else {
                    let content = String::from_str(first_line_of(rest));
                    Err(ParseError::UnMatchContent { content })
                }
            },
            Err(error) => {
                let text = String::from_str(error.input);
                Err(ParseError::ParseFailure { kind: error.code, text })
            },
        }
    }
}

/// The model of an outcome of the engine: the statements by their models.
pub open spec fn outcome_model<E: DeepView, V: DeepView>(
    outcome: Outcome<Vec<DioAstStatement<E, V>>>,
) -> Outcome<Seq<DioAstStatementView<E::V, V::V>>> {
    match outcome {
        Outcome::Matched { rest, stats } => Outcome::Matched { rest, stats: block_view(stats@) },
        Outcome::Failed { kind, text } => Outcome::Failed { kind, text },
    }
}

/// The model of what parsing gives: the statements of the program by their models.
pub open spec fn result_model<E: DeepView, V: DeepView>(
    result: Result<Vec<DioAstStatement<E, V>>, ParseErrorView>,
) -> Result<Seq<DioAstStatementView<E::V, V::V>>, ParseErrorView> {
    match result {
        Ok(stats) => Ok(block_view(stats@)),
        Err(error) => Err(error),
    }
}

/// Parsing reads the statements no more than the engine's answer holds them: the model of the
/// result is what [`classify`] makes of the model of the outcome.
pub proof fn lemma_classify_model<E: DeepView, V: DeepView>(
    outcome: Outcome<Vec<DioAstStatement<E, V>>>,
)
    ensures
        result_model(classify(outcome)) == classify(outcome_model(outcome)),
{
}

/// Two parses on which the engine answers alike give the same: where the two outcomes leave the
/// same text and hold statements that are equal field by field, through all their bodies, the
/// two programs are equal in this way too; and where they hold the same failure, the two errors
/// are equal.
pub proof fn lemma_equal_outcomes_equal_results<E: DeepView, V: DeepView>(
    first: Outcome<Vec<DioAstStatement<E, V>>>,
    second: Outcome<Vec<DioAstStatement<E, V>>>,
)
    requires
        outcome_model(first) == outcome_model(second),
    ensures
        result_model(classify(first)) == result_model(classify(second)),
{
    lemma_classify_model(first);
    lemma_classify_model(second);
}

/// Two parses on which the engine answers alike give results that are alike: where the two
/// answers leave the same text and hold statements that are equal field by field, through all
/// their bodies, or hold the same code and the same input, the two results are both programs
/// that are equal in this way, or both the same error.
pub proof fn lemma_equal_answers_equal_results<'a, E: DeepView, V: DeepView>(
    first: IResult<&'a str, Vec<DioAstStatement<E, V>>>,
    second: IResult<&'a str, Vec<DioAstStatement<E, V>>>,
    first_result: Result<DioscriptAst<E, V>, ParseError>,
    second_result: Result<DioscriptAst<E, V>, ParseError>,
)
    requires
        parsed_from(first, first_result),
        parsed_from(second, second_result),
        outcome_model(outcome_of(finished(first)->Some_0)) == outcome_model(
            outcome_of(finished(second)->Some_0),
        ),
    ensures
        result_model(result_view(first_result)) == result_model(result_view(second_result)),
        first_result is Ok ==> first_result->Ok_0.deep_view() == second_result->Ok_0.deep_view(),
        first_result is Err ==> first_result->Err_0.deep_view()
            == second_result->Err_0.deep_view(),
{
    lemma_equal_outcomes_equal_results(
        outcome_of(finished(first)->Some_0),
        outcome_of(finished(second)->Some_0),
    );
}

/// Whether parsing gave an unmatched text.
pub open spec fn is_unmatched<S>(result: Result<S, ParseErrorView>) -> bool {
    result is Err && result->Err_0 is UnMatchContent
}

/// Whether parsing gave a failure of the engine.
pub open spec fn is_failure<S>(result: Result<S, ParseErrorView>) -> bool {
    result is Err && result->Err_0 is ParseFailure
}

/// Whether `content` is the first line of `rest`, and so a line: `rest` begins with it, and it
/// holds no line feed.
pub open spec fn one_line_of(content: Seq<char>, rest: Seq<char>) -> bool {
    &&& content == first_line(rest)
    &&& content.len() <= rest.len()
    &&& content == rest.take(content.len() as int)
    &&& forall|i: int| 0 <= i < content.len() ==> content[i] != '\n'
}

/// Parsing gives the program, an unmatched text or a failure, and what decides is the outcome
/// alone:
/// - the program, exactly where the engine read statements and left nothing but white space;
///   the program then holds those statements;
/// - an unmatched text, exactly where the engine read statements and left more than white
///   space; its content is then the first line of what was left: it is where that text begins,
///   and holds no line feed;
/// - a failure, exactly where the engine stopped; it then holds the code and the text of the
///   engine.
pub proof fn lemma_classify_cases<S>(outcome: Outcome<S>)
    ensures
        classify(outcome) is Ok <==> outcome is Matched && blank(outcome->rest),
        classify(outcome) is Ok ==> classify(outcome)->Ok_0 == outcome->stats,
        is_unmatched(classify(outcome)) <==> outcome is Matched && !blank(outcome->rest),
        is_unmatched(classify(outcome)) ==> one_line_of(
            classify(outcome)->Err_0->content,
            outcome->rest,
        ),
        is_failure(classify(outcome)) <==> outcome is Failed,
        is_failure(classify(outcome)) ==> classify(outcome)->Err_0->kind == outcome->kind
            && classify(outcome)->Err_0->text == outcome->text,
{
    if let Outcome::Matched { rest, .. } = outcome {
        lemma_first_line_is_a_prefix(rest);
    }
}

} // verus!
