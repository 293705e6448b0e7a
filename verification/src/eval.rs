//! Outcome of evaluating a script.

use vstd::prelude::*;

verus! {

/// Why an evaluation produced no value.
#[derive(Debug, Clone, Copy, PartialEq, Eq, Structural)]
pub enum EvalError {
    /// The source could not be turned into a script.
    CompileError,
    /// The script threw while running.
    RuntimeError,
    /// The completion value could not be rendered as a string.
    ConversionError,
}

/// How far the engine got with a script.
pub enum EvalStage {
    /// The source text was refused before compilation.
    SourceRejected,
    /// The source did not compile.
    CompileFailed,
    /// The script compiled and threw while running.
    Threw,
    /// The script ran, and its completion value has no string form.
    NotStringifiable,
    /// The script ran and its completion value was rendered.
    Completed(String),
}

/// The result that the stage reached stands for.
pub open spec fn eval_outcome(stage: EvalStage) -> Result<Seq<char>, EvalError> {
    match stage {
        EvalStage::SourceRejected => Err(EvalError::CompileError),
        EvalStage::CompileFailed => Err(EvalError::CompileError),
        EvalStage::Threw => Err(EvalError::RuntimeError),
        EvalStage::NotStringifiable => Err(EvalError::ConversionError),
        EvalStage::Completed(text) => Ok(text@),
    }
}

/// Turns the stage that an evaluation reached into the caller's result: the
/// rendered completion value, or the error of the first step that failed.
pub fn eval_result(stage: EvalStage) -> (result: Result<String, EvalError>)
    ensures
        match result {
            Ok(text) => eval_outcome(stage) == Ok::<Seq<char>, EvalError>(text@),
            Err(e) => eval_outcome(stage) == Err::<Seq<char>, EvalError>(e),
        },
{
    match stage {
        EvalStage::SourceRejected => Err(EvalError::CompileError),
        EvalStage::CompileFailed => Err(EvalError::CompileError),
        EvalStage::Threw => Err(EvalError::RuntimeError),
        EvalStage::NotStringifiable => Err(EvalError::ConversionError),
        EvalStage::Completed(text) => Ok(text),
    }
}

impl EvalError {
    /// The variant's name, as the error is shown to a user.
    pub open spec fn name(self) -> Seq<char> {
        match self {
            EvalError::CompileError => "CompileError"@,
            EvalError::RuntimeError => "RuntimeError"@,
            EvalError::ConversionError => "ConversionError"@,
        }
    }

    /// Renders the error as its variant's name.
    pub fn to_string(&self) -> (text: String)
        ensures
            text@ == self.name(),
    {
        match self {
            EvalError::CompileError => "CompileError".to_string(),
            EvalError::RuntimeError => "RuntimeError".to_string(),
            EvalError::ConversionError => "ConversionError".to_string(),
        }
    }
}

} // verus!
