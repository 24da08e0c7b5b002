//! Markup for the documents this service renders, the way from markup to
//! PDF, and the error that the service answers with.

use vstd::prelude::*;
use vstd::string::*;

use crate::compile::{
    conclude, concludes, ended, is_framed, may_encode, CompileError, CompileErrorModel,
    Diagnostic,
};

pub mod german_invoice;

verus! {

pub const COMPILATION_ERROR: &'static str = "Failed to compile template";

pub const PDF_GENERATION_ERROR: &'static str = "PDF generation error";

pub const INTERNAL_SERVER_ERROR: &'static str = "Internal server error";

pub const COMPILATION_RESPONSE: &'static str = "Oopsie doopsie";

pub const PDF_GENERATION_RESPONSE: &'static str = "Something went wrong";

pub const INTERNAL_SERVER_RESPONSE: &'static str = "An internal server error occurred";

/// The status that every error is answered with.
pub const ERROR_STATUS: u16 = 500;

/// Custom error type for the application
#[derive(Clone, Copy, Debug, PartialEq, Eq, Structural)]
pub enum AppError {
    CompilationError,
    PdfGenerationError,
    InternalServerError,
}

/// What a client is told of an error: a status and a message.
#[derive(Debug)]
pub struct ErrorResponse {
    pub status: u16,
    pub message: String,
}

/// The application's error for a compile error: the compiler's refusal is a
/// `CompilationError`, the encoder's a `PdfGenerationError`.
pub open spec fn app_error(error: CompileErrorModel) -> AppError {
    match error {
        CompileErrorModel::SourceError(_) => AppError::CompilationError,
        CompileErrorModel::EncodeError(_) => AppError::PdfGenerationError,
    }
}

/// What the application makes of the end of a compile: the bytes, or its own
/// error for the compile's.
pub open spec fn answered(result: Result<Seq<u8>, CompileErrorModel>) -> Result<Seq<u8>, AppError> {
    match result {
        Ok(bytes) => Ok(bytes),
        Err(error) => Err(app_error(error)),
    }
}

/// The view of what the application answers.
pub open spec fn answer_view(answer: Result<Vec<u8>, AppError>) -> Result<Seq<u8>, AppError> {
    match answer {
        Ok(bytes) => Ok(bytes@),
        Err(error) => Err(error),
    }
}

impl AppError {
    /// What the error says of itself.
    pub open spec fn text(self) -> Seq<char> {
        match self {
            AppError::CompilationError => COMPILATION_ERROR@,
            AppError::PdfGenerationError => PDF_GENERATION_ERROR@,
            AppError::InternalServerError => INTERNAL_SERVER_ERROR@,
        }
    }

    /// What a client is told of the error.
    pub open spec fn response_text(self) -> Seq<char> {
        match self {
            AppError::CompilationError => COMPILATION_RESPONSE@,
            AppError::PdfGenerationError => PDF_GENERATION_RESPONSE@,
            AppError::InternalServerError => INTERNAL_SERVER_RESPONSE@,
        }
    }

    /// What the error says of itself.
    pub fn message(&self) -> (message: String)
        ensures
            message@ == self.text(),
    {
        match self {
            AppError::CompilationError => String::from_str(COMPILATION_ERROR),
            AppError::PdfGenerationError => String::from_str(PDF_GENERATION_ERROR),
            AppError::InternalServerError => String::from_str(INTERNAL_SERVER_ERROR),
        }
    }

    /// The application's error for a compile error.
    pub fn from_compile_error(error: &CompileError) -> (mapped: AppError)
        ensures
            mapped == app_error(error@),
    {
        match error {
            CompileError::SourceError(_) => AppError::CompilationError,
            CompileError::EncodeError(_) => AppError::PdfGenerationError,
        }
    }

    /// The response that the error is answered with: always `ERROR_STATUS`,
    /// and a message that gives nothing of the cause away.
    pub fn into_response(self) -> (response: ErrorResponse)
        ensures
            response.status == ERROR_STATUS,
            response.message@ == self.response_text(),
    {
        let message = match self {
            AppError::CompilationError => String::from_str(COMPILATION_RESPONSE),
            AppError::PdfGenerationError => String::from_str(PDF_GENERATION_RESPONSE),
            AppError::InternalServerError => String::from_str(INTERNAL_SERVER_RESPONSE),
        };
        ErrorResponse { status: ERROR_STATUS, message }
    }
}

/// Converts a Typst template string to a PDF byte buffer.
///
/// `compiler` stands for the compiler at work on an environment whose main
/// source it sets to the text it is handed, `encoder` for the encoder at
/// work on a document. The compiler is called once, with `source`; the
/// encoder at most once, with the compiler's document. What they hand back
/// ends the compile as `concludes` says, and the application's answer is the
/// PDF or its own error for the compile's: `CompilationError` where the
/// compiler gave diagnostics, `PdfGenerationError` where the encoder gave no
/// framed bytes for the document.
pub fn template_to_pdf<C, E>(source: String, compiler: C, encoder: E) -> (answer: Result<
    Vec<u8>,
    AppError,
>) where
    C: FnOnce(String) -> Result<typst::layout::PagedDocument, Vec<Diagnostic>>,
    E: FnOnce(typst::layout::PagedDocument) -> Result<Vec<u8>, Vec<String>>,

    requires
        call_requires(compiler, (source,)),
        forall|outcome: Result<typst::layout::PagedDocument, Vec<Diagnostic>>|
            #[trigger] call_ensures(compiler, (source,), outcome) ==> may_encode(outcome, encoder),
    ensures
        exists|
            outcome: Result<typst::layout::PagedDocument, Vec<Diagnostic>>,
            result: Result<Seq<u8>, CompileErrorModel>,
        |
            {
                &&& call_ensures(compiler, (source,), outcome)
                &&& #[trigger] concludes(outcome, encoder, result)
                &&& answer_view(answer) == answered(result)
            },
        answer matches Ok(bytes) ==> is_framed(bytes@),
        answer matches Err(error) ==> error != AppError::InternalServerError,
{
    let outcome = compiler(source);
    let result = conclude(outcome, encoder);
    proof {
        assert(concludes(outcome, encoder, ended(result)));
    }
    match result {
        Ok(bytes) => Ok(bytes),
        Err(error) => Err(AppError::from_compile_error(&error)),
    }
}

} // verus!
