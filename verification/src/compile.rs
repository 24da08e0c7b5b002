//! The compile entry point: what the compiler handed back becomes PDF bytes
//! or one error that holds everything the compiler said.
//!
//! Compiler and encoder are the caller's to run, and are handed in as
//! functions: the compiler needs the environment as the caller has dressed it
//! for it, and the encoder can give up on a document in ways that only the
//! caller can catch. What is decided here is the order of the two, what
//! becomes of each answer, and that nothing but a framed PDF is handed out.

use vstd::prelude::*;
use vstd::string::*;

use crate::text::{join, joined, texts};

verus! {

/// Declares `typst::layout::PagedDocument`, the compiler's finished document.
/// Nothing is known of what it holds; it is carried from the compiler to the
/// encoder.
#[verifier::external_type_specification]
#[verifier::external_body]
pub struct ExPagedDocument(typst::layout::PagedDocument);

/// The bytes every PDF file begins with.
pub const PDF_HEADER: [u8; 5] = [0x25, 0x50, 0x44, 0x46, 0x2d];

/// The bytes every PDF file ends with.
pub const PDF_TRAILER: [u8; 5] = [0x25, 0x25, 0x45, 0x4f, 0x46];

/// What stands between the messages of several diagnostics in one text.
pub const MESSAGE_SEPARATOR: &'static str = "\n";

/// What `EncodeError` says of encoder output that is not framed as a PDF.
pub const NOT_A_PDF: &'static str = "the encoder's output is not framed as a PDF file";

/// How grave a diagnostic is.
#[derive(Clone, Copy, Debug, PartialEq, Eq, Structural)]
pub enum Severity {
    Error,
    Warning,
}

/// Where in the sources a diagnostic points: a file and a range of bytes in
/// it.
#[derive(Debug)]
pub struct Location {
    pub file: String,
    pub start: usize,
    pub end: usize,
}

/// One thing the compiler said.
#[derive(Debug)]
pub struct Diagnostic {
    pub severity: Severity,
    pub message: String,
    pub location: Option<Location>,
}

/// Why a compile gave no PDF.
#[derive(Debug)]
pub enum CompileError {
    /// The compiler refused the sources. Holds every diagnostic it gave, in
    /// its order.
    SourceError(Vec<Diagnostic>),
    /// The encoder failed on the compiled document. Holds its reason.
    EncodeError(String),
}

/// What a location stands for.
pub ghost struct LocationModel {
    pub file: Seq<char>,
    pub start: usize,
    pub end: usize,
}

/// What a diagnostic stands for.
pub ghost struct DiagnosticModel {
    pub severity: Severity,
    pub message: Seq<char>,
    pub location: Option<LocationModel>,
}

/// What a compile error stands for.
pub ghost enum CompileErrorModel {
    SourceError(Seq<DiagnosticModel>),
    EncodeError(Seq<char>),
}

impl View for Location {
    type V = LocationModel;

    open spec fn view(&self) -> LocationModel {
        LocationModel { file: self.file@, start: self.start, end: self.end }
    }
}

impl View for Diagnostic {
    type V = DiagnosticModel;

    open spec fn view(&self) -> DiagnosticModel {
        DiagnosticModel {
            severity: self.severity,
            message: self.message@,
            location: match self.location {
                Some(location) => Some(location@),
                None => None,
            },
        }
    }
}

/// The views of a run of diagnostics.
pub open spec fn diagnostic_models(diagnostics: Seq<Diagnostic>) -> Seq<DiagnosticModel> {
    diagnostics.map_values(|diagnostic: Diagnostic| diagnostic@)
}

/// The message of each diagnostic, in order.
pub open spec fn messages(diagnostics: Seq<DiagnosticModel>) -> Seq<Seq<char>> {
    diagnostics.map_values(|diagnostic: DiagnosticModel| diagnostic.message)
}

impl View for CompileError {
    type V = CompileErrorModel;

    open spec fn view(&self) -> CompileErrorModel {
        match self {
            CompileError::SourceError(diagnostics) => CompileErrorModel::SourceError(
                diagnostic_models(diagnostics@),
            ),
            CompileError::EncodeError(reason) => CompileErrorModel::EncodeError(reason@),
        }
    }
}

/// The view of what a compile ends in.
pub open spec fn ended(result: Result<Vec<u8>, CompileError>) -> Result<
    Seq<u8>,
    CompileErrorModel,
> {
    match result {
        Ok(bytes) => Ok(bytes@),
        Err(error) => Err(error@),
    }
}

/// The view of what the encoder hands back: bytes, or the messages of its
/// diagnostics.
pub open spec fn encoded_view(encoded: Result<Vec<u8>, Vec<String>>) -> Result<
    Seq<u8>,
    Seq<Seq<char>>,
> {
    match encoded {
        Ok(bytes) => Ok(bytes@),
        Err(reasons) => Err(texts(reasons@)),
    }
}

/// Whether `bytes` begin with `%PDF-` and end with `%%EOF`.
pub open spec fn is_framed(bytes: Seq<u8>) -> bool {
    &&& bytes.len() >= 10
    &&& bytes.take(5) == PDF_HEADER@
    &&& bytes.skip(bytes.len() - 5) == PDF_TRAILER@
}

/// What a compile ends in once the encoder has handed back `encoded`: its
/// bytes where they are framed as a PDF, else an `EncodeError`, whose reason
/// is `NOT_A_PDF` for unframed bytes and the encoder's messages, joined by
/// `MESSAGE_SEPARATOR`, for a failure.
pub open spec fn finished(encoded: Result<Seq<u8>, Seq<Seq<char>>>) -> Result<
    Seq<u8>,
    CompileErrorModel,
> {
    match encoded {
        Ok(bytes) => if is_framed(bytes) {
            Ok(bytes)
        } else {
            Err(CompileErrorModel::EncodeError(NOT_A_PDF@))
        },
        Err(reasons) => Err(CompileErrorModel::EncodeError(joined(reasons, MESSAGE_SEPARATOR@))),
    }
}

/// Whether `result` is what a compile ends in after the compiler handed
/// back `outcome`, with `encoder` to encode a document.
///
/// Diagnostics end it in a `SourceError` that holds all of them, in order,
/// and the encoder is not asked. A document was handed to the encoder, and
/// the compile ends in what `finished` makes of the encoder's answer for it.
pub open spec fn concludes<E: FnOnce(typst::layout::PagedDocument) -> Result<Vec<u8>, Vec<String>>>(
    outcome: Result<typst::layout::PagedDocument, Vec<Diagnostic>>,
    encoder: E,
    result: Result<Seq<u8>, CompileErrorModel>,
) -> bool {
    match outcome {
        Err(diagnostics) => result == Err::<Seq<u8>, CompileErrorModel>(
            CompileErrorModel::SourceError(diagnostic_models(diagnostics@)),
        ),
        Ok(document) => exists|encoded: Result<Vec<u8>, Vec<String>>|
            #[trigger] call_ensures(encoder, (document,), encoded) && result == finished(
                encoded_view(encoded),
            ),
    }
}

/// Whether `encoder` may be called for whatever document `outcome` holds.
pub open spec fn may_encode<E: FnOnce(typst::layout::PagedDocument) -> Result<Vec<u8>, Vec<String>>>(
    outcome: Result<typst::layout::PagedDocument, Vec<Diagnostic>>,
    encoder: E,
) -> bool {
    outcome matches Ok(document) ==> call_requires(encoder, (document,))
}

/// Whatever the encoder hands back, bytes that a compile ends in are framed
/// as a PDF: not empty, `%PDF-` first and `%%EOF` last.
pub proof fn lemma_output_is_framed(encoded: Result<Seq<u8>, Seq<Seq<char>>>)
    ensures
        finished(encoded) matches Ok(bytes) ==> is_framed(bytes) && bytes.len() > 0,
        finished(encoded) is Ok <==> encoded is Ok && is_framed(encoded->Ok_0),
{
}

/// A compile that the compiler refused ends in a `SourceError` with as
/// many diagnostics as the compiler gave, each one kept as it was, whatever
/// the encoder would do.
pub proof fn lemma_diagnostics_kept<
    E: FnOnce(typst::layout::PagedDocument) -> Result<Vec<u8>, Vec<String>>,
>(
    outcome: Result<typst::layout::PagedDocument, Vec<Diagnostic>>,
    encoder: E,
    result: Result<Vec<u8>, CompileError>,
)
    requires
        outcome is Err,
        concludes(outcome, encoder, ended(result)),
    ensures
        result is Err,
        result->Err_0 is SourceError,
        result->Err_0->SourceError_0@.len() == outcome->Err_0@.len(),
        forall|i: int|
            0 <= i < outcome->Err_0@.len() ==> (#[trigger] result->Err_0->SourceError_0@[i])@
                == outcome->Err_0@[i]@,
{
    let kept = result->Err_0->SourceError_0@;
    let given = outcome->Err_0@;
    assert(diagnostic_models(kept) == diagnostic_models(given));
    assert(diagnostic_models(kept).len() == kept.len());
    assert forall|i: int| 0 <= i < given.len() implies (#[trigger] kept[i])@ == given[i]@ by {
        assert(diagnostic_models(kept)[i] == kept[i]@);
        assert(diagnostic_models(given)[i] == given[i]@);
    }
}

impl CompileError {
    /// Everything the error has to say, as one text: the message of every
    /// diagnostic, in order, joined by `MESSAGE_SEPARATOR`, or the encoder's
    /// reason.
    pub open spec fn report(self) -> Seq<char> {
        match self@ {
            CompileErrorModel::SourceError(diagnostics) => joined(
                messages(diagnostics),
                MESSAGE_SEPARATOR@,
            ),
            CompileErrorModel::EncodeError(reason) => reason,
        }
    }

    /// Everything the error has to say, as one text.
    pub fn message(&self) -> (text: String)
        ensures
            text@ == self.report(),
    {
        match self {
            CompileError::SourceError(diagnostics) => {
                let mut all: Vec<String> = Vec::new();
                let mut i: usize = 0;
                while i < diagnostics.len()
                    invariant
                        i <= diagnostics.len(),
                        all.len() == i,
                        forall|k: int| 0 <= k < i ==> (#[trigger] all[k])@ == diagnostics[k].message@,
                    decreases diagnostics.len() - i,
                {
                    all.push(diagnostics[i].message.clone());
                    i = i + 1;
                }
                assert(texts(all@) =~= messages(diagnostic_models(diagnostics@)));
                join(&all, MESSAGE_SEPARATOR)
            },
            CompileError::EncodeError(reason) => reason.clone(),
        }
    }
}

/// Tests whether `bytes` begin with `%PDF-` and end with `%%EOF`.
pub fn framed(bytes: &Vec<u8>) -> (yes: bool)
    ensures
        yes == is_framed(bytes@),
{
    let length = bytes.len();
    if length < 10 {
        return false;
    }
    let mut i: usize = 0;
    while i < 5
        invariant
            i <= 5,
            length == bytes.len(),
            length >= 10,
            forall|k: int| 0 <= k < i ==> bytes[k] == PDF_HEADER[k],
            forall|k: int| 0 <= k < i ==> bytes[length - 5 + k] == PDF_TRAILER[k],
        decreases 5 - i,
    {
        if bytes[i] != PDF_HEADER[i] {
            assert(bytes@.take(5)[i as int] != PDF_HEADER@[i as int]);
            return false;
        }
        if bytes[length - 5 + i] != PDF_TRAILER[i] {
            assert(bytes@.skip(length - 5)[i as int] != PDF_TRAILER@[i as int]);
            return false;
        }
        i = i + 1;
    }
    assert(bytes@.take(5) =~= PDF_HEADER@);
    assert(bytes@.skip(length - 5) =~= PDF_TRAILER@);
    true
}

/// Ends a compile with what the encoder handed back.
pub fn finish(encoded: Result<Vec<u8>, Vec<String>>) -> (result: Result<Vec<u8>, CompileError>)
    ensures
        ended(result) == finished(encoded_view(encoded)),
{
    match encoded {
        Ok(bytes) => {
            if framed(&bytes) {
                Ok(bytes)
            } else {
                Err(CompileError::EncodeError(String::from_str(NOT_A_PDF)))
            }
        },
        Err(reasons) => Err(CompileError::EncodeError(join(&reasons, MESSAGE_SEPARATOR))),
    }
}

/// Ends a compile with what the compiler handed back: a document goes to
/// the encoder, diagnostics become the error.
///
/// `encoder` is called at most once, and only with the document that the
/// compiler gave. Its bytes are the result where they are framed as a PDF;
/// bytes that are not, and its failure, end the compile in an `EncodeError`.
/// So a compile succeeds exactly where the compiler gave a document and the
/// encoder framed bytes for it.
pub fn conclude<E>(
    outcome: Result<typst::layout::PagedDocument, Vec<Diagnostic>>,
    encoder: E,
) -> (result: Result<Vec<u8>, CompileError>) where
    E: FnOnce(typst::layout::PagedDocument) -> Result<Vec<u8>, Vec<String>>,

    requires
        may_encode(outcome, encoder),
    ensures
        concludes(outcome, encoder, ended(result)),
        result matches Ok(bytes) ==> is_framed(bytes@),
{
    match outcome {
        Ok(document) => {
            let encoded = encoder(document);
            finish(encoded)
        },
        Err(diagnostics) => Err(CompileError::SourceError(diagnostics)),
    }
}

/// Compiles to PDF: runs `compiler`, which stands for the compiler at work
/// on the environment, and ends the compile with what it hands back, with
/// `encoder` to encode the document.
///
/// There is one run of each and no retry. Diagnostics end the compile in a
/// `SourceError` that holds them all; a document is encoded, and the result
/// is the encoder's bytes for it where they are framed as a PDF, else an
/// `EncodeError`.
pub fn compile_to_pdf<C, E>(compiler: C, encoder: E) -> (result: Result<
    Vec<u8>,
    CompileError,
>) where
    C: FnOnce() -> Result<typst::layout::PagedDocument, Vec<Diagnostic>>,
    E: FnOnce(typst::layout::PagedDocument) -> Result<Vec<u8>, Vec<String>>,

    requires
        call_requires(compiler, ()),
        forall|outcome: Result<typst::layout::PagedDocument, Vec<Diagnostic>>|
            #[trigger] call_ensures(compiler, (), outcome) ==> may_encode(outcome, encoder),
    ensures
        exists|outcome: Result<typst::layout::PagedDocument, Vec<Diagnostic>>|
            #[trigger] call_ensures(compiler, (), outcome) && concludes(
                outcome,
                encoder,
                ended(result),
            ),
        result matches Ok(bytes) ==> is_framed(bytes@),
{
    let outcome = compiler();
    conclude(outcome, encoder)
}

} // verus!
