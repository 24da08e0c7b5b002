use typst_pdf_api::compile::{CompileError, Diagnostic, Severity};
use typst_pdf_api::routes::{pdf_headers, CreatePDF};
use typst_pdf_api::templates::{AppError, ERROR_STATUS};

#[test]
fn errors_say_what_failed() {
    assert_eq!(AppError::CompilationError.message(), "Failed to compile template");
    assert_eq!(AppError::PdfGenerationError.message(), "PDF generation error");
    assert_eq!(AppError::InternalServerError.message(), "Internal server error");
}

#[test]
fn every_error_is_answered_with_status_500() {
    for error in
        [AppError::CompilationError, AppError::PdfGenerationError, AppError::InternalServerError]
    {
        assert_eq!(error.into_response().status, 500);
    }
    assert_eq!(ERROR_STATUS, 500);
}

#[test]
fn responses_give_nothing_of_the_cause_away() {
    assert_eq!(AppError::CompilationError.into_response().message, "Oopsie doopsie");
    assert_eq!(AppError::PdfGenerationError.into_response().message, "Something went wrong");
    assert_eq!(
        AppError::InternalServerError.into_response().message,
        "An internal server error occurred"
    );
}

#[test]
fn a_source_error_is_a_compilation_error() {
    let refused = CompileError::SourceError(vec![Diagnostic {
        severity: Severity::Error,
        message: "expected expression".to_string(),
        location: None,
    }]);
    assert_eq!(AppError::from_compile_error(&refused), AppError::CompilationError);
    assert_eq!(
        AppError::from_compile_error(&CompileError::SourceError(Vec::new())),
        AppError::CompilationError
    );
}

#[test]
fn an_encode_error_is_a_pdf_generation_error() {
    let failed = CompileError::EncodeError("no space".to_string());
    assert_eq!(AppError::from_compile_error(&failed), AppError::PdfGenerationError);
}

#[test]
fn a_pdf_goes_out_with_type_and_disposition() {
    let headers = pdf_headers();
    assert_eq!(headers.len(), 2);
    assert_eq!(headers[0].name, "content-type");
    assert_eq!(headers[0].value, "application/pdf");
    assert_eq!(headers[1].name, "content-disposition");
    assert_eq!(headers[1].value, "inline; filename=\"output.pdf\"");
}

#[test]
fn a_request_names_a_template_and_its_content() {
    let request = CreatePDF { template_id: "german_invoice".to_string(), content: "{}".to_string() };
    assert_eq!(request.template_id, "german_invoice");
    assert_eq!(request.content, "{}");
}
