//! What the service takes in a request and sends with a PDF.

use vstd::prelude::*;
use vstd::string::*;

verus! {

pub const CONTENT_TYPE: &'static str = "content-type";

pub const CONTENT_DISPOSITION: &'static str = "content-disposition";

pub const PDF_CONTENT_TYPE: &'static str = "application/pdf";

pub const PDF_CONTENT_DISPOSITION: &'static str = "inline; filename=\"output.pdf\"";

/// The body of a request for a PDF.
#[derive(Debug)]
pub struct CreatePDF {
    pub template_id: String,
    pub content: String,
}

/// One header of a response: its name and its value.
#[derive(Debug)]
pub struct Header {
    pub name: String,
    pub value: String,
}

/// The headers that go with a PDF: its content type, and the disposition
/// that has it shown in place under the name `output.pdf`.
pub fn pdf_headers() -> (headers: Vec<Header>)
    ensures
        headers.len() == 2,
        headers[0].name@ == CONTENT_TYPE@,
        headers[0].value@ == PDF_CONTENT_TYPE@,
        headers[1].name@ == CONTENT_DISPOSITION@,
        headers[1].value@ == PDF_CONTENT_DISPOSITION@,
{
    let mut headers: Vec<Header> = Vec::new();
    headers.push(
        Header {
            name: String::from_str(CONTENT_TYPE),
            value: String::from_str(PDF_CONTENT_TYPE),
        },
    );
    headers.push(
        Header {
            name: String::from_str(CONTENT_DISPOSITION),
            value: String::from_str(PDF_CONTENT_DISPOSITION),
        },
    );
    headers
}

} // verus!
