use vstd::prelude::*;
use vstd::string::*;

use crate::text::{trim, trim_whitespace};

verus! {

/// The shared state of the multi-port service.
pub struct State {
    pub text: String,
}

impl State {
    /// The state the service starts with.
    pub fn new() -> (s: State)
        ensures
            s.text@ == "no text"@,
    {
        State { text: "no text".to_owned() }
    }
}

/// The body every plain endpoint answers with.
pub fn ok_body() -> (r: String)
    ensures
        r@ == "Ok\n"@,
{
    "Ok\n".to_owned()
}

/// What the mock push gateway takes from a request body: the body without the white space
/// around it.
pub fn received_data(body: &str) -> (r: String)
    ensures
        r@ == trim(body@),
{
    trim_whitespace(body)
}

/// The HTTP status code of a successful answer.
pub const STATUS_OK: u16 = 200;

/// The page text before the description of the request.
pub const PAGE_HEAD: &'static str = "\n        <!DOCTYPE html>\n        <html lang=\"en\">\n        <head>\n            <meta charset=\"UTF-8\">\n            <meta name=\"viewport\" content=\"width=device-width, initial-scale=1.0\">\n            <title>simple web service</title>\n        </head>\n        <body>\n            <h1>Hello from Rust in a container in kubernetes cluster!</h1>\n            <pre>";

/// The page text after the description of the request.
pub const PAGE_TAIL: &'static str = "</pre>\n        </body>\n        </html>\n        <!-- end -->\n        ";

/// The media type of an HTML page in UTF-8.
pub open spec fn html_utf8() -> Seq<char> {
    "text/html; charset=utf-8"@
}

/// Gives the text of `mime::TEXT_HTML_UTF_8`; in mime's source that constant is declared
/// with the text `text/html; charset=utf-8`, which its `as_ref` returns.
#[verifier::external_body]
fn html_utf8_media_type() -> (r: String)
    ensures
        r@ == html_utf8(),
{
    mime::TEXT_HTML_UTF_8.as_ref().to_owned()
}

/// The hello page: the description of the request, verbatim, inside a fixed HTML page.
pub fn hello_page(request_description: &str) -> (r: String)
    ensures
        r@ == PAGE_HEAD@ + request_description@ + PAGE_TAIL@,
{
    let mut page = PAGE_HEAD.to_owned();
    page.append(request_description);
    page.append(PAGE_TAIL);
    page
}

/// An answer of the web service.
pub struct PageResponse {
    pub status: u16,
    pub content_type: String,
    pub body: String,
}

/// The web service's answer to any request: status 200, an HTML page in UTF-8 that shows
/// the description of the request.
pub fn hello_response(request_description: &str) -> (r: PageResponse)
    ensures
        r.status == 200,
        r.content_type@ == html_utf8(),
        r.body@ == PAGE_HEAD@ + request_description@ + PAGE_TAIL@,
{
    PageResponse {
        status: STATUS_OK,
        content_type: html_utf8_media_type(),
        body: hello_page(request_description),
    }
}

} // verus!
