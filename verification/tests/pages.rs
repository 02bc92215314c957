use kube_playground::pages::{
    hello_page, hello_response, ok_body, received_data, State, PAGE_HEAD, PAGE_TAIL, STATUS_OK,
};

#[test]
fn state_starts_with_no_text() {
    assert_eq!(State::new().text, "no text");
}

#[test]
fn plain_endpoints_answer_ok() {
    assert_eq!(ok_body(), "Ok\n");
}

#[test]
fn received_data_is_the_trimmed_body() {
    assert_eq!(received_data("  job=1 \n"), "job=1");
    assert_eq!(received_data(""), "");
}

#[test]
fn hello_page_shows_the_request() {
    let page = hello_page("Request { .. }");
    assert!(page.starts_with("\n        <!DOCTYPE html>\n"));
    assert!(page.contains("<pre>Request { .. }</pre>"));
    assert!(page.ends_with("<!-- end -->\n        "));
    assert_eq!(page, format!("{}Request {{ .. }}{}", PAGE_HEAD, PAGE_TAIL));
}

#[test]
fn hello_response_is_html_with_status_ok() {
    let r = hello_response("req");
    assert_eq!(STATUS_OK, 200);
    assert_eq!(r.status, 200);
    assert_eq!(r.content_type, "text/html; charset=utf-8");
    assert_eq!(r.content_type, mime::TEXT_HTML_UTF_8.as_ref());
    assert_eq!(r.body, hello_page("req"));
}
