use serve_md::response::page_response;

#[test]
fn response_has_status_200() {
    let response = page_response("<p>hello</p>".to_string());
    assert_eq!(response.status_code().0, 200);
}

#[test]
fn response_declares_html_in_utf8() {
    let response = page_response("<p>hello</p>".to_string());
    let headers: Vec<(String, String)> = response
        .headers()
        .iter()
        .map(|header| (header.field.as_str().as_str().to_string(), header.value.as_str().to_string()))
        .collect();
    assert_eq!(
        headers,
        vec![
            ("Content-Type".to_string(), "text/html; charset=UTF-8".to_string()),
            ("Server".to_string(), "serve_md".to_string()),
        ]
    );
}

#[test]
fn response_has_one_content_type() {
    let response = page_response(String::new());
    let content_types = response
        .headers()
        .iter()
        .filter(|header| header.field.equiv("Content-Type"))
        .count();
    assert_eq!(content_types, 1);
}

#[test]
fn response_body_is_the_page() {
    let response = page_response("<p>h\u{e9}llo</p>".to_string());
    assert_eq!(response.data_length(), Some("<p>h\u{e9}llo</p>".len()));
    let body = response.into_reader().into_inner();
    assert_eq!(body, "<p>h\u{e9}llo</p>".as_bytes().to_vec());
}

#[test]
fn empty_page_gives_an_empty_body() {
    let response = page_response(String::new());
    assert_eq!(response.status_code().0, 200);
    assert_eq!(response.into_reader().into_inner(), Vec::<u8>::new());
}
