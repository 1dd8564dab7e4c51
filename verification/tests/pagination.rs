use trenako::common::queries::pagination::PageRequest;

#[test]
fn it_should_implement_default_for_page_requests() {
    let page_request = PageRequest::default();
    assert_eq!(Some(0), page_request.offset);
    assert_eq!(Some(25), page_request.limit);
}
