use firestore::paging::Pagination;

#[test]
fn pagination_concatenates_pages_until_token_empty() {
    let mut run: Pagination<String> = Pagination::new();
    assert_eq!("", run.next_token());
    assert!(!run.is_finished());

    run.absorb_chunk(vec!["a".to_owned(), "b".to_owned()], "tok1".to_owned());
    assert!(!run.is_finished());
    assert_eq!("tok1", run.next_token());

    run.absorb_chunk(vec!["c".to_owned()], "".to_owned());
    assert!(run.is_finished());

    assert_eq!(vec!["a".to_owned(), "b".to_owned(), "c".to_owned()], run.into_items());
}

#[test]
fn pagination_with_one_empty_page_yields_nothing() {
    let mut run: Pagination<i64> = Pagination::new();
    run.absorb_chunk(vec![], "".to_owned());
    assert!(run.is_finished());
    assert!(run.into_items().is_empty());
}
