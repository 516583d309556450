use pandascore::endpoint::list::{check_header_text, find_rel, parse_header_int};
use pandascore::endpoint::{CollectionOptions, EndpointError, ListHeaders, ListResponse, PageLinks};

#[test]
fn without_a_link_header_there_is_neither_page() {
    let page = ListResponse::from_headers(vec![1, 2, 3], Some("57"), None).unwrap();
    assert_eq!(page.results, vec![1, 2, 3]);
    assert_eq!(page.total, 57);
    assert_eq!(page.next, None);
    assert_eq!(page.prev, None);
}

#[test]
fn without_a_total_header_the_total_is_zero() {
    let page = ListResponse::from_headers(vec!["a"], None, None).unwrap();
    assert_eq!(page.results, vec!["a"]);
    assert_eq!(page.total, 0);
}

#[test]
fn a_link_header_with_next_only() {
    let link = r#"<https://api.example/x?page[number]=2>; rel="next""#;
    let page = ListResponse::from_headers(Vec::<u8>::new(), None, Some(link)).unwrap();
    assert_eq!(page.next, Some(CollectionOptions::new().page(2)));
    assert_eq!(page.prev, None);
}

#[test]
fn a_link_header_with_all_four_relations() {
    let link = [
        r#"<https://api.pandascore.co/leagues?page%5Bnumber%5D=1&page%5Bsize%5D=10>; rel="first""#,
        r#"<https://api.pandascore.co/leagues?page%5Bnumber%5D=2&page%5Bsize%5D=10>; rel="prev""#,
        r#"<https://api.pandascore.co/leagues?filter%5Bname%5D=A1&page%5Bnumber%5D=4&page%5Bsize%5D=10>; rel="next""#,
        r#"<https://api.pandascore.co/leagues?page%5Bnumber%5D=9&page%5Bsize%5D=10>; rel="last""#,
    ]
    .join(", ");
    let headers = ListHeaders::from_headers(Some("85"), Some(link.as_str())).unwrap();
    assert_eq!(headers.total, 85);
    assert_eq!(headers.links.prev, Some(CollectionOptions::new().page(2).per_page(10)));
    assert_eq!(
        headers.links.next,
        Some(CollectionOptions::new().filter("name", "A1").page(4).per_page(10))
    );
}

#[test]
fn a_later_link_of_one_relation_replaces_an_earlier_one() {
    let link = r#"<https://a.example/?page=2>; rel="next", <https://a.example/?page=3>; rel="next""#;
    let links = PageLinks::from_link_header(link).unwrap();
    assert_eq!(links.next, Some(CollectionOptions::new().page(3)));
}

#[test]
fn a_link_without_a_relation_is_passed_over() {
    let link = r#"<https://a.example/?page=2>, <https://a.example/?page=3>; rel="prev""#;
    let links = PageLinks::from_link_header(link).unwrap();
    assert_eq!(links.next, None);
    assert_eq!(links.prev, Some(CollectionOptions::new().page(3)));
}

#[test]
fn the_links_are_read_where_the_ranges_say() {
    let text = r#"<https://a.example/?page=2>; rel="next""#;
    let links = PageLinks::from_link_ranges(text, &vec![(1, 26)]).unwrap();
    assert_eq!(links.next, Some(CollectionOptions::new().page(2)));
    let links = PageLinks::from_link_ranges(text, &vec![]).unwrap();
    assert_eq!(links, PageLinks { next: None, prev: None });
    assert!(matches!(
        PageLinks::from_link_ranges(text, &vec![(0, 26)]),
        Err(EndpointError::UrlParse(_))
    ));
}

#[test]
fn a_page_link_that_cannot_be_read_is_an_error() {
    let link = r#"<https://a.example/?page=two>; rel="next""#;
    assert_eq!(PageLinks::from_link_header(link), Err(EndpointError::InvalidInt));
    assert_eq!(
        ListResponse::from_headers(vec![1], Some("1"), Some(link)).err(),
        Some(EndpointError::InvalidInt)
    );
}

#[test]
fn a_total_that_is_no_number_is_an_error() {
    assert_eq!(parse_header_int(Some("12")), Ok(Some(12)));
    assert_eq!(parse_header_int(Some("18446744073709551615")), Ok(Some(u64::MAX)));
    assert_eq!(parse_header_int(None), Ok(None));
    assert_eq!(parse_header_int(Some("twelve")), Err(EndpointError::InvalidInt));
    assert_eq!(parse_header_int(Some("18446744073709551616")), Err(EndpointError::InvalidInt));
    assert_eq!(parse_header_int(Some("")), Err(EndpointError::InvalidInt));
    assert_eq!(parse_header_int(Some("1\u{e9}")), Err(EndpointError::ToStr));
    assert_eq!(
        ListHeaders::from_headers(Some("x"), None).err(),
        Some(EndpointError::InvalidInt)
    );
}

#[test]
fn a_header_that_is_not_visible_ascii_is_an_error() {
    assert!(check_header_text("abc \t~"));
    assert!(!check_header_text("a\nb"));
    assert!(!check_header_text("\u{7f}"));
    assert_eq!(
        PageLinks::from_link_header("<https://a.example/\u{e9}>; rel=\"next\""),
        Err(EndpointError::ToStr)
    );
    assert_eq!(EndpointError::ToStr.message(), "Failed to convert header to string");
    assert_eq!(EndpointError::InvalidInt.message(), "Failed to parse integer");
}

#[test]
fn the_first_relation_is_found() {
    assert_eq!(find_rel(r#"; rel="next""#), Some("next".to_owned()));
    assert_eq!(find_rel(r#"rel="" rel="Next" rel="prev" rel="next""#), Some("prev".to_owned()));
    assert_eq!(find_rel(r#"rel=next"#), None);
    assert_eq!(find_rel(r#"rel="next"#), None);
    assert_eq!(find_rel(""), None);
}
