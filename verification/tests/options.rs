use pandascore::endpoint::{CollectionOptions, EndpointError};
use url::Url;

#[test]
fn test_collection_options_add_params() {
    let mut url = Url::parse("https://example.com").unwrap();

    let options = CollectionOptions::new()
        .filter("foo", "bar")
        .filter("foo", "baz")
        .filter("qux", "quux")
        .search("qux", "quux")
        .range("corge", 1, 5)
        .sort("grault")
        .sort("-garply")
        .page(3)
        .per_page(4);
    options.clone().add_params(&mut url);

    assert!(url.query().is_some());

    let options2 = CollectionOptions::from_url(url.as_str()).unwrap();
    assert_eq!(options, options2);
}

#[test]
fn add_params_writes_the_facets_in_order() {
    let mut url = Url::parse("https://example.com/x").unwrap();
    CollectionOptions::new()
        .page(3)
        .sort("name")
        .range("id", -2, 7)
        .search("slug", "a b")
        .filter("name", "T1")
        .filter("name", "G2")
        .per_page(50)
        .add_params(&mut url);
    assert_eq!(
        url.as_str(),
        "https://example.com/x?filter%5Bname%5D=T1%2CG2&search%5Bslug%5D=a+b&range%5Bid%5D=-2%2C7&sort=name&page%5Bnumber%5D=3&page%5Bsize%5D=50"
    );
}

#[test]
fn from_url_rejects_what_is_no_url() {
    assert!(matches!(
        CollectionOptions::from_url("not a url"),
        Err(EndpointError::UrlParse(_))
    ));
}

#[test]
fn from_url_rejects_a_page_that_is_no_number() {
    assert_eq!(
        CollectionOptions::from_url("https://example.com/?page=two"),
        Err(EndpointError::InvalidInt)
    );
    assert_eq!(
        CollectionOptions::from_url("https://example.com/?range[id]=1,b"),
        Err(EndpointError::InvalidInt)
    );
    assert_eq!(
        CollectionOptions::from_url("https://example.com/?page[size]=4294967296"),
        Err(EndpointError::InvalidInt)
    );
}

#[test]
fn from_url_passes_over_what_it_does_not_model() {
    let options = CollectionOptions::from_url(
        "https://example.com/?token=abc&filter=x&range[id]=5&page[last]=9&Page=3",
    )
    .unwrap();
    assert_eq!(options, CollectionOptions::new());
}

#[test]
fn from_url_reads_the_legacy_page_parameters() {
    let options = CollectionOptions::from_url("https://example.com/?page=2&per_page=10").unwrap();
    assert_eq!(options, CollectionOptions::new().page(2).per_page(10));
}

#[test]
fn equality_ignores_the_order_of_fields() {
    let a = CollectionOptions::new().filter("a", "1").filter("b", "2").sort("x").sort("y");
    let b = CollectionOptions::new().sort("y").filter("b", "2").sort("x").filter("a", "1");
    assert_eq!(a, b);
    let c = CollectionOptions::new().filter("a", "1").filter("b", "3").sort("x").sort("y");
    assert_ne!(a, c);
}

fn pair(key: &str, value: &str) -> (String, String) {
    (key.to_owned(), value.to_owned())
}

#[test]
fn to_pairs_writes_one_parameter_for_each_entry() {
    let options = CollectionOptions::new()
        .filter("name", "T1")
        .filter("tier", "s")
        .filter("name", "G2")
        .search("slug", "fak")
        .search("slug", "faker")
        .range("year", 2019, 2023)
        .range("id", i64::MIN, i64::MAX)
        .sort("-name")
        .sort("id")
        .sort("-name")
        .per_page(100);
    assert_eq!(
        options.to_pairs(),
        vec![
            pair("filter[name]", "T1,G2"),
            pair("filter[tier]", "s"),
            pair("search[slug]", "faker"),
            pair("range[year]", "2019,2023"),
            pair("range[id]", "-9223372036854775808,9223372036854775807"),
            pair("sort", "-name,id"),
            pair("page[size]", "100"),
        ]
    );
    assert_eq!(CollectionOptions::new().to_pairs(), vec![]);
    assert_eq!(CollectionOptions::default(), CollectionOptions::new());
}

#[test]
fn reading_what_was_written_gives_the_options_back() {
    let options = CollectionOptions::new()
        .filter("a]b", "x y")
        .filter("a]b", "")
        .search("q", "a,b&c=d")
        .range("r", -5, 5)
        .sort("")
        .sort("-x")
        .page(0)
        .per_page(u32::MAX);
    assert_eq!(CollectionOptions::from_pairs(&options.to_pairs()), Ok(options));
}

#[test]
fn a_comma_in_a_filter_value_does_not_come_back() {
    let options = CollectionOptions::new().filter("name", "a,b");
    let read = CollectionOptions::from_pairs(&options.to_pairs()).unwrap();
    assert_ne!(read, options);
    assert_eq!(read, CollectionOptions::new().filter("name", "a").filter("name", "b"));
}

#[test]
fn from_pairs_reads_each_bucket() {
    let pairs = vec![
        pair("filter[name]", "a,b"),
        pair("filter[name]", "c"),
        pair("search[slug]", "x,y"),
        pair("range[id]", "1,2"),
        pair("range[year]", "2020"),
        pair("sort", "a,-b,a"),
        pair("sort[x]", "c"),
        pair("page[number]", "+4"),
        pair("page[size]", "25"),
        pair("page", "5"),
        pair("per_page[x]", "6"),
        pair("other[x]", "nine"),
    ];
    let expected = CollectionOptions::new()
        .filter("name", "c")
        .search("slug", "x,y")
        .range("id", 1, 2)
        .sort("c")
        .page(5)
        .per_page(6);
    assert_eq!(CollectionOptions::from_pairs(&pairs), Ok(expected));
    assert_eq!(
        CollectionOptions::from_pairs(&vec![pair("range[id]", "1,2,3")]),
        Err(EndpointError::InvalidInt)
    );
    assert_eq!(
        CollectionOptions::from_pairs(&vec![pair("page", "-1"), pair("nonsense", "")]),
        Err(EndpointError::InvalidInt)
    );
    assert_eq!(
        CollectionOptions::new().apply("page[size]", "3"),
        Ok(CollectionOptions::new().per_page(3))
    );
}

#[test]
fn a_filter_read_from_an_empty_value_has_one_empty_value() {
    let read = CollectionOptions::from_pairs(&vec![pair("filter[name]", "")]).unwrap();
    assert_eq!(read, CollectionOptions::new().filter("name", ""));
    assert_eq!(read.to_pairs(), vec![pair("filter[name]", "")]);
    assert_eq!(CollectionOptions::from_pairs(&read.to_pairs()), Ok(read));
}
