use actix_contrib_rest::query::{default_page_size, Force, QuerySearch};

fn search(sort: Option<&str>) -> QuerySearch {
    QuerySearch { q: None, offset: 0, page_size: 10, sort: sort.map(String::from), include_total: None }
}

#[test]
fn default_page_size_is_fifty() {
    assert_eq!(default_page_size(), 50);
}

#[test]
fn parse_sort_without_sort_is_empty() {
    assert_eq!(search(None).parse_sort(&["a", "b"]), Vec::<String>::new());
}

#[test]
fn parse_sort_marks_descending_fields() {
    assert_eq!(
        search(Some("a,-b")).parse_sort(&["a", "b"]),
        vec![String::from("a"), String::from("b DESC")]
    );
}

#[test]
fn parse_sort_drops_fields_not_allowed() {
    let allowed = vec!["name", "c"];
    assert_eq!(
        search(Some("name,-b,c")).parse_sort(&allowed),
        vec![String::from("name"), String::from("c")]
    );
}

#[test]
fn parse_sort_keeps_order_of_the_parameter() {
    assert_eq!(
        search(Some("c,-a,b,a")).parse_sort(&["a", "b", "c"]),
        vec![String::from("c"), String::from("a DESC"), String::from("b"), String::from("a")]
    );
}

#[test]
fn parse_sort_empty_sort_is_one_empty_term() {
    assert_eq!(search(Some("")).parse_sort(&["a"]), Vec::<String>::new());
    assert_eq!(search(Some("")).parse_sort(&["a", ""]), vec![String::new()]);
    assert_eq!(search(None).parse_sort(&[""]), vec![String::new()]);
}

#[test]
fn parse_sort_skips_empty_terms() {
    assert_eq!(
        search(Some(",a,,-b,")).parse_sort(&["a", "b"]),
        vec![String::from("a"), String::from("b DESC")]
    );
}

#[test]
fn parse_sort_takes_one_marker_off() {
    assert_eq!(search(Some("--a")).parse_sort(&["a"]), Vec::<String>::new());
    assert_eq!(search(Some("--a")).parse_sort(&["-a"]), vec![String::from("-a DESC")]);
    assert_eq!(search(Some("-")).parse_sort(&[""]), vec![String::from(" DESC")]);
    assert_eq!(search(Some("a-b")).parse_sort(&["a-b"]), vec![String::from("a-b")]);
}

#[test]
fn parse_sort_compares_whole_fields() {
    assert_eq!(search(Some("na,name,names")).parse_sort(&["name"]), vec![String::from("name")]);
    assert_eq!(search(Some(" a,a ")).parse_sort(&["a"]), Vec::<String>::new());
    assert_eq!(search(Some("A")).parse_sort(&["a"]), Vec::<String>::new());
}

#[test]
fn parse_sort_handles_text_beyond_ascii() {
    assert_eq!(
        search(Some("-año,straße,日本")).parse_sort(&["año", "日本"]),
        vec![String::from("año DESC"), String::from("日本")]
    );
}

#[test]
fn parse_sort_with_nothing_allowed_is_empty() {
    assert_eq!(search(Some("a,-b")).parse_sort(&[]), Vec::<String>::new());
}

#[test]
fn parse_sort_of_two_lists_is_both_results() {
    let allowed = ["a", "b", "c"];
    let mut both = search(Some("x,-a")).parse_sort(&allowed);
    both.extend(search(Some("b,,-c")).parse_sort(&allowed));
    assert_eq!(search(Some("x,-a,b,,-c")).parse_sort(&allowed), both);
}

#[test]
fn sort_as_order_by_args_without_sort_is_default() {
    assert_eq!(search(None).sort_as_order_by_args(&["a", "b"], "a"), "a");
}

#[test]
fn sort_as_order_by_args_joins_with_comma_and_space() {
    assert_eq!(search(Some("a,-b")).sort_as_order_by_args(&["a", "b"], "a"), "a, b DESC");
}

#[test]
fn sort_as_order_by_args_falls_back_when_nothing_allowed() {
    assert_eq!(search(Some("name,-b,c")).sort_as_order_by_args(&["a", "h"], "c"), "c");
}

#[test]
fn sort_as_order_by_args_takes_default_as_it_is() {
    assert_eq!(
        search(Some("zzz")).sort_as_order_by_args(&["a"], "created_at DESC, id"),
        "created_at DESC, id"
    );
    assert_eq!(search(None).sort_as_order_by_args(&["a"], ""), "");
}

#[test]
fn sort_as_order_by_args_of_one_field_has_no_separator() {
    assert_eq!(search(Some("-age")).sort_as_order_by_args(&["age"], "id"), "age DESC");
}

#[test]
fn sort_as_order_by_args_of_three_fields() {
    assert_eq!(
        search(Some("name,-age,id")).sort_as_order_by_args(&["id", "age", "name"], "id"),
        "name, age DESC, id"
    );
}

#[test]
fn query_search_ranges() {
    let mut query = search(None);
    assert!(query.is_in_range());
    query.page_size = 1;
    assert!(query.is_in_range());
    query.page_size = 0;
    assert!(!query.is_in_range());
    query.page_size = 1;
    query.offset = -1;
    assert!(!query.is_in_range());
    query.offset = i64::MAX;
    query.page_size = i64::MAX;
    assert!(query.is_in_range());
}

#[test]
fn query_search_equality_and_clone() {
    let query = QuerySearch {
        q: Some(String::from("marian")),
        sort: Some(String::from("-name")),
        offset: 20,
        page_size: 100,
        include_total: Some(true),
    };
    let copy = query.clone();
    assert_eq!(query, copy);
    assert_ne!(query, search(Some("-name")));
}

#[test]
fn force_holds_its_flag() {
    assert_eq!(Force { force: Some(true) }.force, Some(true));
    assert_eq!(Force { force: None }.clone().force, None);
}
