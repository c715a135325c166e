use dataverse_client::query::attribute::Attribute;
use dataverse_client::query::filter::Filter;
use dataverse_client::query::order::Order;
use dataverse_client::query::Query;

#[test]
fn query_empty_query() {
    let query = Query::new("testy");
    assert_eq!(query.to_string(), "testy");
}

#[test]
fn select_query() {
    let mut query = Query::new("testy");
    query.columns = Some(vec!["first", "second"]);
    assert_eq!(query.to_string(), "testy?$select=first,second");
}

#[test]
fn query_limit_query() {
    let mut query = Query::new("testy");
    query.limit = Some(5);
    assert_eq!(query.to_string(), "testy?$top=5");
}

#[test]
fn query_filter_query() {
    let mut query = Query::new("testy");
    query.filter = Some(Filter::Equal("name", Attribute::String(String::from("Testface"))));
    assert_eq!(query.to_string(), "testy?$filter=name eq 'Testface'");
}

#[test]
fn query_orderby_query() {
    let mut query = Query::new("testy");
    query.order = Some(vec![Order::Ascending("name"), Order::Descending("rank")]);
    assert_eq!(query.to_string(), "testy?$orderby=name asc,rank desc");
}

#[test]
fn query_full_query() {
    let mut query = Query::new("testy");
    query.columns = Some(vec!["first", "second"]);
    query.limit = Some(5);
    query.filter = Some(Filter::Equal("name", Attribute::String(String::from("Testface"))));
    query.order = Some(vec![Order::Ascending("name"), Order::Descending("rank")]);
    assert_eq!(
        query.to_string(),
        "testy?$select=first,second&$top=5&$filter=name eq 'Testface'&$orderby=name asc,rank desc"
    );
}

#[test]
fn mod_empty_query() {
    let query: Query = Query::new("testy");
    assert_eq!(query.to_string(), "testy");
}

#[test]
fn mod_limit_query() {
    let mut query: Query = Query::new("testy");
    query.limit = Some(5);
    assert_eq!(query.to_string(), "testy?$top=5");
}

#[test]
fn mod_filter_query() {
    let mut query: Query = Query::new("testy");
    query.filter = Some(Filter::Equal(
        "name",
        Attribute::String(String::from("Testface")),
    ));
    assert_eq!(query.to_string(), "testy?$filter=name eq 'Testface'");
}

#[test]
fn mod_orderby_query() {
    let mut query: Query = Query::new("testy");
    query.order = Some(vec![Order::Ascending("name"), Order::Descending("rank")]);
    assert_eq!(query.to_string(), "testy?$orderby=name asc,rank desc");
}

#[test]
fn mod_full_query() {
    let mut query: Query = Query::new("testy");
    query.limit = Some(5);
    query.filter = Some(Filter::Equal(
        "name",
        Attribute::String(String::from("Testface")),
    ));
    query.order = Some(vec![Order::Ascending("name"), Order::Descending("rank")]);
    assert_eq!(
        query.to_string(),
        "testy?$top=5&$filter=name eq 'Testface'&$orderby=name asc,rank desc"
    );
}

#[test]
fn builder_chain_matches_field_assignment() {
    let query = Query::new("testy")
        .limit(5)
        .filter(Filter::Equal("name", Attribute::String(String::from("Testface"))))
        .order(vec![Order::Ascending("name"), Order::Descending("rank")]);
    assert_eq!(
        query.to_string(),
        "testy?$top=5&$filter=name eq 'Testface'&$orderby=name asc,rank desc"
    );
}

#[test]
fn single_column_select_has_no_comma() {
    let mut query = Query::new("testy");
    query.columns = Some(vec!["only"]);
    assert_eq!(query.to_string(), "testy?$select=only");
}

#[test]
fn empty_order_list_still_emits_parameter() {
    let mut query = Query::new("testy");
    query.order = Some(vec![]);
    assert_eq!(query.to_string(), "testy?$orderby=");
}
