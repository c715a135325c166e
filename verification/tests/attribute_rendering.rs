use dataverse_client::datetime::DateTime;
use dataverse_client::guid::Guid;
use dataverse_client::query::attribute::Attribute;
use dataverse_client::query::filter::Filter;
use dataverse_client::query::order::Order;

#[test]
fn null_renders_unquoted() {
    assert_eq!(Attribute::Null.to_string(), "null");
}

#[test]
fn booleans_render_lowercase_unquoted() {
    assert_eq!(Attribute::Boolean(true).to_string(), "true");
    assert_eq!(Attribute::Boolean(false).to_string(), "false");
}

#[test]
fn integers_render_as_plain_decimal() {
    assert_eq!(Attribute::Integer(0).to_string(), "0");
    assert_eq!(Attribute::Integer(42).to_string(), "42");
    assert_eq!(Attribute::Integer(-7).to_string(), "-7");
    assert_eq!(
        Attribute::Integer(i64::MAX).to_string(),
        "9223372036854775807"
    );
    assert_eq!(
        Attribute::Integer(i64::MIN).to_string(),
        "-9223372036854775808"
    );
}

#[test]
fn decimal_text_is_inserted_unquoted() {
    assert_eq!(Attribute::Decimal(String::from("1.25")).to_string(), "1.25");
    assert_eq!(Attribute::Decimal(String::from("-0.5")).to_string(), "-0.5");
}

#[test]
fn strings_render_single_quoted_without_escaping() {
    assert_eq!(
        Attribute::String(String::from("Testface")).to_string(),
        "'Testface'"
    );
    assert_eq!(Attribute::String(String::from("")).to_string(), "''");
}

#[test]
fn datetime_renders_quoted_utc() {
    let d = DateTime::new(2021, 3, 5, 14, 30, 9, 0).unwrap();
    assert_eq!(d.to_text_string(), "2021-03-05 14:30:09 UTC");
    assert_eq!(
        Attribute::DateTime(d).to_string(),
        "'2021-03-05 14:30:09 UTC'"
    );
}

#[test]
fn datetime_fraction_uses_shortest_of_three_widths() {
    let millis = DateTime::new(2021, 1, 1, 0, 0, 0, 500_000_000).unwrap();
    assert_eq!(millis.to_text_string(), "2021-01-01 00:00:00.500 UTC");
    let micros = DateTime::new(2021, 1, 1, 0, 0, 0, 123_000).unwrap();
    assert_eq!(micros.to_text_string(), "2021-01-01 00:00:00.000123 UTC");
    let nanos = DateTime::new(2021, 1, 1, 0, 0, 0, 7).unwrap();
    assert_eq!(nanos.to_text_string(), "2021-01-01 00:00:00.000000007 UTC");
}

#[test]
fn datetime_rejects_out_of_range_fields() {
    assert!(DateTime::new(2021, 13, 1, 0, 0, 0, 0).is_none());
    assert!(DateTime::new(2021, 0, 1, 0, 0, 0, 0).is_none());
    assert!(DateTime::new(2021, 1, 1, 24, 0, 0, 0).is_none());
    assert!(DateTime::new(2021, 1, 1, 0, 0, 0, 1_000_000_000).is_none());
    assert!(DateTime::new(10000, 1, 1, 0, 0, 0, 0).is_none());
}

#[test]
fn uuid_renders_quoted_hyphenated_lowercase() {
    let g = Guid::new(0x12345678_1234_1234_1234_123456789ABC);
    assert_eq!(g.to_hyphenated_string(), "12345678-1234-1234-1234-123456789abc");
    assert_eq!(g.to_simple_string(), "12345678123412341234123456789abc");
    assert_eq!(
        Attribute::Uuid(g).to_string(),
        "'12345678-1234-1234-1234-123456789abc'"
    );
}

#[test]
fn filter_comparisons_render_infix() {
    assert_eq!(
        Filter::Equal("name", Attribute::String(String::from("Testy"))).to_string(),
        "name eq 'Testy'"
    );
    assert_eq!(
        Filter::NotEqual("rank", Attribute::Integer(3)).to_string(),
        "rank ne 3"
    );
    assert_eq!(
        Filter::GreaterThan("rank", Attribute::Integer(3)).to_string(),
        "rank gt 3"
    );
    assert_eq!(
        Filter::GreaterOrEqual("rank", Attribute::Integer(3)).to_string(),
        "rank ge 3"
    );
    assert_eq!(
        Filter::LessThan("rank", Attribute::Integer(3)).to_string(),
        "rank lt 3"
    );
    assert_eq!(
        Filter::LessOrEqual("rank", Attribute::Integer(3)).to_string(),
        "rank le 3"
    );
}

#[test]
fn filter_string_functions_render_as_calls() {
    assert_eq!(
        Filter::Contains("name", Attribute::String(String::from("est"))).to_string(),
        "contains(name,'est')"
    );
    assert_eq!(
        Filter::StartsWith("name", Attribute::String(String::from("Te"))).to_string(),
        "startswith(name,'Te')"
    );
    assert_eq!(
        Filter::EndsWith("name", Attribute::String(String::from("face"))).to_string(),
        "endswith(name,'face')"
    );
}

#[test]
fn filter_combinators_render_flat() {
    let a = Filter::Equal("x", Attribute::Integer(1));
    let b = Filter::Equal("y", Attribute::Integer(2));
    assert_eq!(a.and(b).to_string(), "x eq 1 and y eq 2");
    let a = Filter::Equal("x", Attribute::Integer(1));
    let b = Filter::Equal("y", Attribute::Integer(2));
    assert_eq!(a.or(b).to_string(), "x eq 1 or y eq 2");
    let a = Filter::Equal("x", Attribute::Integer(1));
    let b = Filter::Equal("y", Attribute::Integer(2));
    assert_eq!(a.not_and(b).to_string(), "not x eq 1 and y eq 2");
    let a = Filter::Equal("x", Attribute::Integer(1));
    let b = Filter::Equal("y", Attribute::Integer(2));
    assert_eq!(a.not_or(b).to_string(), "not x eq 1 or y eq 2");
}

#[test]
fn nested_combinators_insert_no_parentheses() {
    let inner = Filter::Equal("a", Attribute::Integer(1))
        .and(Filter::Equal("b", Attribute::Integer(2)));
    let tree = Filter::Or(
        Box::new(inner),
        Box::new(Filter::Equal("c", Attribute::Integer(3))),
    );
    assert_eq!(tree.to_string(), "a eq 1 and b eq 2 or c eq 3");
}

#[test]
fn order_renders_direction_suffix() {
    assert_eq!(Order::Ascending("name").to_string(), "name asc");
    assert_eq!(Order::Descending("rank").to_string(), "rank desc");
}
