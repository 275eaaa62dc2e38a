use discount_engine::config::parse_rules;
use discount_engine::model::DiscountRule;
use discount_engine::numbers::parse_i64_text;

fn rule(product_id: &str, percentage: &str, min_quantity: i64) -> DiscountRule {
    DiscountRule {
        product_id: product_id.to_string(),
        percentage: percentage.to_string(),
        min_quantity,
    }
}

#[test]
fn parses_ordered_rule_set() {
    let config = "[{\"productId\": \"P1\", \"discountPercentage\": 10, \"minQuantity\": 3}, \
                  {\"productId\": \"P2\", \"discountPercentage\": 7.25, \"minQuantity\": 1}]";
    let rules = parse_rules(config).expect("well-formed configuration");
    assert_eq!(rules, vec![rule("P1", "10", 3), rule("P2", "7.25", 1)]);
}

#[test]
fn duplicate_product_rules_kept_in_order() {
    let config = "[{\"productId\": \"P1\", \"discountPercentage\": 10, \"minQuantity\": 1}, \
                  {\"productId\": \"P1\", \"discountPercentage\": 20, \"minQuantity\": 1}]";
    let rules = parse_rules(config).expect("well-formed configuration");
    assert_eq!(rules, vec![rule("P1", "10", 1), rule("P1", "20", 1)]);
}

#[test]
fn empty_array_is_a_valid_empty_rule_set() {
    assert_eq!(parse_rules("[]"), Some(Vec::new()));
}

#[test]
fn rejects_text_that_is_not_json() {
    assert_eq!(parse_rules("{not json}"), None);
    assert_eq!(parse_rules(""), None);
    assert_eq!(parse_rules("[1, 2"), None);
}

#[test]
fn rejects_documents_that_are_not_rule_arrays() {
    assert_eq!(parse_rules("null"), None);
    assert_eq!(parse_rules("true"), None);
    assert_eq!(parse_rules("3"), None);
    assert_eq!(parse_rules("\"P1\""), None);
    assert_eq!(parse_rules("{\"productId\": \"P1\"}"), None);
}

#[test]
fn rejects_elements_missing_a_field() {
    assert_eq!(parse_rules("[{}]"), None);
    assert_eq!(
        parse_rules("[{\"discountPercentage\": 10, \"minQuantity\": 1}]"),
        None
    );
    assert_eq!(
        parse_rules("[{\"productId\": \"P1\", \"minQuantity\": 1}]"),
        None
    );
    assert_eq!(
        parse_rules("[{\"productId\": \"P1\", \"discountPercentage\": 10}]"),
        None
    );
}

#[test]
fn rejects_fields_of_the_wrong_type() {
    assert_eq!(
        parse_rules("[{\"productId\": 1, \"discountPercentage\": 10, \"minQuantity\": 1}]"),
        None
    );
    assert_eq!(
        parse_rules("[{\"productId\": \"P1\", \"discountPercentage\": null, \"minQuantity\": 1}]"),
        None
    );
    assert_eq!(
        parse_rules("[{\"productId\": \"P1\", \"discountPercentage\": 10, \"minQuantity\": \"1\"}]"),
        None
    );
}

#[test]
fn rejects_non_integer_min_quantity() {
    assert_eq!(
        parse_rules("[{\"productId\": \"P1\", \"discountPercentage\": 10, \"minQuantity\": 2.5}]"),
        None
    );
    assert_eq!(
        parse_rules("[{\"productId\": \"P1\", \"discountPercentage\": 10, \"minQuantity\": 2.0}]"),
        None
    );
    assert_eq!(
        parse_rules(
            "[{\"productId\": \"P1\", \"discountPercentage\": 10, \"minQuantity\": 9223372036854775808}]",
        ),
        None
    );
}

#[test]
fn accepts_min_quantity_across_the_i64_range() {
    let config = "[{\"productId\": \"A\", \"discountPercentage\": 1, \"minQuantity\": 9223372036854775807}, \
                  {\"productId\": \"B\", \"discountPercentage\": 1, \"minQuantity\": -9223372036854775808}]";
    let rules = parse_rules(config).expect("well-formed configuration");
    assert_eq!(rules[0].min_quantity, i64::MAX);
    assert_eq!(rules[1].min_quantity, i64::MIN);
}

#[test]
fn integer_text_readings() {
    assert_eq!(parse_i64_text("0"), Some(0));
    assert_eq!(parse_i64_text("3"), Some(3));
    assert_eq!(parse_i64_text("-12"), Some(-12));
    assert_eq!(parse_i64_text("9223372036854775807"), Some(i64::MAX));
    assert_eq!(parse_i64_text("-9223372036854775808"), Some(i64::MIN));
    assert_eq!(parse_i64_text("9223372036854775808"), None);
    assert_eq!(parse_i64_text("-9223372036854775809"), None);
    assert_eq!(parse_i64_text("18446744073709551616"), None);
    assert_eq!(parse_i64_text(""), None);
    assert_eq!(parse_i64_text("-"), None);
    assert_eq!(parse_i64_text("2.5"), None);
    assert_eq!(parse_i64_text("1e2"), None);
    assert_eq!(parse_i64_text("+3"), None);
    assert_eq!(parse_i64_text("1 2"), None);
}

#[test]
fn percentage_text_is_the_configured_number_text() {
    let config = "[{\"productId\": \"P1\", \"discountPercentage\": 0.125, \"minQuantity\": 1}]";
    let rules = parse_rules(config).expect("well-formed configuration");
    assert_eq!(rules[0].percentage, "0.125");
}
