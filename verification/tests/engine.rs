use discount_engine::engine::run;
use discount_engine::model::ApplicationStrategy;
use discount_engine::model::CartLine;
use discount_engine::model::Discount;
use discount_engine::model::DiscountResult;
use discount_engine::model::DiscountValue;
use discount_engine::model::Merchandise;
use discount_engine::model::Target;
use discount_engine::model::empty_result;

fn product_line(variant_id: &str, product_id: &str, quantity: i64) -> CartLine {
    CartLine {
        merchandise: Merchandise::ProductVariant {
            variant_id: variant_id.to_string(),
            product_id: product_id.to_string(),
        },
        quantity,
    }
}

fn percent_discount(variant_id: &str, percentage: &str) -> Discount {
    Discount {
        message: Some(format!("{}% off", percentage)),
        targets: vec![Target { variant_id: variant_id.to_string(), quantity: None }],
        value: DiscountValue::Percentage { value: percentage.to_string() },
    }
}

fn empty(res: &DiscountResult) -> bool {
    res.discounts.is_empty() && res.strategy == ApplicationStrategy::First
}

#[test]
fn no_config_no_discount() {
    let lines = vec![product_line("V1", "P1", 5)];
    let res = run(&lines, None);
    assert!(empty(&res));
}

#[test]
fn no_config_no_discount_empty_cart() {
    let res = run(&Vec::new(), None);
    assert!(empty(&res));
}

#[test]
fn malformed_config_no_discount() {
    let lines = vec![product_line("V1", "P1", 5)];
    for bad in [
        "{not json}",
        "",
        "null",
        "42",
        "\"rules\"",
        "{\"productId\": \"P1\"}",
        "[{\"productId\": \"P1\"}]",
        "[{\"productId\": 7, \"discountPercentage\": 10, \"minQuantity\": 1}]",
        "[{\"productId\": \"P1\", \"discountPercentage\": \"10\", \"minQuantity\": 1}]",
        "[{\"productId\": \"P1\", \"discountPercentage\": 10, \"minQuantity\": 1.5}]",
        "[{\"productId\": \"P1\", \"discountPercentage\": 10, \"minQuantity\": true}]",
        "[{\"productId\": \"P1\", \"discountPercentage\": 10, \"minQuantity\": 9223372036854775808}]",
        "[1, 2]",
        "[[]]",
    ] {
        let res = run(&lines, Some(bad));
        assert!(empty(&res), "expected empty result for {:?}", bad);
    }
}

#[test]
fn gate_boundary_below() {
    let config = "[{\"productId\": \"P1\", \"discountPercentage\": 10, \"minQuantity\": 3}]";
    let lines = vec![product_line("V1", "P1", 2)];
    let res = run(&lines, Some(config));
    assert!(empty(&res));
}

#[test]
fn gate_boundary_met() {
    let config = "[{\"productId\": \"P1\", \"discountPercentage\": 10, \"minQuantity\": 3}]";
    let lines = vec![product_line("V1", "P1", 3)];
    let res = run(&lines, Some(config));
    assert_eq!(res.discounts, vec![percent_discount("V1", "10")]);
    assert_eq!(res.strategy, ApplicationStrategy::First);
}

#[test]
fn first_match_precedence() {
    let config = "[{\"productId\": \"P1\", \"discountPercentage\": 10, \"minQuantity\": 1}, \
                  {\"productId\": \"P1\", \"discountPercentage\": 20, \"minQuantity\": 1}]";
    let lines = vec![product_line("V1", "P1", 1)];
    let res = run(&lines, Some(config));
    assert_eq!(res.discounts, vec![percent_discount("V1", "10")]);
}

#[test]
fn per_line_independence() {
    let config = "[{\"productId\": \"P1\", \"discountPercentage\": 15, \"minQuantity\": 2}]";
    let lines = vec![product_line("V1", "P1", 2), product_line("V2", "P1", 4)];
    let res = run(&lines, Some(config));
    assert_eq!(
        res.discounts,
        vec![percent_discount("V1", "15"), percent_discount("V2", "15")]
    );
}

#[test]
fn non_product_lines_inert() {
    let config = "[{\"productId\": \"P1\", \"discountPercentage\": 10, \"minQuantity\": 1}]";
    let lines = vec![
        CartLine { merchandise: Merchandise::Other, quantity: 10 },
        product_line("V1", "P1", 1),
        CartLine { merchandise: Merchandise::Other, quantity: 1 },
    ];
    let res = run(&lines, Some(config));
    assert_eq!(res.discounts, vec![percent_discount("V1", "10")]);
}

#[test]
fn idempotent_invocations() {
    let config = "[{\"productId\": \"P1\", \"discountPercentage\": 10, \"minQuantity\": 1}, \
                  {\"productId\": \"P2\", \"discountPercentage\": 5, \"minQuantity\": 3}]";
    let lines = vec![
        product_line("V1", "P1", 1),
        product_line("V2", "P2", 2),
        CartLine { merchandise: Merchandise::Other, quantity: 1 },
    ];
    let first = run(&lines, Some(config));
    let second = run(&lines, Some(config));
    assert_eq!(first, second);
}

#[test]
fn unmatched_products_skipped() {
    let config = "[{\"productId\": \"P9\", \"discountPercentage\": 10, \"minQuantity\": 1}]";
    let lines = vec![product_line("V1", "P1", 5)];
    let res = run(&lines, Some(config));
    assert!(empty(&res));
}

#[test]
fn decimal_percentage_kept_as_text() {
    let config = "[{\"productId\": \"P1\", \"discountPercentage\": 12.5, \"minQuantity\": 1}]";
    let lines = vec![product_line("V1", "P1", 1)];
    let res = run(&lines, Some(config));
    assert_eq!(res.discounts, vec![percent_discount("V1", "12.5")]);
}

#[test]
fn negative_min_quantity_passes_gate() {
    let config = "[{\"productId\": \"P1\", \"discountPercentage\": 10, \"minQuantity\": -2}]";
    let lines = vec![product_line("V1", "P1", 0)];
    let res = run(&lines, Some(config));
    assert_eq!(res.discounts, vec![percent_discount("V1", "10")]);
}

#[test]
fn extra_fields_ignored() {
    let config = "[{\"productId\": \"P1\", \"discountPercentage\": 10, \"minQuantity\": 1, \
                    \"note\": {\"nested\": [1, 2, {\"deep\": null}]}}]";
    let lines = vec![product_line("V1", "P1", 1)];
    let res = run(&lines, Some(config));
    assert_eq!(res.discounts, vec![percent_discount("V1", "10")]);
}

#[test]
fn empty_rule_array_matches_nothing() {
    let lines = vec![product_line("V1", "P1", 5)];
    let res = run(&lines, Some("[]"));
    assert!(empty(&res));
}

#[test]
fn empty_result_is_canonical() {
    let res = empty_result();
    assert!(empty(&res));
    assert_eq!(res, run(&Vec::new(), None));
}
