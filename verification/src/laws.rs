//! The engine's guarantees, stated once over the models that every contract
//! speaks of.

use vstd::prelude::*;
use crate::config::rules_of_text;
use crate::engine::cart_discounts;
use crate::engine::first_match;
use crate::engine::lemma_first_match_skip;
use crate::engine::line_discount_model;
use crate::engine::opt_discount_seq;
use crate::engine::run_model;
use crate::model::CartLineModel;
use crate::model::MerchandiseModel;
use crate::model::ResultModel;
use crate::model::RuleModel;
use crate::model::empty_result_model;

verus! {

/// No configuration, no discount: whatever the cart holds, an absent
/// configuration yields the canonical empty result.
pub proof fn lemma_no_config_no_discount(lines: Seq<CartLineModel>)
    ensures
        run_model(None, lines) == empty_result_model(),
{
}

/// Malformed configuration, no discount: text that denotes no rule set —
/// not JSON, or not an array of rule records — yields the same empty result
/// as no configuration at all, for any cart.
pub proof fn lemma_malformed_config_no_discount(text: Seq<char>, lines: Seq<CartLineModel>)
    requires
        rules_of_text(text) is None,
    ensures
        run_model(Some(text), lines) == run_model(None, lines),
{
}

/// First match wins: the rule selected for a product is the one at the
/// least index naming it; rules standing later never decide.
pub proof fn lemma_first_match_precedence(rules: Seq<RuleModel>, product_id: Seq<char>, i: int)
    requires
        0 <= i < rules.len(),
        rules[i].product_id == product_id,
        forall|k: int| 0 <= k < i ==> rules[k].product_id != product_id,
    ensures
        first_match(rules, product_id) == Some(rules[i]),
{
    lemma_first_match_skip(rules, product_id, i);
    assert(rules.skip(i)[0] == rules[i]);
}

/// Per-line independence: one more cart line contributes exactly its own
/// discount, if any, after those of the lines before it; lines neither
/// merge nor reorder.
pub proof fn lemma_per_line_independence(
    rules: Seq<RuleModel>,
    lines: Seq<CartLineModel>,
    line: CartLineModel,
)
    ensures
        cart_discounts(rules, lines.push(line)) == cart_discounts(rules, lines)
            + opt_discount_seq(line_discount_model(rules, line)),
{
    assert(lines.push(line).drop_last() =~= lines);
    assert(lines.push(line).last() == line);
}

/// Non-product lines are inert: a line whose merchandise is no product
/// variant never yields a discount, whatever the rules say.
pub proof fn lemma_non_product_inert(rules: Seq<RuleModel>, line: CartLineModel)
    requires
        !(line.merchandise is ProductVariant),
    ensures
        line_discount_model(rules, line) is None,
{
}

/// Idempotence: the result is a function of cart and configuration alone,
/// so two invocations on identical inputs yield identical results.
pub proof fn lemma_idempotent(
    config: Option<Seq<char>>,
    lines: Seq<CartLineModel>,
    first_result: ResultModel,
    second_result: ResultModel,
)
    requires
        first_result == run_model(config, lines),
        second_result == run_model(config, lines),
    ensures
        first_result == second_result,
{
}

} // verus!
