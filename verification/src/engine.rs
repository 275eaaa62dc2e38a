//! The engine proper: matching cart lines against the rule set and building
//! the discount descriptors.
//!
//! One invocation is a single pass: the configuration is loaded once, then
//! each cart line is matched against the first rule for its product under the
//! minimum-quantity gate, and the matched lines yield discounts collected in
//! cart order under the fixed `First` strategy. `run_model` states the whole
//! computation; `run` realises it.

use vstd::prelude::*;
use vstd::string::StringExecFns;
use crate::config::parse_rules;
use crate::config::rules_of_text;
use crate::model::ApplicationStrategy;
use crate::model::CartLine;
use crate::model::CartLineModel;
use crate::model::Discount;
use crate::model::DiscountModel;
use crate::model::DiscountResult;
use crate::model::DiscountRule;
use crate::model::DiscountValue;
use crate::model::DiscountValueModel;
use crate::model::Merchandise;
use crate::model::MerchandiseModel;
use crate::model::ResultModel;
use crate::model::RuleModel;
use crate::model::Target;
use crate::model::TargetModel;
use crate::model::empty_result;
use crate::model::empty_result_model;

verus! {

/// The first rule in stored order whose product is the given one; later
/// rules for the same product never count.
pub open spec fn first_match(rules: Seq<RuleModel>, product_id: Seq<char>) -> Option<RuleModel>
    decreases rules.len(),
{
    if rules.len() == 0 {
        None
    } else if rules.first().product_id == product_id {
        Some(rules.first())
    } else {
        first_match(rules.drop_first(), product_id)
    }
}

/// A prefix without the product can be skipped without changing the match.
pub(crate) proof fn lemma_first_match_skip(rules: Seq<RuleModel>, product_id: Seq<char>, i: int)
    requires
        0 <= i <= rules.len(),
        forall|k: int| 0 <= k < i ==> rules[k].product_id != product_id,
    ensures
        first_match(rules, product_id) == first_match(rules.skip(i), product_id),
    decreases i,
{
    if i > 0 {
        lemma_first_match_skip(rules, product_id, i - 1);
        assert(rules.skip(i - 1)[0] == rules[i - 1]);
        assert(rules.skip(i - 1).drop_first() =~= rules.skip(i));
    } else {
        assert(rules.skip(0) =~= rules);
    }
}

/// Selects the applicable rule for a product: the first rule in stored order
/// whose `product_id` is the given one, exactly as `first_match` states it.
pub fn find_rule<'a>(rules: &'a Vec<DiscountRule>, product_id: &String) -> (r: Option<
    &'a DiscountRule,
>)
    ensures
        match r {
            Some(rule) => first_match(rules.deep_view(), product_id@) == Some(rule.deep_view()),
            None => first_match(rules.deep_view(), product_id@) is None,
        },
{
    let mut i: usize = 0;
    while i < rules.len()
        invariant
            i <= rules@.len(),
            forall|k: int| 0 <= k < i ==> rules.deep_view()[k].product_id != product_id@,
        decreases rules@.len() - i,
    {
        if rules[i].product_id == *product_id {
            proof {
                lemma_first_match_skip(rules.deep_view(), product_id@, i as int);
                assert(rules.deep_view().skip(i as int)[0] == rules.deep_view()[i as int]);
            }
            return Some(&rules[i]);
        }
        proof {
            assert(rules.deep_view()[i as int] == rules@[i as int].deep_view());
        }
        i += 1;
    }
    proof {
        lemma_first_match_skip(rules.deep_view(), product_id@, rules@.len() as int);
        assert(rules.deep_view().skip(rules@.len() as int) =~= Seq::<RuleModel>::empty());
    }
    None
}

/// The message a discount carries: the percentage text followed by "% off".
pub open spec fn discount_message(percentage: Seq<char>) -> Seq<char> {
    percentage + "% off"@
}

/// The discount a matched (line, rule) pair yields: one target naming the
/// line's variant with no quantity (the whole line), a percentage value, and
/// the message.
pub open spec fn discount_for(rule: RuleModel, variant_id: Seq<char>) -> DiscountModel {
    DiscountModel {
        message: Some(discount_message(rule.percentage)),
        targets: seq![TargetModel { variant_id: variant_id, quantity: None }],
        value: DiscountValueModel::Percentage { value: rule.percentage },
    }
}

/// The discount builder: one matched (line, rule) pair in, exactly one
/// discount out, as `discount_for` states it.
pub fn build_discount(variant_id: &String, rule: &DiscountRule) -> (d: Discount)
    ensures
        d.deep_view() == discount_for(rule.deep_view(), variant_id@),
{
    let message = rule.percentage.clone().concat("% off");
    let mut targets: Vec<Target> = Vec::new();
    targets.push(Target { variant_id: variant_id.clone(), quantity: None });
    let d = Discount {
        message: Some(message),
        targets,
        value: DiscountValue::Percentage { value: rule.percentage.clone() },
    };
    proof {
        assert(d.deep_view().targets =~= seq![
            TargetModel { variant_id: variant_id@, quantity: None },
        ]);
    }
    d
}

/// Whether one cart line earns a discount, and which: no discount for a
/// non-product line, a product without a rule, or a quantity under the
/// matched rule's minimum.
pub open spec fn line_discount_model(rules: Seq<RuleModel>, line: CartLineModel) -> Option<
    DiscountModel,
> {
    match line.merchandise {
        MerchandiseModel::ProductVariant { variant_id, product_id } => match first_match(
            rules,
            product_id,
        ) {
            Some(rule) => if line.quantity >= rule.min_quantity {
                Some(discount_for(rule, variant_id))
            } else {
                None
            },
            None => None,
        },
        MerchandiseModel::Other => None,
    }
}

/// The rule matcher for one line, exactly as `line_discount_model` states
/// it: the first rule for the line's product applies when the quantity
/// reaches its minimum.
pub fn line_discount(rules: &Vec<DiscountRule>, line: &CartLine) -> (d: Option<Discount>)
    ensures
        match d {
            Some(disc) => line_discount_model(rules.deep_view(), line.deep_view()) == Some(
                disc.deep_view(),
            ),
            None => line_discount_model(rules.deep_view(), line.deep_view()) is None,
        },
{
    match &line.merchandise {
        Merchandise::ProductVariant { variant_id, product_id } => {
            match find_rule(rules, product_id) {
                Some(rule) => {
                    if line.quantity >= rule.min_quantity {
                        Some(build_discount(variant_id, rule))
                    } else {
                        None
                    }
                },
                None => None,
            }
        },
        Merchandise::Other => None,
    }
}

/// A discount's worth of sequence: one element when the line earned one,
/// none otherwise.
pub open spec fn opt_discount_seq(d: Option<DiscountModel>) -> Seq<DiscountModel> {
    match d {
        Some(x) => seq![x],
        None => Seq::empty(),
    }
}

/// The discounts a whole cart earns, one per qualifying line, in cart order.
pub open spec fn cart_discounts(rules: Seq<RuleModel>, lines: Seq<CartLineModel>) -> Seq<
    DiscountModel,
>
    decreases lines.len(),
{
    if lines.len() == 0 {
        Seq::empty()
    } else {
        cart_discounts(rules, lines.drop_last()) + opt_discount_seq(
            line_discount_model(rules, lines.last()),
        )
    }
}

/// The whole invocation: an absent configuration, or one that denotes no
/// rule set, yields the canonical empty result; otherwise the cart's
/// discounts under the `First` strategy.
pub open spec fn run_model(config: Option<Seq<char>>, lines: Seq<CartLineModel>) -> ResultModel {
    match config {
        None => empty_result_model(),
        Some(text) => match rules_of_text(text) {
            None => empty_result_model(),
            Some(rules) => ResultModel {
                discounts: cart_discounts(rules, lines),
                strategy: ApplicationStrategy::First,
            },
        },
    }
}

/// One invocation of the engine: from the host-supplied cart lines and the
/// optional raw configuration text to the result, exactly as `run_model`
/// states it. The computation is a pure function of its two inputs and
/// never fails outward.
pub fn run(lines: &Vec<CartLine>, config: Option<&str>) -> (res: DiscountResult)
    ensures
        res.deep_view() == run_model(config.deep_view(), lines.deep_view()),
{
    let text = match config {
        Some(text) => text,
        None => {
            return empty_result();
        },
    };
    let rules = match parse_rules(text) {
        Some(rules) => rules,
        None => {
            return empty_result();
        },
    };
    let mut discounts: Vec<Discount> = Vec::new();
    let mut i: usize = 0;
    proof {
        assert(lines.deep_view().take(0) =~= Seq::<CartLineModel>::empty());
        assert(discounts.deep_view() =~= Seq::<DiscountModel>::empty());
    }
    while i < lines.len()
        invariant
            i <= lines@.len(),
            rules_of_text(text@) == Some(rules.deep_view()),
            discounts.deep_view() == cart_discounts(
                rules.deep_view(),
                lines.deep_view().take(i as int),
            ),
        decreases lines@.len() - i,
    {
        let ghost prev = discounts.deep_view();
        let d = line_discount(&rules, &lines[i]);
        proof {
            assert(lines.deep_view().take(i + 1).drop_last() =~= lines.deep_view().take(i as int));
            assert(lines.deep_view().take(i + 1).last() == lines.deep_view()[i as int]);
            assert(lines.deep_view()[i as int] == lines@[i as int].deep_view());
        }
        match d {
            Some(disc) => {
                discounts.push(disc);
                proof {
                    assert(discounts.deep_view() =~= prev.push(disc.deep_view()));
                    assert(prev.push(disc.deep_view()) =~= prev + seq![disc.deep_view()]);
                }
            },
            None => {
                proof {
                    assert(prev + Seq::<DiscountModel>::empty() =~= prev);
                }
            },
        }
        i += 1;
    }
    proof {
        assert(lines.deep_view().take(lines@.len() as int) =~= lines.deep_view());
    }
    DiscountResult { discounts, strategy: ApplicationStrategy::First }
}

} // verus!
