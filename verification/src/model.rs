//! Data model of the discount engine: cart lines as the host hands them in,
//! merchant-configured rules, and the discount descriptors handed back.
//!
//! Each executable type has a mathematical model reached through `DeepView`;
//! all contracts speak of those models.

use vstd::prelude::*;

verus! {

/// One merchant-configured offer: a product, a percentage, and the minimum
/// quantity a line must reach for the offer to apply.
///
/// The percentage is carried as the decimal text it had in the configuration;
/// no 0..=100 range is enforced anywhere, deliberately: the engine passes the
/// value through unvalidated.
#[derive(Debug, PartialEq, Clone)]
pub struct DiscountRule {
    pub product_id: String,
    /// Decimal text of the percentage, unchecked range.
    pub percentage: String,
    pub min_quantity: i64,
}

/// Model of a rule: the same three fields over sequences of characters.
pub struct RuleModel {
    pub product_id: Seq<char>,
    pub percentage: Seq<char>,
    pub min_quantity: i64,
}

impl DeepView for DiscountRule {
    type V = RuleModel;

    open spec fn deep_view(&self) -> RuleModel {
        RuleModel {
            product_id: self.product_id@,
            percentage: self.percentage@,
            min_quantity: self.min_quantity,
        }
    }
}

/// What a cart line refers to. The engine acts only on the product-variant
/// case; every other kind of merchandise is inert.
#[derive(Debug, PartialEq, Clone)]
pub enum Merchandise {
    ProductVariant { variant_id: String, product_id: String },
    Other,
}

pub enum MerchandiseModel {
    ProductVariant { variant_id: Seq<char>, product_id: Seq<char> },
    Other,
}

impl DeepView for Merchandise {
    type V = MerchandiseModel;

    open spec fn deep_view(&self) -> MerchandiseModel {
        match self {
            Merchandise::ProductVariant { variant_id, product_id } => {
                MerchandiseModel::ProductVariant {
                    variant_id: variant_id@,
                    product_id: product_id@,
                }
            },
            Merchandise::Other => MerchandiseModel::Other,
        }
    }
}

/// One entry of the shopper's cart, as the host supplies it.
#[derive(Debug, PartialEq, Clone)]
pub struct CartLine {
    pub merchandise: Merchandise,
    pub quantity: i64,
}

pub struct CartLineModel {
    pub merchandise: MerchandiseModel,
    pub quantity: i64,
}

impl DeepView for CartLine {
    type V = CartLineModel;

    open spec fn deep_view(&self) -> CartLineModel {
        CartLineModel { merchandise: self.merchandise.deep_view(), quantity: self.quantity }
    }
}

/// The single variant reference a discount points at. An unset quantity means
/// the whole line is discounted.
#[derive(Debug, PartialEq, Clone)]
pub struct Target {
    pub variant_id: String,
    pub quantity: Option<i64>,
}

pub struct TargetModel {
    pub variant_id: Seq<char>,
    pub quantity: Option<i64>,
}

impl DeepView for Target {
    type V = TargetModel;

    open spec fn deep_view(&self) -> TargetModel {
        TargetModel { variant_id: self.variant_id@, quantity: self.quantity }
    }
}

/// The value of a discount: always a percentage, rendered as decimal text.
#[derive(Debug, PartialEq, Clone)]
pub enum DiscountValue {
    Percentage { value: String },
}

pub enum DiscountValueModel {
    Percentage { value: Seq<char> },
}

impl DeepView for DiscountValue {
    type V = DiscountValueModel;

    open spec fn deep_view(&self) -> DiscountValueModel {
        match self {
            DiscountValue::Percentage { value } => {
                DiscountValueModel::Percentage { value: value@ }
            },
        }
    }
}

/// One discount descriptor, produced for exactly one cart line.
#[derive(Debug, PartialEq, Clone)]
pub struct Discount {
    pub message: Option<String>,
    pub targets: Vec<Target>,
    pub value: DiscountValue,
}

pub struct DiscountModel {
    pub message: Option<Seq<char>>,
    pub targets: Seq<TargetModel>,
    pub value: DiscountValueModel,
}

impl DeepView for Discount {
    type V = DiscountModel;

    open spec fn deep_view(&self) -> DiscountModel {
        DiscountModel {
            message: self.message.deep_view(),
            targets: self.targets.deep_view(),
            value: self.value.deep_view(),
        }
    }
}

/// How the host should apply the discounts; this engine always says `First`:
/// apply them in the order given, without combining or reordering.
#[derive(Debug, Clone, Copy, PartialEq, Eq, Structural)]
pub enum ApplicationStrategy {
    First,
}

/// The final result of one invocation: the discounts in cart-line order and
/// the fixed application strategy.
#[derive(Debug, PartialEq, Clone)]
pub struct DiscountResult {
    pub discounts: Vec<Discount>,
    pub strategy: ApplicationStrategy,
}

pub struct ResultModel {
    pub discounts: Seq<DiscountModel>,
    pub strategy: ApplicationStrategy,
}

impl DeepView for DiscountResult {
    type V = ResultModel;

    open spec fn deep_view(&self) -> ResultModel {
        ResultModel { discounts: self.discounts.deep_view(), strategy: self.strategy }
    }
}

/// Model of the sentinel that every fail-safe path returns: no discounts,
/// strategy `First`.
pub open spec fn empty_result_model() -> ResultModel {
    ResultModel { discounts: Seq::empty(), strategy: ApplicationStrategy::First }
}

/// The canonical empty result: no discounts, strategy `First`. Returned for a
/// missing configuration, a malformed configuration, and a cart where no line
/// matched.
pub fn empty_result() -> (res: DiscountResult)
    ensures
        res.deep_view() == empty_result_model(),
{
    let res = DiscountResult { discounts: Vec::new(), strategy: ApplicationStrategy::First };
    proof {
        assert(res.deep_view().discounts =~= Seq::<DiscountModel>::empty());
    }
    res
}

} // verus!
