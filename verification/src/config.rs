//! The configuration loader: from raw configuration text to the ordered rule
//! set.
//!
//! A configuration denotes a rule set exactly when it is a JSON array whose
//! every element is an object carrying a string `productId`, a number
//! `discountPercentage`, and a number `minQuantity` whose text denotes an
//! `i64`. Extra fields are ignored; any other shape denotes nothing, and the
//! engine then falls back to the empty result.

use vstd::prelude::*;
use crate::json::Json;
use crate::json::json_of;
use crate::json::parse_json_text;
use crate::model::DiscountRule;
use crate::model::RuleModel;
use crate::numbers::i64_of_text;
use crate::numbers::parse_i64_text;

verus! {

/// The value of the first field with the given name, if any.
pub open spec fn field_of(fields: Seq<(String, Json)>, name: Seq<char>) -> Option<Json>
    decreases fields.len(),
{
    if fields.len() == 0 {
        None
    } else if fields[0].0@ == name {
        Some(fields[0].1)
    } else {
        field_of(fields.drop_first(), name)
    }
}

/// The rule a single JSON value denotes: an object with a string `productId`,
/// a number `discountPercentage`, and a number `minQuantity` denoting an
/// `i64`; anything else denotes no rule.
pub open spec fn rule_of_json(j: Json) -> Option<RuleModel> {
    match j {
        Json::Obj(fields) => match (
            field_of(fields@, "productId"@),
            field_of(fields@, "discountPercentage"@),
            field_of(fields@, "minQuantity"@),
        ) {
            (Some(Json::Str(pid)), Some(Json::Num(pct)), Some(Json::Num(qty))) => match i64_of_text(
                qty@,
            ) {
                Some(q) => Some(
                    RuleModel { product_id: pid@, percentage: pct@, min_quantity: q },
                ),
                None => None,
            },
            _ => None,
        },
        _ => None,
    }
}

/// The rule set a sequence of JSON values denotes, in order; nothing as soon
/// as one element denotes no rule.
pub open spec fn rules_of_seq(items: Seq<Json>) -> Option<Seq<RuleModel>>
    decreases items.len(),
{
    if items.len() == 0 {
        Some(Seq::empty())
    } else {
        match (rules_of_seq(items.drop_last()), rule_of_json(items.last())) {
            (Some(rules), Some(rule)) => Some(rules.push(rule)),
            _ => None,
        }
    }
}

/// The rule set a JSON document denotes: it must be an array of rule records.
pub open spec fn rules_of_json(j: Json) -> Option<Seq<RuleModel>> {
    match j {
        Json::Arr(items) => rules_of_seq(items@),
        _ => None,
    }
}

/// The rule set a configuration text denotes: the text must parse as JSON and
/// the document must be an array of rule records.
pub open spec fn rules_of_text(text: Seq<char>) -> Option<Seq<RuleModel>> {
    match json_of(text) {
        Some(j) => rules_of_json(j),
        None => None,
    }
}

/// One element that denotes no rule spoils the whole sequence.
proof fn lemma_rules_of_seq_bad(items: Seq<Json>, k: int)
    requires
        0 <= k < items.len(),
        rule_of_json(items[k]) is None,
    ensures
        rules_of_seq(items) is None,
    decreases items.len(),
{
    if k < items.len() - 1 {
        assert(items.drop_last()[k] == items[k]);
        lemma_rules_of_seq_bad(items.drop_last(), k);
    }
}

/// Looks up the first field with the given name, exactly as `field_of`
/// states it.
fn field_of_obj<'a>(fields: &'a Vec<(String, Json)>, name: &String) -> (r: Option<&'a Json>)
    ensures
        match r {
            Some(j) => field_of(fields@, name@) == Some(*j),
            None => field_of(fields@, name@) is None,
        },
{
    let mut i: usize = 0;
    while i < fields.len()
        invariant
            i <= fields@.len(),
            forall|k: int| 0 <= k < i ==> fields@[k].0@ != name@,
        decreases fields@.len() - i,
    {
        if fields[i].0 == *name {
            proof {
                lemma_field_of_skip(fields@, name@, i as int);
                assert(fields@.skip(i as int)[0] == fields@[i as int]);
            }
            return Some(&fields[i].1);
        }
        i += 1;
    }
    proof {
        lemma_field_of_skip(fields@, name@, fields@.len() as int);
        assert(fields@.skip(fields@.len() as int) =~= Seq::<(String, Json)>::empty());
    }
    None
}

/// A prefix without the name can be skipped without changing the lookup.
proof fn lemma_field_of_skip(fields: Seq<(String, Json)>, name: Seq<char>, i: int)
    requires
        0 <= i <= fields.len(),
        forall|k: int| 0 <= k < i ==> fields[k].0@ != name,
    ensures
        field_of(fields, name) == field_of(fields.skip(i), name),
    decreases i,
{
    if i > 0 {
        lemma_field_of_skip(fields, name, i - 1);
        assert(fields.skip(i - 1)[0] == fields[i - 1]);
        assert(fields.skip(i - 1).drop_first() =~= fields.skip(i));
    } else {
        assert(fields.skip(0) =~= fields);
    }
}

/// Reads one rule record out of a JSON value, exactly as `rule_of_json`
/// states it.
pub fn rule_from_json(j: &Json) -> (r: Option<DiscountRule>)
    ensures
        match r {
            Some(rule) => rule_of_json(*j) == Some(rule.deep_view()),
            None => rule_of_json(*j) is None,
        },
{
    let fields = match j {
        Json::Obj(fields) => fields,
        _ => {
            return None;
        },
    };
    let pid_key: String = "productId".to_owned();
    let pct_key: String = "discountPercentage".to_owned();
    let qty_key: String = "minQuantity".to_owned();
    let pid = match field_of_obj(fields, &pid_key) {
        Some(Json::Str(s)) => s,
        _ => {
            return None;
        },
    };
    let pct = match field_of_obj(fields, &pct_key) {
        Some(Json::Num(t)) => t,
        _ => {
            return None;
        },
    };
    let qty = match field_of_obj(fields, &qty_key) {
        Some(Json::Num(t)) => t,
        _ => {
            return None;
        },
    };
    match parse_i64_text(qty.as_str()) {
        Some(q) => Some(
            DiscountRule { product_id: pid.clone(), percentage: pct.clone(), min_quantity: q },
        ),
        None => None,
    }
}

/// Reads the whole rule set out of a JSON document, exactly as
/// `rules_of_json` states it.
pub fn rules_from_json(j: &Json) -> (r: Option<Vec<DiscountRule>>)
    ensures
        match r {
            Some(rules) => rules_of_json(*j) == Some(rules.deep_view()),
            None => rules_of_json(*j) is None,
        },
{
    let items = match j {
        Json::Arr(items) => items,
        _ => {
            return None;
        },
    };
    let mut out: Vec<DiscountRule> = Vec::new();
    let mut i: usize = 0;
    proof {
        assert(items@.take(0) =~= Seq::<Json>::empty());
        assert(out.deep_view() =~= Seq::<RuleModel>::empty());
    }
    while i < items.len()
        invariant
            i <= items@.len(),
            rules_of_json(*j) == rules_of_seq(items@),
            rules_of_seq(items@.take(i as int)) == Some(out.deep_view()),
        decreases items@.len() - i,
    {
        match rule_from_json(&items[i]) {
            Some(rule) => {
                proof {
                    assert(items@.take(i + 1).drop_last() =~= items@.take(i as int));
                    assert(items@.take(i + 1).last() == items@[i as int]);
                }
                let ghost prev = out.deep_view();
                out.push(rule);
                proof {
                    assert(out.deep_view() =~= prev.push(rule.deep_view()));
                }
            },
            None => {
                proof {
                    lemma_rules_of_seq_bad(items@, i as int);
                }
                return None;
            },
        }
        i += 1;
    }
    proof {
        assert(items@.take(items@.len() as int) =~= items@);
    }
    Some(out)
}

/// The configuration loader: parses raw configuration text into the ordered
/// rule set, exactly as `rules_of_text` states it; `None` for text that is
/// not JSON or not an array of rule records.
pub fn parse_rules(config: &str) -> (r: Option<Vec<DiscountRule>>)
    ensures
        match r {
            Some(rules) => rules_of_text(config@) == Some(rules.deep_view()),
            None => rules_of_text(config@) is None,
        },
{
    match parse_json_text(config) {
        Some(j) => rules_from_json(&j),
        None => None,
    }
}

} // verus!
