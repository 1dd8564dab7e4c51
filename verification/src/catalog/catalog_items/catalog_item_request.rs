//! the catalog item command request

use crate::catalog::catalog_items::availability_status::AvailabilityStatus;
use crate::catalog::catalog_items::category::Category;
use crate::catalog::catalog_items::delivery_date::DeliveryDate;
use crate::catalog::catalog_items::epoch::Epoch;
use crate::catalog::catalog_items::item_number::ItemNumber;
use crate::catalog::catalog_items::power_method::PowerMethod;
use crate::catalog::catalog_items::rolling_stock_request::RollingStockRequest;
use crate::common::localized_text::LocalizedText;
use crate::common::validation::{check_lengths, error_entries, rule_views, rules_checked, rules_hold, LengthRule};
use validator::ValidationErrors;
use vstd::prelude::*;

verus! {

/// A request to create/update catalog items
#[derive(Clone, Debug, PartialEq)]
pub struct CatalogItemRequest {
    /// the manufacturer
    pub manufacturer: String,
    /// the item number
    pub item_number: ItemNumber,
    /// the scale
    pub scale: String,
    /// the category
    pub category: Category,
    /// the power method
    pub power_method: PowerMethod,
    /// the epoch
    pub epoch: Epoch,
    /// the catalog item description
    pub description: LocalizedText,
    /// the catalog item details
    pub details: LocalizedText,
    /// the delivery date
    pub delivery_date: Option<DeliveryDate>,
    /// the availability status
    pub availability_status: Option<AvailabilityStatus>,
    /// the rolling stocks included in this catalog item
    pub rolling_stocks: Vec<RollingStockRequest>,
    /// the number of rolling stocks for this catalog item
    pub count: i32,
}

/// The length rules of a catalog item request: the manufacturer from 3 to 50 characters,
/// the item number from 1 to 25, the scale from 1 to 50.
pub open spec fn request_length_rules(r: CatalogItemRequest) -> Seq<(Seq<char>, Option<Seq<char>>, Option<u64>, Option<u64>)> {
    seq![
        ("manufacturer"@, Some(r.manufacturer@), Some(3u64), Some(50u64)),
        ("item_number"@, Some(r.item_number@), Some(1u64), Some(25u64)),
        ("scale"@, Some(r.scale@), Some(1u64), Some(50u64)),
    ]
}

impl CatalogItemRequest {
    /// Checks the length rules of the request (see `request_length_rules`): `Ok` where all
    /// hold, else a `length` error for each field that breaks its rule, and for no other
    /// field. The count, the texts and the rolling stocks are not checked here.
    pub fn validate_lengths(&self) -> (r: Result<(), ValidationErrors>)
        ensures
            r is Ok <==> rules_hold(request_length_rules(*self)),
            r matches Err(es) ==> rules_checked(error_entries(es), request_length_rules(*self)),
    {
        let mut rules: Vec<LengthRule> = Vec::new();
        rules.push(LengthRule { field: "manufacturer", value: Some(&self.manufacturer), min: Some(3), max: Some(50) });
        rules.push(LengthRule { field: "item_number", value: Some(self.item_number.as_string()), min: Some(1), max: Some(25) });
        rules.push(LengthRule { field: "scale", value: Some(&self.scale), min: Some(1), max: Some(50) });
        assert(rule_views(rules@) =~= request_length_rules(*self));
        proof {
            reveal_strlit("manufacturer");
            reveal_strlit("item_number");
            reveal_strlit("scale");
            let rs = request_length_rules(*self);
            assert forall|i: int, j: int| 0 <= i < j < rs.len() implies (#[trigger] rs[i]).0 != (#[trigger] rs[j]).0 by {
                assert(rs[i].0.len() != rs[j].0.len());
            }
        }
        check_lengths(&rules)
    }
}

} // verus!
