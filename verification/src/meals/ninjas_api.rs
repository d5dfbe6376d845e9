//! The nutrition lookup: what the nutrition service answers for a name, and
//! how its answer becomes one record.

use vstd::prelude::*;
use crate::errors::ApiError;
use crate::meals::models::{NewDish, NewDishView};

verus! {

/// The nutrition facts of one food, as the nutrition service reports them.
/// Every amount is in thousandths of the unit that its field names.
#[derive(Debug, PartialEq, Eq)]
pub struct NutritionInfo {
    pub name: String,
    pub calories: i64,
    pub serving_size_g: i64,
    pub fat_total_g: i64,
    pub fat_saturated_g: i64,
    pub protein_g: i64,
    pub sodium_mg: i64,
    pub potassium_mg: i64,
    pub cholesterol_mg: i64,
    pub carbohydrates_total_g: i64,
    pub fiber_g: i64,
    pub sugar_g: i64,
}

/// The mathematical value of a [`NutritionInfo`].
pub struct NutritionInfoView {
    pub name: Seq<char>,
    pub calories: i64,
    pub serving_size_g: i64,
    pub fat_total_g: i64,
    pub fat_saturated_g: i64,
    pub protein_g: i64,
    pub sodium_mg: i64,
    pub potassium_mg: i64,
    pub cholesterol_mg: i64,
    pub carbohydrates_total_g: i64,
    pub fiber_g: i64,
    pub sugar_g: i64,
}

impl View for NutritionInfo {
    type V = NutritionInfoView;

    open spec fn view(&self) -> NutritionInfoView {
        NutritionInfoView {
            name: self.name@,
            calories: self.calories,
            serving_size_g: self.serving_size_g,
            fat_total_g: self.fat_total_g,
            fat_saturated_g: self.fat_saturated_g,
            protein_g: self.protein_g,
            sodium_mg: self.sodium_mg,
            potassium_mg: self.potassium_mg,
            cholesterol_mg: self.cholesterol_mg,
            carbohydrates_total_g: self.carbohydrates_total_g,
            fiber_g: self.fiber_g,
            sugar_g: self.sugar_g,
        }
    }
}

impl Clone for NutritionInfo {
    fn clone(&self) -> (res: Self)
        ensures
            res@ == self@,
    {
        NutritionInfo {
            name: self.name.clone(),
            calories: self.calories,
            serving_size_g: self.serving_size_g,
            fat_total_g: self.fat_total_g,
            fat_saturated_g: self.fat_saturated_g,
            protein_g: self.protein_g,
            sodium_mg: self.sodium_mg,
            potassium_mg: self.potassium_mg,
            cholesterol_mg: self.cholesterol_mg,
            carbohydrates_total_g: self.carbohydrates_total_g,
            fiber_g: self.fiber_g,
            sugar_g: self.sugar_g,
        }
    }
}

impl Default for NutritionInfo {
    fn default() -> (res: Self)
        ensures
            res@ == aggregate_of(Seq::<char>::empty(), Seq::<NutritionInfoView>::empty()),
    {
        NutritionInfo {
            name: String::new(),
            calories: 0,
            serving_size_g: 0,
            fat_total_g: 0,
            fat_saturated_g: 0,
            protein_g: 0,
            sodium_mg: 0,
            potassium_mg: 0,
            cholesterol_mg: 0,
            carbohydrates_total_g: 0,
            fiber_g: 0,
            sugar_g: 0,
        }
    }
}

/// The amounts that a [`NutritionInfo`] holds.
#[derive(Clone, Copy, Debug, PartialEq, Eq, Structural)]
pub enum Nutrient {
    Calories,
    ServingSize,
    FatTotal,
    FatSaturated,
    Protein,
    Sodium,
    Potassium,
    Cholesterol,
    Carbohydrates,
    Fiber,
    Sugar,
}

impl NutritionInfoView {
    /// The amount of one nutrient.
    pub open spec fn amount(self, nutrient: Nutrient) -> i64 {
        match nutrient {
            Nutrient::Calories => self.calories,
            Nutrient::ServingSize => self.serving_size_g,
            Nutrient::FatTotal => self.fat_total_g,
            Nutrient::FatSaturated => self.fat_saturated_g,
            Nutrient::Protein => self.protein_g,
            Nutrient::Sodium => self.sodium_mg,
            Nutrient::Potassium => self.potassium_mg,
            Nutrient::Cholesterol => self.cholesterol_mg,
            Nutrient::Carbohydrates => self.carbohydrates_total_g,
            Nutrient::Fiber => self.fiber_g,
            Nutrient::Sugar => self.sugar_g,
        }
    }
}

impl NutritionInfo {
    /// The amount of one nutrient.
    pub fn amount(&self, nutrient: Nutrient) -> (amount: i64)
        ensures
            amount == self@.amount(nutrient),
    {
        match nutrient {
            Nutrient::Calories => self.calories,
            Nutrient::ServingSize => self.serving_size_g,
            Nutrient::FatTotal => self.fat_total_g,
            Nutrient::FatSaturated => self.fat_saturated_g,
            Nutrient::Protein => self.protein_g,
            Nutrient::Sodium => self.sodium_mg,
            Nutrient::Potassium => self.potassium_mg,
            Nutrient::Cholesterol => self.cholesterol_mg,
            Nutrient::Carbohydrates => self.carbohydrates_total_g,
            Nutrient::Fiber => self.fiber_g,
            Nutrient::Sugar => self.sugar_g,
        }
    }
}

/// The views of the records of a list.
pub open spec fn infos_view(records: Seq<NutritionInfo>) -> Seq<NutritionInfoView> {
    records.map_values(|r: NutritionInfo| r@)
}

/// The sum of one nutrient over all the records, as a mathematical integer.
pub open spec fn total(records: Seq<NutritionInfoView>, nutrient: Nutrient) -> int
    decreases records.len(),
{
    if records.len() == 0 {
        0
    } else {
        total(records.drop_last(), nutrient) + records.last().amount(nutrient)
    }
}

/// The amount nearest to `v` that a record can hold.
pub open spec fn clamp(v: int) -> i64 {
    if v > i64::MAX {
        i64::MAX
    } else if v < i64::MIN {
        i64::MIN
    } else {
        v as i64
    }
}

/// The one record that stands for all the matches of a name: it carries the
/// name that was asked for, and each of its amounts is the sum of that amount
/// over all the matches, held to the range of an amount.
pub open spec fn aggregate_of(
    name: Seq<char>,
    records: Seq<NutritionInfoView>,
) -> NutritionInfoView {
    NutritionInfoView {
        name,
        calories: clamp(total(records, Nutrient::Calories)),
        serving_size_g: clamp(total(records, Nutrient::ServingSize)),
        fat_total_g: clamp(total(records, Nutrient::FatTotal)),
        fat_saturated_g: clamp(total(records, Nutrient::FatSaturated)),
        protein_g: clamp(total(records, Nutrient::Protein)),
        sodium_mg: clamp(total(records, Nutrient::Sodium)),
        potassium_mg: clamp(total(records, Nutrient::Potassium)),
        cholesterol_mg: clamp(total(records, Nutrient::Cholesterol)),
        carbohydrates_total_g: clamp(total(records, Nutrient::Carbohydrates)),
        fiber_g: clamp(total(records, Nutrient::Fiber)),
        sugar_g: clamp(total(records, Nutrient::Sugar)),
    }
}

/// The sum over a list stays within the bounds that the number of its
/// records allows.
pub proof fn lemma_total_bounds(records: Seq<NutritionInfoView>, nutrient: Nutrient)
    ensures
        records.len() * i64::MIN <= total(records, nutrient) <= records.len() * i64::MAX,
    decreases records.len(),
{
    if records.len() > 0 {
        lemma_total_bounds(records.drop_last(), nutrient);
    }
}

/// The sum of one nutrient over all the records, held to the range of an amount.
pub fn total_of(records: &Vec<NutritionInfo>, nutrient: Nutrient) -> (sum: i64)
    ensures
        sum == clamp(total(infos_view(records@), nutrient)),
{
    let ghost all = infos_view(records@);
    let mut acc: i128 = 0;
    let mut i: usize = 0;
    while i < records.len()
        invariant
            i <= records.len(),
            all == infos_view(records@),
            acc == total(all.take(i as int), nutrient),
        decreases records.len() - i,
    {
        let amount: i64 = records[i].amount(nutrient);
        proof {
            let next = all.take(i + 1);
            assert(next.drop_last() =~= all.take(i as int));
            assert(next.last() == records@[i as int]@);
            lemma_total_bounds(all.take(i as int), nutrient);
        }
        acc = acc + amount as i128;
        i += 1;
    }
    assert(all.take(i as int) =~= all);
    if acc > i64::MAX as i128 {
        i64::MAX
    } else if acc < i64::MIN as i128 {
        i64::MIN
    } else {
        acc as i64
    }
}

/// Sums the matches of a name into one record that carries that name.
pub fn aggregate(dish_name: &str, records: &Vec<NutritionInfo>) -> (sum: NutritionInfo)
    ensures
        sum@ == aggregate_of(dish_name@, infos_view(records@)),
{
    NutritionInfo {
        name: dish_name.to_owned(),
        calories: total_of(records, Nutrient::Calories),
        serving_size_g: total_of(records, Nutrient::ServingSize),
        fat_total_g: total_of(records, Nutrient::FatTotal),
        fat_saturated_g: total_of(records, Nutrient::FatSaturated),
        protein_g: total_of(records, Nutrient::Protein),
        sodium_mg: total_of(records, Nutrient::Sodium),
        potassium_mg: total_of(records, Nutrient::Potassium),
        cholesterol_mg: total_of(records, Nutrient::Cholesterol),
        carbohydrates_total_g: total_of(records, Nutrient::Carbohydrates),
        fiber_g: total_of(records, Nutrient::Fiber),
        sugar_g: total_of(records, Nutrient::Sugar),
    }
}

/// What came of asking the nutrition service for a name.
#[derive(Debug, PartialEq, Eq)]
pub enum LookupResponse {
    /// The request did not get through.
    Unreachable,
    /// The service answered with this status; `records` holds the matches
    /// where the body could be read as a list of them.
    Answered { status: u16, records: Option<Vec<NutritionInfo>> },
}

/// The mathematical value of a [`LookupResponse`].
pub enum LookupResponseView {
    Unreachable,
    Answered { status: u16, records: Option<Seq<NutritionInfoView>> },
}

impl View for LookupResponse {
    type V = LookupResponseView;

    open spec fn view(&self) -> LookupResponseView {
        match self {
            LookupResponse::Unreachable => LookupResponseView::Unreachable,
            LookupResponse::Answered { status, records } => LookupResponseView::Answered {
                status: *status,
                records: match records {
                    Some(v) => Some(infos_view(v@)),
                    None => None,
                },
            },
        }
    }
}

/// A copy of a list of records.
pub fn copy_records(records: &Vec<NutritionInfo>) -> (copy: Vec<NutritionInfo>)
    ensures
        infos_view(copy@) == infos_view(records@),
{
    let mut copy: Vec<NutritionInfo> = Vec::new();
    let mut i: usize = 0;
    while i < records.len()
        invariant
            i <= records.len(),
            infos_view(copy@) =~= infos_view(records@).take(i as int),
        decreases records.len() - i,
    {
        let ghost before = infos_view(copy@);
        copy.push(records[i].clone());
        assert(infos_view(copy@) =~= before.push(records@[i as int]@));
        i += 1;
    }
    assert(infos_view(records@).take(i as int) =~= infos_view(records@));
    copy
}

impl Clone for LookupResponse {
    fn clone(&self) -> (res: Self)
        ensures
            res@ == self@,
    {
        match self {
            LookupResponse::Unreachable => LookupResponse::Unreachable,
            LookupResponse::Answered { status, records } => LookupResponse::Answered {
                status: *status,
                records: match records {
                    Some(list) => Some(copy_records(list)),
                    None => None,
                },
            },
        }
    }
}

/// Whether an HTTP status reports success.
pub open spec fn is_success(status: u16) -> bool {
    200 <= status <= 299
}

/// What a lookup comes to. A service that cannot be reached, a status other
/// than success and a body that cannot be read all mean that the service is
/// unavailable; an empty list means that the name is not recognized; any
/// other list is summed into one record.
pub open spec fn resolve(name: Seq<char>, response: LookupResponseView) -> Result<
    NutritionInfoView,
    ApiError,
> {
    match response {
        LookupResponseView::Answered { status, records: Some(records) } if is_success(status) => {
            if records.len() == 0 {
                Err(ApiError::ExternalLookupNotFound)
            } else {
                Ok(aggregate_of(name, records))
            }
        },
        _ => Err(ApiError::ExternalLookupUnavailable),
    }
}

/// Tells whether an HTTP status reports success.
pub fn status_is_success(status: u16) -> (ok: bool)
    ensures
        ok == is_success(status),
{
    200 <= status && status <= 299
}

/// Turns the answer of the nutrition service for `dish_name` into the one
/// record of that dish, or into the error that says why there is none.
pub fn get_nutrition_info(dish_name: &str, response: LookupResponse) -> (r: Result<
    NutritionInfo,
    ApiError,
>)
    ensures
        match resolve(dish_name@, response@) {
            Ok(info) => r matches Ok(given) && given@ == info,
            Err(e) => r matches Err(given) && given == e,
        },
{
    match response {
        LookupResponse::Answered { status, records: Some(records) } => {
            if !status_is_success(status) {
                Err(ApiError::ExternalLookupUnavailable)
            } else if records.len() == 0 {
                Err(ApiError::ExternalLookupNotFound)
            } else {
                Ok(aggregate(dish_name, &records))
            }
        },
        _ => Err(ApiError::ExternalLookupUnavailable),
    }
}

/// The dish that a record of nutrition facts describes.
pub open spec fn dish_of(info: NutritionInfoView) -> NewDishView {
    NewDishView {
        name: info.name,
        cal: info.calories,
        sodium: info.sodium_mg,
        sugar: info.sugar_g,
        size: info.serving_size_g,
    }
}

impl NutritionInfo {
    /// The dish that the record describes: its name, calories, sodium, sugar
    /// and serving size.
    pub fn into_dish(self) -> (dish: NewDish)
        ensures
            dish@ == dish_of(self@),
    {
        NewDish {
            name: self.name,
            cal: self.calories,
            sodium: self.sodium_mg,
            sugar: self.sugar_g,
            size: self.serving_size_g,
        }
    }
}

} // verus!
