//! The scoring-table side of the service, as far as it makes decisions: the
//! gender and category enumerations and the request checks of the points
//! endpoints. The table rows themselves carry floating-point marks and stay
//! with the HTTP layer.
use vstd::prelude::*;

verus! {

/// An athlete's gender, as the scoring tables key it.
#[derive(Clone, Copy, PartialEq, Eq, Structural, Debug)]
pub enum Gender {
    Male,
    Female,
}

/// An event category, as the scoring tables key it.
#[derive(Clone, Copy, PartialEq, Eq, Structural, Debug)]
pub enum Category {
    Indoor,
    Outdoor,
}

impl Gender {
    /// The text the tables and routes use for this gender.
    pub fn label(&self) -> (r: String)
        ensures
            match *self {
                Gender::Male => r@ == ("Male")@,
                Gender::Female => r@ == ("Female")@,
            },
    {
        match self {
            Gender::Male => "Male".to_owned(),
            Gender::Female => "Female".to_owned(),
        }
    }
}

impl Category {
    /// The text the tables and routes use for this category.
    pub fn label(&self) -> (r: String)
        ensures
            match *self {
                Category::Indoor => r@ == ("Indoor")@,
                Category::Outdoor => r@ == ("Outdoor")@,
            },
    {
        match self {
            Category::Indoor => "Indoor".to_owned(),
            Category::Outdoor => "Outdoor".to_owned(),
        }
    }
}

/// A points search must give exactly one of a mark or a points value:
/// both or neither is a bad request.
pub fn points_search_params_valid(has_points: bool, has_mark: bool) -> (r: bool)
    ensures
        r == (has_points != has_mark),
{
    has_points != has_mark
}

/// The user-points routes reject the unused zero id.
pub fn points_path_user_valid(user_id: i32) -> (r: bool)
    ensures
        r == (user_id != 0),
{
    user_id != 0
}

/// Whether the points table is still small enough to be seeded again: the
/// bulk import is skipped once it holds more rows than one full table load.
pub fn points_table_needs_seed(count: i64) -> (r: bool)
    ensures
        r == (count <= 200000),
{
    count <= 200000
}

} // verus!
