use vstd::prelude::*;

verus! {

/// Number of landmarks; owning all of them wins the game.
pub const LANDMARK_KIND_COUNT: usize = 4;

#[derive(Clone, Copy, Debug, PartialEq, Eq, Structural, Hash)]
pub enum LandmarkKind {
    TrainStation,
    ShoppingMall,
    AmusementPark,
    RadioTower,
}

/// Position of a landmark in the catalog order.
pub open spec fn landmark_index(landmark: LandmarkKind) -> int {
    match landmark {
        LandmarkKind::TrainStation => 0,
        LandmarkKind::ShoppingMall => 1,
        LandmarkKind::AmusementPark => 2,
        LandmarkKind::RadioTower => 3,
    }
}

/// The landmark at a position of the catalog order.
pub open spec fn landmark_at(i: int) -> LandmarkKind {
    if i <= 0 {
        LandmarkKind::TrainStation
    } else if i == 1 {
        LandmarkKind::ShoppingMall
    } else if i == 2 {
        LandmarkKind::AmusementPark
    } else {
        LandmarkKind::RadioTower
    }
}

pub open spec fn spec_landmark_cost(landmark: LandmarkKind) -> u8 {
    match landmark {
        LandmarkKind::TrainStation => 4,
        LandmarkKind::ShoppingMall => 10,
        LandmarkKind::AmusementPark => 16,
        LandmarkKind::RadioTower => 22,
    }
}

pub open spec fn spec_landmark_title(landmark: LandmarkKind) -> Seq<char> {
    match landmark {
        LandmarkKind::TrainStation => "Train Station"@,
        LandmarkKind::ShoppingMall => "Shopping Mall"@,
        LandmarkKind::AmusementPark => "Amusement Park"@,
        LandmarkKind::RadioTower => "Radio Tower"@,
    }
}

pub open spec fn spec_landmark_description(landmark: LandmarkKind) -> Seq<char> {
    match landmark {
        LandmarkKind::TrainStation => "You may roll 1 or 2 dice."@,
        LandmarkKind::ShoppingMall => "Each of your Cup and Bread establishments earn +1 coin."@,
        LandmarkKind::AmusementPark => "If you roll doubles, take another turn after this one."@,
        LandmarkKind::RadioTower => "Once every turn, you can choose to re-roll your dice."@,
    }
}

/// The landmark at position `i` of the catalog order.
pub fn landmark_kind_at(i: usize) -> (r: LandmarkKind)
    requires
        i < LANDMARK_KIND_COUNT,
    ensures
        r == landmark_at(i as int),
        landmark_index(r) == i,
{
    match i {
        0 => LandmarkKind::TrainStation,
        1 => LandmarkKind::ShoppingMall,
        2 => LandmarkKind::AmusementPark,
        _ => LandmarkKind::RadioTower,
    }
}

/// All landmarks, in catalog order.
pub fn all_landmarks() -> (r: [LandmarkKind; LANDMARK_KIND_COUNT])
    ensures
        forall|i: int| 0 <= i < LANDMARK_KIND_COUNT ==> #[trigger] r@[i] == landmark_at(i),
{
    [
        LandmarkKind::TrainStation,
        LandmarkKind::ShoppingMall,
        LandmarkKind::AmusementPark,
        LandmarkKind::RadioTower,
    ]
}

pub fn get_landmark_cost(landmark: &LandmarkKind) -> (r: u8)
    ensures
        r == spec_landmark_cost(*landmark),
{
    match landmark {
        LandmarkKind::TrainStation => 4,
        LandmarkKind::ShoppingMall => 10,
        LandmarkKind::AmusementPark => 16,
        LandmarkKind::RadioTower => 22,
    }
}

pub fn get_landmark_title(landmark: &LandmarkKind) -> (r: &'static str)
    ensures
        r@ == spec_landmark_title(*landmark),
{
    match landmark {
        LandmarkKind::TrainStation => "Train Station",
        LandmarkKind::ShoppingMall => "Shopping Mall",
        LandmarkKind::AmusementPark => "Amusement Park",
        LandmarkKind::RadioTower => "Radio Tower",
    }
}

pub fn get_landmark_description(landmark: &LandmarkKind) -> (r: &'static str)
    ensures
        r@ == spec_landmark_description(*landmark),
{
    match landmark {
        LandmarkKind::TrainStation => "You may roll 1 or 2 dice.",
        LandmarkKind::ShoppingMall => "Each of your Cup and Bread establishments earn +1 coin.",
        LandmarkKind::AmusementPark => "If you roll doubles, take another turn after this one.",
        LandmarkKind::RadioTower => "Once every turn, you can choose to re-roll your dice.",
    }
}

} // verus!
