use vstd::prelude::*;

verus! {

/// Number of establishment kinds in the catalog.
pub const CARD_KIND_COUNT: usize = 15;

/// The fifteen establishments, declared in catalog order.
///
/// The catalog order is alphabetical; every deck stores its stacks in this
/// order, so the position of a kind in a deck is `kind_index(kind)`.
#[derive(Clone, Copy, Debug, PartialEq, Eq, Structural, PartialOrd, Ord, Hash)]
pub enum CardKind {
    AppleOrchard,
    Bakery,
    BusinessCenter,
    Cafe,
    CheeseFactory,
    ConvenienceStore,
    FamilyRestaurant,
    Forest,
    FruitAndVegetableMarket,
    FurnitureFactory,
    Mine,
    Ranch,
    Stadium,
    TvStation,
    WheatField,
}

/// The class of an establishment, which is also its activation priority.
#[derive(Clone, Copy, Debug, PartialEq, Eq, Structural, PartialOrd, Ord, Hash)]
pub enum CardOrder {
    Restaurants,
    SecondaryIndustry,
    PrimaryIndustry,
    MajorEstablishments,
}

/// The icon printed on an establishment; combos count cards by icon.
#[derive(Clone, Copy, Debug, PartialEq, Eq, Structural, Hash)]
pub enum CardIcon {
    Wheat,
    Cow,
    Gear,
    Bread,
    Factory,
    Cup,
    Major,
    Fruit,
}

/// A number of copies of one establishment.
#[derive(Clone, Copy, Debug, PartialEq, Eq, Structural)]
pub struct CardStack {
    pub kind: CardKind,
    pub count: u8,
}

/// Position of a kind in the catalog order.
pub open spec fn kind_index(kind: CardKind) -> int {
    match kind {
        CardKind::AppleOrchard => 0,
        CardKind::Bakery => 1,
        CardKind::BusinessCenter => 2,
        CardKind::Cafe => 3,
        CardKind::CheeseFactory => 4,
        CardKind::ConvenienceStore => 5,
        CardKind::FamilyRestaurant => 6,
        CardKind::Forest => 7,
        CardKind::FruitAndVegetableMarket => 8,
        CardKind::FurnitureFactory => 9,
        CardKind::Mine => 10,
        CardKind::Ranch => 11,
        CardKind::Stadium => 12,
        CardKind::TvStation => 13,
        CardKind::WheatField => 14,
    }
}

/// The kind at a position of the catalog order.
pub open spec fn kind_at(i: int) -> CardKind {
    if i <= 0 {
        CardKind::AppleOrchard
    } else if i == 1 {
        CardKind::Bakery
    } else if i == 2 {
        CardKind::BusinessCenter
    } else if i == 3 {
        CardKind::Cafe
    } else if i == 4 {
        CardKind::CheeseFactory
    } else if i == 5 {
        CardKind::ConvenienceStore
    } else if i == 6 {
        CardKind::FamilyRestaurant
    } else if i == 7 {
        CardKind::Forest
    } else if i == 8 {
        CardKind::FruitAndVegetableMarket
    } else if i == 9 {
        CardKind::FurnitureFactory
    } else if i == 10 {
        CardKind::Mine
    } else if i == 11 {
        CardKind::Ranch
    } else if i == 12 {
        CardKind::Stadium
    } else if i == 13 {
        CardKind::TvStation
    } else {
        CardKind::WheatField
    }
}

/// `kind_at` and `kind_index` are inverse to each other.
pub proof fn lemma_kind_index_bijective()
    ensures
        forall|k: CardKind| #[trigger] kind_at(kind_index(k)) == k,
        forall|k: CardKind| 0 <= #[trigger] kind_index(k) < CARD_KIND_COUNT,
        forall|i: int| 0 <= i < CARD_KIND_COUNT ==> #[trigger] kind_index(kind_at(i)) == i,
{
}

pub open spec fn spec_cost(kind: CardKind) -> u8 {
    match kind {
        CardKind::WheatField | CardKind::Ranch | CardKind::Bakery => 1,
        CardKind::Cafe | CardKind::ConvenienceStore | CardKind::FruitAndVegetableMarket => 2,
        CardKind::Forest
        | CardKind::FurnitureFactory
        | CardKind::FamilyRestaurant
        | CardKind::AppleOrchard => 3,
        CardKind::CheeseFactory => 5,
        CardKind::Mine | CardKind::Stadium => 6,
        CardKind::TvStation => 7,
        CardKind::BusinessCenter => 8,
    }
}

pub open spec fn spec_order(kind: CardKind) -> CardOrder {
    match kind {
        CardKind::WheatField
        | CardKind::Ranch
        | CardKind::Forest
        | CardKind::Mine
        | CardKind::AppleOrchard => CardOrder::PrimaryIndustry,
        CardKind::Bakery
        | CardKind::ConvenienceStore
        | CardKind::CheeseFactory
        | CardKind::FurnitureFactory
        | CardKind::FruitAndVegetableMarket => CardOrder::SecondaryIndustry,
        CardKind::Cafe | CardKind::FamilyRestaurant => CardOrder::Restaurants,
        CardKind::Stadium | CardKind::TvStation | CardKind::BusinessCenter => {
            CardOrder::MajorEstablishments
        },
    }
}

/// Activation priority of a class: lower ranks resolve first.
pub open spec fn order_rank(order: CardOrder) -> int {
    match order {
        CardOrder::Restaurants => 0,
        CardOrder::SecondaryIndustry => 1,
        CardOrder::PrimaryIndustry => 2,
        CardOrder::MajorEstablishments => 3,
    }
}

pub open spec fn spec_icon(kind: CardKind) -> CardIcon {
    match kind {
        CardKind::AppleOrchard | CardKind::WheatField => CardIcon::Wheat,
        CardKind::Bakery | CardKind::ConvenienceStore => CardIcon::Bread,
        CardKind::Ranch => CardIcon::Cow,
        CardKind::Cafe | CardKind::FamilyRestaurant => CardIcon::Cup,
        CardKind::Forest | CardKind::Mine => CardIcon::Gear,
        CardKind::BusinessCenter | CardKind::Stadium | CardKind::TvStation => CardIcon::Major,
        CardKind::CheeseFactory | CardKind::FurnitureFactory => CardIcon::Factory,
        CardKind::FruitAndVegetableMarket => CardIcon::Fruit,
    }
}

/// Whether the dice total lies in the card's activation range.
pub open spec fn roll_matches(kind: CardKind, roll: int) -> bool {
    match kind {
        CardKind::WheatField => roll == 1,
        CardKind::Ranch => roll == 2,
        CardKind::Bakery => roll == 2 || roll == 3,
        CardKind::Cafe => roll == 3,
        CardKind::ConvenienceStore => roll == 4,
        CardKind::Forest => roll == 5,
        CardKind::Stadium | CardKind::TvStation | CardKind::BusinessCenter => roll == 6,
        CardKind::CheeseFactory => roll == 7,
        CardKind::FurnitureFactory => roll == 8,
        CardKind::Mine => roll == 9,
        CardKind::FamilyRestaurant => roll == 9 || roll == 10,
        CardKind::AppleOrchard => roll == 10,
        CardKind::FruitAndVegetableMarket => roll == 11 || roll == 12,
    }
}

/// Whether a card of this class may fire on the owner's own turn or on
/// someone else's.
pub open spec fn turn_allows(order: CardOrder, is_current_turn: bool) -> bool {
    match order {
        CardOrder::PrimaryIndustry => true,
        CardOrder::MajorEstablishments | CardOrder::SecondaryIndustry => is_current_turn,
        CardOrder::Restaurants => !is_current_turn,
    }
}

/// The activation predicate: a function of the kind, the roll and whether
/// the owner is the acting player, and of nothing else.
pub open spec fn activates(kind: CardKind, roll: int, is_current_turn: bool) -> bool {
    roll_matches(kind, roll) && turn_allows(spec_order(kind), is_current_turn)
}

pub open spec fn spec_order_title(order: CardOrder) -> Seq<char> {
    match order {
        CardOrder::MajorEstablishments => "Major Establishments"@,
        CardOrder::PrimaryIndustry => "Primary Industry"@,
        CardOrder::Restaurants => "Restaurants"@,
        CardOrder::SecondaryIndustry => "Secondary Industry"@,
    }
}

pub open spec fn spec_icon_title(icon: CardIcon) -> Seq<char> {
    match icon {
        CardIcon::Wheat => "Wheat"@,
        CardIcon::Bread => "Bread"@,
        CardIcon::Cow => "Cow"@,
        CardIcon::Cup => "Cup"@,
        CardIcon::Gear => "Gear"@,
        CardIcon::Major => "Major"@,
        CardIcon::Factory => "Factory"@,
        CardIcon::Fruit => "Fruit"@,
    }
}

pub open spec fn spec_title(kind: CardKind) -> Seq<char> {
    match kind {
        CardKind::WheatField => "Wheat Field"@,
        CardKind::Ranch => "Ranch"@,
        CardKind::Bakery => "Bakery"@,
        CardKind::Cafe => "Cafe"@,
        CardKind::ConvenienceStore => "Convenience Store"@,
        CardKind::Forest => "Forest"@,
        CardKind::Stadium => "Stadium"@,
        CardKind::TvStation => "TV Station"@,
        CardKind::BusinessCenter => "Business Center"@,
        CardKind::CheeseFactory => "Cheese Factory"@,
        CardKind::FurnitureFactory => "Furniture Factory"@,
        CardKind::Mine => "Mine"@,
        CardKind::FamilyRestaurant => "Family Restaurant"@,
        CardKind::AppleOrchard => "Apple Orchard"@,
        CardKind::FruitAndVegetableMarket => "Fruit and Vegetable Market"@,
    }
}

pub open spec fn spec_description(kind: CardKind) -> Seq<char> {
    match kind {
        CardKind::WheatField | CardKind::Ranch | CardKind::Forest => {
            "Get 1 coin from the bank, on anyone's turn."@
        },
        CardKind::Bakery => "Get 1 coin from the bank, on your turn only."@,
        CardKind::Cafe => "Get 1 coin from the player who rolled the dice."@,
        CardKind::ConvenienceStore => "Get 3 coins from the bank, on your turn only."@,
        CardKind::Stadium => "Get 2 coins from all players, on your turn only."@,
        CardKind::TvStation => "If this is your turn, take 5 coins from any one player."@,
        CardKind::BusinessCenter => {
            "If this is your turn, trade one non-Major establishment with another player."@
        },
        CardKind::CheeseFactory => {
            "If this is your turn, get 3 coins from the bank for each Cow establishment that you own."@
        },
        CardKind::FurnitureFactory => {
            "If this is your turn, get 3 coins from the bank for each Gear establishment that you own."@
        },
        CardKind::Mine => "Get 5 coins from the bank, on anyone's turn."@,
        CardKind::FamilyRestaurant => "Get 2 coins from the player who rolled the dice."@,
        CardKind::AppleOrchard => "Get 3 coins from the bank, on anyone's turn."@,
        CardKind::FruitAndVegetableMarket => {
            "If this is your turn, get 2 coins from the bank for each Wheat establishment that you own."@
        },
    }
}

pub open spec fn spec_activation_description(kind: CardKind) -> Seq<char> {
    match kind {
        CardKind::WheatField => "1"@,
        CardKind::Ranch => "2"@,
        CardKind::Bakery => "2-3"@,
        CardKind::Cafe => "3"@,
        CardKind::ConvenienceStore => "4"@,
        CardKind::Forest => "5"@,
        CardKind::Stadium | CardKind::TvStation | CardKind::BusinessCenter => "6"@,
        CardKind::CheeseFactory => "7"@,
        CardKind::FurnitureFactory => "8"@,
        CardKind::Mine => "9"@,
        CardKind::FamilyRestaurant => "9-10"@,
        CardKind::AppleOrchard => "10"@,
        CardKind::FruitAndVegetableMarket => "11-12"@,
    }
}

impl CardKind {
    /// Position of this kind in the catalog order.
    pub fn index(&self) -> (r: usize)
        ensures
            r as int == kind_index(*self),
            r < CARD_KIND_COUNT,
    {
        match self {
            CardKind::AppleOrchard => 0,
            CardKind::Bakery => 1,
            CardKind::BusinessCenter => 2,
            CardKind::Cafe => 3,
            CardKind::CheeseFactory => 4,
            CardKind::ConvenienceStore => 5,
            CardKind::FamilyRestaurant => 6,
            CardKind::Forest => 7,
            CardKind::FruitAndVegetableMarket => 8,
            CardKind::FurnitureFactory => 9,
            CardKind::Mine => 10,
            CardKind::Ranch => 11,
            CardKind::Stadium => 12,
            CardKind::TvStation => 13,
            CardKind::WheatField => 14,
        }
    }

    /// The kind at position `i` of the catalog order.
    pub fn at(i: usize) -> (r: CardKind)
        requires
            i < CARD_KIND_COUNT,
        ensures
            r == kind_at(i as int),
            kind_index(r) == i,
    {
        match i {
            0 => CardKind::AppleOrchard,
            1 => CardKind::Bakery,
            2 => CardKind::BusinessCenter,
            3 => CardKind::Cafe,
            4 => CardKind::CheeseFactory,
            5 => CardKind::ConvenienceStore,
            6 => CardKind::FamilyRestaurant,
            7 => CardKind::Forest,
            8 => CardKind::FruitAndVegetableMarket,
            9 => CardKind::FurnitureFactory,
            10 => CardKind::Mine,
            11 => CardKind::Ranch,
            12 => CardKind::Stadium,
            13 => CardKind::TvStation,
            _ => CardKind::WheatField,
        }
    }
}

/// All establishment kinds, in catalog order.
pub fn all_cards() -> (r: [CardKind; CARD_KIND_COUNT])
    ensures
        forall|i: int| 0 <= i < CARD_KIND_COUNT ==> #[trigger] r@[i] == kind_at(i),
{
    [
        CardKind::AppleOrchard,
        CardKind::Bakery,
        CardKind::BusinessCenter,
        CardKind::Cafe,
        CardKind::CheeseFactory,
        CardKind::ConvenienceStore,
        CardKind::FamilyRestaurant,
        CardKind::Forest,
        CardKind::FruitAndVegetableMarket,
        CardKind::FurnitureFactory,
        CardKind::Mine,
        CardKind::Ranch,
        CardKind::Stadium,
        CardKind::TvStation,
        CardKind::WheatField,
    ]
}

impl CardOrder {
    /// Activation priority of this class.
    pub fn rank(&self) -> (r: u8)
        ensures
            r as int == order_rank(*self),
    {
        match self {
            CardOrder::Restaurants => 0,
            CardOrder::SecondaryIndustry => 1,
            CardOrder::PrimaryIndustry => 2,
            CardOrder::MajorEstablishments => 3,
        }
    }
}

impl CardStack {
    pub fn test_activation(&self, roll: u8, is_current_turn: bool) -> (r: bool)
        ensures
            r == activates(self.kind, roll as int, is_current_turn),
    {
        let in_range = match self.kind {
            CardKind::WheatField => roll == 1,
            CardKind::Ranch => roll == 2,
            CardKind::Bakery => roll == 2 || roll == 3,
            CardKind::Cafe => roll == 3,
            CardKind::ConvenienceStore => roll == 4,
            CardKind::Forest => roll == 5,
            CardKind::Stadium | CardKind::TvStation | CardKind::BusinessCenter => roll == 6,
            CardKind::CheeseFactory => roll == 7,
            CardKind::FurnitureFactory => roll == 8,
            CardKind::Mine => roll == 9,
            CardKind::FamilyRestaurant => roll == 9 || roll == 10,
            CardKind::AppleOrchard => roll == 10,
            CardKind::FruitAndVegetableMarket => roll == 11 || roll == 12,
        };
        in_range && match self.get_order() {
            CardOrder::PrimaryIndustry => true,
            CardOrder::MajorEstablishments | CardOrder::SecondaryIndustry => is_current_turn,
            CardOrder::Restaurants => !is_current_turn,
        }
    }

    pub fn get_cost(&self) -> (r: u8)
        ensures
            r == spec_cost(self.kind),
    {
        match self.kind {
            CardKind::WheatField | CardKind::Ranch | CardKind::Bakery => 1,
            CardKind::Cafe | CardKind::ConvenienceStore | CardKind::FruitAndVegetableMarket => 2,
            CardKind::Forest
            | CardKind::FurnitureFactory
            | CardKind::FamilyRestaurant
            | CardKind::AppleOrchard => 3,
            CardKind::CheeseFactory => 5,
            CardKind::Mine | CardKind::Stadium => 6,
            CardKind::TvStation => 7,
            CardKind::BusinessCenter => 8,
        }
    }

    pub fn get_order(&self) -> (r: CardOrder)
        ensures
            r == spec_order(self.kind),
    {
        match self.kind {
            CardKind::WheatField
            | CardKind::Ranch
            | CardKind::Forest
            | CardKind::Mine
            | CardKind::AppleOrchard => CardOrder::PrimaryIndustry,
            CardKind::Bakery
            | CardKind::ConvenienceStore
            | CardKind::CheeseFactory
            | CardKind::FurnitureFactory
            | CardKind::FruitAndVegetableMarket => CardOrder::SecondaryIndustry,
            CardKind::Cafe | CardKind::FamilyRestaurant => CardOrder::Restaurants,
            CardKind::Stadium | CardKind::TvStation | CardKind::BusinessCenter => {
                CardOrder::MajorEstablishments
            },
        }
    }

    pub fn get_order_title(&self) -> (r: &'static str)
        ensures
            r@ == spec_order_title(spec_order(self.kind)),
    {
        match self.get_order() {
            CardOrder::MajorEstablishments => "Major Establishments",
            CardOrder::PrimaryIndustry => "Primary Industry",
            CardOrder::Restaurants => "Restaurants",
            CardOrder::SecondaryIndustry => "Secondary Industry",
        }
    }

    pub fn get_icon(&self) -> (r: CardIcon)
        ensures
            r == spec_icon(self.kind),
    {
        match self.kind {
            CardKind::AppleOrchard | CardKind::WheatField => CardIcon::Wheat,
            CardKind::Bakery | CardKind::ConvenienceStore => CardIcon::Bread,
            CardKind::Ranch => CardIcon::Cow,
            CardKind::Cafe | CardKind::FamilyRestaurant => CardIcon::Cup,
            CardKind::Forest | CardKind::Mine => CardIcon::Gear,
            CardKind::BusinessCenter | CardKind::Stadium | CardKind::TvStation => CardIcon::Major,
            CardKind::CheeseFactory | CardKind::FurnitureFactory => CardIcon::Factory,
            CardKind::FruitAndVegetableMarket => CardIcon::Fruit,
        }
    }

    pub fn get_icon_title(&self) -> (r: &'static str)
        ensures
            r@ == spec_icon_title(spec_icon(self.kind)),
    {
        match self.get_icon() {
            CardIcon::Wheat => "Wheat",
            CardIcon::Bread => "Bread",
            CardIcon::Cow => "Cow",
            CardIcon::Cup => "Cup",
            CardIcon::Gear => "Gear",
            CardIcon::Major => "Major",
            CardIcon::Factory => "Factory",
            CardIcon::Fruit => "Fruit",
        }
    }

    pub fn get_title(&self) -> (r: &'static str)
        ensures
            r@ == spec_title(self.kind),
    {
        match self.kind {
            CardKind::WheatField => "Wheat Field",
            CardKind::Ranch => "Ranch",
            CardKind::Bakery => "Bakery",
            CardKind::Cafe => "Cafe",
            CardKind::ConvenienceStore => "Convenience Store",
            CardKind::Forest => "Forest",
            CardKind::Stadium => "Stadium",
            CardKind::TvStation => "TV Station",
            CardKind::BusinessCenter => "Business Center",
            CardKind::CheeseFactory => "Cheese Factory",
            CardKind::FurnitureFactory => "Furniture Factory",
            CardKind::Mine => "Mine",
            CardKind::FamilyRestaurant => "Family Restaurant",
            CardKind::AppleOrchard => "Apple Orchard",
            CardKind::FruitAndVegetableMarket => "Fruit and Vegetable Market",
        }
    }

    pub fn get_description(&self) -> (r: &'static str)
        ensures
            r@ == spec_description(self.kind),
    {
        match self.kind {
            CardKind::WheatField | CardKind::Ranch | CardKind::Forest => {
                "Get 1 coin from the bank, on anyone's turn."
            },
            CardKind::Bakery => "Get 1 coin from the bank, on your turn only.",
            CardKind::Cafe => "Get 1 coin from the player who rolled the dice.",
            CardKind::ConvenienceStore => "Get 3 coins from the bank, on your turn only.",
            CardKind::Stadium => "Get 2 coins from all players, on your turn only.",
            CardKind::TvStation => "If this is your turn, take 5 coins from any one player.",
            CardKind::BusinessCenter => {
                "If this is your turn, trade one non-Major establishment with another player."
            },
            CardKind::CheeseFactory => {
                "If this is your turn, get 3 coins from the bank for each Cow establishment that you own."
            },
            CardKind::FurnitureFactory => {
                "If this is your turn, get 3 coins from the bank for each Gear establishment that you own."
            },
            CardKind::Mine => "Get 5 coins from the bank, on anyone's turn.",
            CardKind::FamilyRestaurant => "Get 2 coins from the player who rolled the dice.",
            CardKind::AppleOrchard => "Get 3 coins from the bank, on anyone's turn.",
            CardKind::FruitAndVegetableMarket => {
                "If this is your turn, get 2 coins from the bank for each Wheat establishment that you own."
            },
        }
    }

    pub fn get_activation_description(&self) -> (r: &'static str)
        ensures
            r@ == spec_activation_description(self.kind),
    {
        match self.kind {
            CardKind::WheatField => "1",
            CardKind::Ranch => "2",
            CardKind::Bakery => "2-3",
            CardKind::Cafe => "3",
            CardKind::ConvenienceStore => "4",
            CardKind::Forest => "5",
            CardKind::Stadium | CardKind::TvStation | CardKind::BusinessCenter => "6",
            CardKind::CheeseFactory => "7",
            CardKind::FurnitureFactory => "8",
            CardKind::Mine => "9",
            CardKind::FamilyRestaurant => "9-10",
            CardKind::AppleOrchard => "10",
            CardKind::FruitAndVegetableMarket => "11-12",
        }
    }
}

} // verus!
