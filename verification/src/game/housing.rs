//! Housing: what a home costs each month, and what it costs to move in.

use crate::amount::{unit, Amount};
use vstd::prelude::*;

verus! {

/// The fixed cost of a move, beside the deposit: 1,500.
pub const MOVING_FEE: i64 = 1500;

/// The kind of a home.
#[derive(Debug, Clone, Copy, PartialEq, Eq, Structural)]
pub enum HousingType {
    /// A room in a shared flat.
    Shared,
    /// A flat of one room.
    Studio,
    /// A flat with one bedroom.
    OneBedroom,
    /// A flat with two bedrooms.
    TwoBedroom,
    /// A flat with three bedrooms, or a small house.
    ThreeBedroom,
    /// A large house.
    House,
}

impl HousingType {
    /// The name of the kind as it is shown.
    pub open spec fn title(self) -> Seq<char> {
        match self {
            HousingType::Shared => "Shared Apartment"@,
            HousingType::Studio => "Studio"@,
            HousingType::OneBedroom => "1 Bedroom"@,
            HousingType::TwoBedroom => "2 Bedroom"@,
            HousingType::ThreeBedroom => "3 Bedroom"@,
            HousingType::House => "House"@,
        }
    }

    /// The name of the kind as it is shown.
    pub fn name(&self) -> (r: &'static str)
        ensures
            r@ == self.title(),
    {
        match self {
            HousingType::Shared => "Shared Apartment",
            HousingType::Studio => "Studio",
            HousingType::OneBedroom => "1 Bedroom",
            HousingType::TwoBedroom => "2 Bedroom",
            HousingType::ThreeBedroom => "3 Bedroom",
            HousingType::House => "House",
        }
    }
}

/// How good the location of a home is.
#[derive(Debug, Clone, Copy, PartialEq, Eq, Structural)]
pub enum LocationQuality {
    /// Far out, with poor transport.
    Poor,
    /// Acceptable.
    Average,
    /// Well placed, with good amenities.
    Good,
    /// In the centre.
    Premium,
}

impl LocationQuality {
    /// The name of the quality as it is shown.
    pub open spec fn title(self) -> Seq<char> {
        match self {
            LocationQuality::Poor => "Outskirts"@,
            LocationQuality::Average => "Suburbs"@,
            LocationQuality::Good => "Good Area"@,
            LocationQuality::Premium => "City Center"@,
        }
    }

    /// What living there adds to happiness each month.
    pub open spec fn monthly_happiness(self) -> int {
        match self {
            LocationQuality::Poor => -2,
            LocationQuality::Average => 0,
            LocationQuality::Good => 1,
            LocationQuality::Premium => 2,
        }
    }

    /// The name of the quality as it is shown.
    pub fn name(&self) -> (r: &'static str)
        ensures
            r@ == self.title(),
    {
        match self {
            LocationQuality::Poor => "Outskirts",
            LocationQuality::Average => "Suburbs",
            LocationQuality::Good => "Good Area",
            LocationQuality::Premium => "City Center",
        }
    }

    /// What living there adds to happiness each month.
    pub fn happiness_impact(&self) -> (r: i8)
        ensures
            r == self.monthly_happiness(),
    {
        match self {
            LocationQuality::Poor => -2,
            LocationQuality::Average => 0,
            LocationQuality::Good => 1,
            LocationQuality::Premium => 2,
        }
    }
}

/// A home to rent.
#[derive(Debug, Clone, PartialEq)]
pub struct Housing {
    /// The identifier of the home.
    pub id: String,
    /// The kind of the home.
    pub housing_type: HousingType,
    /// How good its location is.
    pub location: LocationQuality,
    /// Where it is.
    pub address: String,
    /// The monthly rent.
    pub monthly_cost: Amount,
    /// The monthly utilities.
    pub monthly_utilities: Amount,
}

impl Housing {
    /// The view of the cost of moving in: a deposit of two months' rent and the moving fee.
    pub open spec fn moving_total(self) -> int {
        self.monthly_cost@ * 2 + MOVING_FEE * unit()
    }

    /// The cost of moving in, digit for digit.
    pub open spec fn moving_amount(self) -> Amount {
        self.monthly_cost.product_of(Amount::whole(2)).sum_of(Amount::whole(MOVING_FEE as int))
    }

    /// The monthly cost of the home, digit for digit: rent and utilities.
    pub open spec fn monthly_amount(self) -> Amount {
        self.monthly_cost.sum_of(self.monthly_utilities)
    }

    /// Whether the cost of moving in can be computed exactly.
    pub open spec fn moving_cost_fits(self) -> bool {
        &&& self.monthly_cost.product_fits(Amount::whole(2))
        &&& self.monthly_cost.product_of(Amount::whole(2)).sum_fits(
            Amount::whole(MOVING_FEE as int),
        )
    }

    /// The monthly cost of the home: rent and utilities.
    pub fn total_monthly_cost(&self) -> (r: Amount)
        requires
            self.monthly_cost.sum_fits(self.monthly_utilities),
        ensures
            r == self.monthly_amount(),
            r@ == self.monthly_cost@ + self.monthly_utilities@,
    {
        self.monthly_cost.plus(self.monthly_utilities)
    }

    /// The cost of moving in: a deposit of two months' rent and the moving fee.
    pub fn moving_cost(&self) -> (r: Amount)
        requires
            self.moving_cost_fits(),
        ensures
            r == self.moving_amount(),
            r@ == self.moving_total(),
    {
        self.monthly_cost.times_whole(2).plus(Amount::from_i64(MOVING_FEE))
    }

    /// The cost of moving in, where it can be computed exactly.
    pub fn checked_moving_cost(&self) -> (r: Option<Amount>)
        ensures
            r is Some <==> self.moving_cost_fits(),
            r is Some ==> r->Some_0 == self.moving_amount(),
            r is Some ==> r->Some_0@ == self.moving_total(),
    {
        match self.monthly_cost.checked_mul(Amount::from_i64(2)) {
            Some(deposit) => {
                proof {
                    Amount::lemma_product_units_whole(self.monthly_cost@, 2);
                }
                deposit.checked_add(Amount::from_i64(MOVING_FEE))
            },
            None => None,
        }
    }
}

/// Whether the home is the one described: by identifier, kind, location,
/// address, and rent and utilities in whole units.
pub open spec fn is_listing(
    home: Housing,
    id: Seq<char>,
    housing_type: HousingType,
    location: LocationQuality,
    address: Seq<char>,
    rent: int,
    utilities: int,
) -> bool {
    &&& home.id@ == id
    &&& home.housing_type == housing_type
    &&& home.location == location
    &&& home.address@ == address
    &&& home.monthly_cost == Amount::whole(rent)
    &&& home.monthly_utilities == Amount::whole(utilities)
}

/// A home with rent and utilities in whole units.
fn listing(
    id: &str,
    housing_type: HousingType,
    location: LocationQuality,
    address: &str,
    rent: i64,
    utilities: i64,
) -> (r: Housing)
    ensures
        is_listing(r, id@, housing_type, location, address@, rent as int, utilities as int),
{
    Housing {
        id: id.to_string(),
        housing_type,
        location,
        address: address.to_string(),
        monthly_cost: Amount::from_i64(rent),
        monthly_utilities: Amount::from_i64(utilities),
    }
}

/// The homes on offer in a market.
#[derive(Debug, Clone, Copy)]
pub struct HousingMarket;

impl HousingMarket {
    /// The homes on offer in the Czech market, from a shared room on the
    /// outskirts to a house in the centre.
    pub fn generate_czech_housing() -> (r: Vec<Housing>)
        ensures
            r@.len() == 10,
            is_listing(
                r@[0],
                "cz_shared_poor_1"@,
                HousingType::Shared,
                LocationQuality::Poor,
                "Shared room, Černý Most"@,
                4000,
                1000,
            ),
            is_listing(
                r@[1],
                "cz_studio_poor_1"@,
                HousingType::Studio,
                LocationQuality::Poor,
                "Small studio, Hostivař"@,
                7000,
                2000,
            ),
            is_listing(
                r@[2],
                "cz_shared_avg_1"@,
                HousingType::Shared,
                LocationQuality::Average,
                "Shared apartment, Háje"@,
                6000,
                1200,
            ),
            is_listing(
                r@[3],
                "cz_studio_avg_1"@,
                HousingType::Studio,
                LocationQuality::Average,
                "Studio, Chodov"@,
                10000,
                2500,
            ),
            is_listing(
                r@[4],
                "cz_1bed_avg_1"@,
                HousingType::OneBedroom,
                LocationQuality::Average,
                "1+kk, Nové Butovice"@,
                13000,
                3000,
            ),
            is_listing(
                r@[5],
                "cz_1bed_good_1"@,
                HousingType::OneBedroom,
                LocationQuality::Good,
                "1+1, Karlín"@,
                18000,
                3500,
            ),
            is_listing(
                r@[6],
                "cz_2bed_good_1"@,
                HousingType::TwoBedroom,
                LocationQuality::Good,
                "2+kk, Smíchov"@,
                22000,
                4000,
            ),
            is_listing(
                r@[7],
                "cz_2bed_prem_1"@,
                HousingType::TwoBedroom,
                LocationQuality::Premium,
                "2+1, Vinohrady"@,
                28000,
                4500,
            ),
            is_listing(
                r@[8],
                "cz_3bed_prem_1"@,
                HousingType::ThreeBedroom,
                LocationQuality::Premium,
                "3+1, Nové Město"@,
                35000,
                5000,
            ),
            is_listing(
                r@[9],
                "cz_house_prem_1"@,
                HousingType::House,
                LocationQuality::Premium,
                "House, Dejvice"@,
                50000,
                7000,
            ),
    {
        let mut options: Vec<Housing> = Vec::new();
        options.push(
            listing(
                "cz_shared_poor_1",
                HousingType::Shared,
                LocationQuality::Poor,
                "Shared room, Černý Most",
                4000,
                1000,
            ),
        );
        options.push(
            listing(
                "cz_studio_poor_1",
                HousingType::Studio,
                LocationQuality::Poor,
                "Small studio, Hostivař",
                7000,
                2000,
            ),
        );
        options.push(
            listing(
                "cz_shared_avg_1",
                HousingType::Shared,
                LocationQuality::Average,
                "Shared apartment, Háje",
                6000,
                1200,
            ),
        );
        options.push(
            listing(
                "cz_studio_avg_1",
                HousingType::Studio,
                LocationQuality::Average,
                "Studio, Chodov",
                10000,
                2500,
            ),
        );
        options.push(
            listing(
                "cz_1bed_avg_1",
                HousingType::OneBedroom,
                LocationQuality::Average,
                "1+kk, Nové Butovice",
                13000,
                3000,
            ),
        );
        options.push(
            listing(
                "cz_1bed_good_1",
                HousingType::OneBedroom,
                LocationQuality::Good,
                "1+1, Karlín",
                18000,
                3500,
            ),
        );
        options.push(
            listing(
                "cz_2bed_good_1",
                HousingType::TwoBedroom,
                LocationQuality::Good,
                "2+kk, Smíchov",
                22000,
                4000,
            ),
        );
        options.push(
            listing(
                "cz_2bed_prem_1",
                HousingType::TwoBedroom,
                LocationQuality::Premium,
                "2+1, Vinohrady",
                28000,
                4500,
            ),
        );
        options.push(
            listing(
                "cz_3bed_prem_1",
                HousingType::ThreeBedroom,
                LocationQuality::Premium,
                "3+1, Nové Město",
                35000,
                5000,
            ),
        );
        options.push(
            listing(
                "cz_house_prem_1",
                HousingType::House,
                LocationQuality::Premium,
                "House, Dejvice",
                50000,
                7000,
            ),
        );
        options
    }
}

} // verus!
