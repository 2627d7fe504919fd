//! The four entities of the hierarchy and the joined record that describes a
//! village together with all of its ancestors.

use vstd::prelude::*;

verus! {

/// A province: the root level of the hierarchy.
///
/// `id` is `None` on a value that has not been stored yet and `Some` on every
/// value read back from the store.
#[derive(Clone, Debug, PartialEq, Eq)]
pub struct Province {
    pub id: Option<i64>,
    pub code: String,
    pub name: String,
}

/// The mathematical content of a [`Province`].
pub struct ProvinceView {
    pub id: Option<i64>,
    pub code: Seq<char>,
    pub name: Seq<char>,
}

impl View for Province {
    type V = ProvinceView;

    open spec fn view(&self) -> ProvinceView {
        ProvinceView {
            id: self.id,
            code: self.code@,
            name: self.name@,
        }
    }
}

/// A regency, which belongs to the province named by `province_id`.
#[derive(Clone, Debug, PartialEq, Eq)]
pub struct Regency {
    pub id: Option<i64>,
    pub code: String,
    pub name: String,
    pub province_id: Option<i64>,
}

/// The mathematical content of a [`Regency`].
pub struct RegencyView {
    pub id: Option<i64>,
    pub code: Seq<char>,
    pub name: Seq<char>,
    pub province_id: Option<i64>,
}

impl View for Regency {
    type V = RegencyView;

    open spec fn view(&self) -> RegencyView {
        RegencyView {
            id: self.id,
            code: self.code@,
            name: self.name@,
            province_id: self.province_id,
        }
    }
}

/// A district, which belongs to the regency named by `regency_id`.
#[derive(Clone, Debug, PartialEq, Eq)]
pub struct District {
    pub id: Option<i64>,
    pub code: String,
    pub name: String,
    pub regency_id: Option<i64>,
}

/// The mathematical content of a [`District`].
pub struct DistrictView {
    pub id: Option<i64>,
    pub code: Seq<char>,
    pub name: Seq<char>,
    pub regency_id: Option<i64>,
}

impl View for District {
    type V = DistrictView;

    open spec fn view(&self) -> DistrictView {
        DistrictView {
            id: self.id,
            code: self.code@,
            name: self.name@,
            regency_id: self.regency_id,
        }
    }
}

/// A village, which belongs to the district named by `district_id`.
#[derive(Clone, Debug, PartialEq, Eq)]
pub struct Village {
    pub id: Option<i64>,
    pub code: String,
    pub name: String,
    pub district_id: Option<i64>,
}

/// The mathematical content of a [`Village`].
pub struct VillageView {
    pub id: Option<i64>,
    pub code: Seq<char>,
    pub name: Seq<char>,
    pub district_id: Option<i64>,
}

impl View for Village {
    type V = VillageView;

    open spec fn view(&self) -> VillageView {
        VillageView {
            id: self.id,
            code: self.code@,
            name: self.name@,
            district_id: self.district_id,
        }
    }
}

/// The codes and names of a village and of its district, regency and
/// province. It is never stored: it is assembled anew on every lookup.
#[derive(Clone, Debug, PartialEq, Eq)]
pub struct FullAdminData {
    pub province_code: String,
    pub province_name: String,
    pub city_code: String,
    pub city_name: String,
    pub region_code: String,
    pub region_name: String,
    pub village_code: String,
    pub village_name: String,
}

/// The mathematical content of a [`FullAdminData`].
pub struct FullAdminDataView {
    pub province_code: Seq<char>,
    pub province_name: Seq<char>,
    pub city_code: Seq<char>,
    pub city_name: Seq<char>,
    pub region_code: Seq<char>,
    pub region_name: Seq<char>,
    pub village_code: Seq<char>,
    pub village_name: Seq<char>,
}

impl View for FullAdminData {
    type V = FullAdminDataView;

    open spec fn view(&self) -> FullAdminDataView {
        FullAdminDataView {
            province_code: self.province_code@,
            province_name: self.province_name@,
            city_code: self.city_code@,
            city_name: self.city_name@,
            region_code: self.region_code@,
            region_name: self.region_name@,
            village_code: self.village_code@,
            village_name: self.village_name@,
        }
    }
}

} // verus!
