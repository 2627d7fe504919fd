//! Reading the columns of a result row into the entities. The order of the
//! columns is fixed by the statements in [`crate::statements`].

use crate::models::{
    District, DistrictView, FullAdminData, FullAdminDataView, Province, ProvinceView, Regency,
    RegencyView, Village, VillageView,
};
use crate::sqlite::{column_integer, column_text, row_integers, row_source, row_texts};
use crate::statements::SqlStatementView;
use vstd::prelude::*;

verus! {

/// A type that is read from one result row.
pub trait FromRow: Sized + View {
    /// What `row` decodes to, or `None` where one of the columns that the type
    /// needs cannot be read.
    spec fn decoded(row: &rusqlite::Row) -> Option<Self::V>;

    /// Reads a value from `row`. It fails exactly where a needed column cannot
    /// be read, with the error of the first such column.
    fn from_row(row: &rusqlite::Row) -> (r: Result<Self, rusqlite::Error>)
        ensures
            r is Ok <==> Self::decoded(row) is Some,
            r is Ok ==> r->Ok_0@ == Self::decoded(row)->Some_0,
    ;
}

/// Whether `value` was read from a row that `statement` yielded: some row of
/// that statement, with those values bound, decodes to `value`.
pub open spec fn read_from<T: FromRow>(statement: SqlStatementView, value: T::V) -> bool {
    exists|row: &rusqlite::Row|
        row_source(row) == statement && #[trigger] T::decoded(row) == Some(value)
}

/// Whether every value of `found` was read from a row that `statement`
/// yielded.
pub open spec fn all_read_from<T: FromRow>(statement: SqlStatementView, found: Seq<T>) -> bool {
    forall|i: int| 0 <= i < found.len() ==> read_from::<T>(statement, #[trigger] found[i]@)
}

/// Whether columns 0 to 3 of `row` can be read as an optional integer, two
/// texts and an optional integer: the shape of every entity with a parent.
pub open spec fn child_columns_readable(row: &rusqlite::Row) -> bool {
    &&& row_integers(row).contains_key(0)
    &&& row_texts(row).contains_key(1)
    &&& row_texts(row).contains_key(2)
    &&& row_integers(row).contains_key(3)
}

impl FromRow for Province {
    open spec fn decoded(row: &rusqlite::Row) -> Option<ProvinceView> {
        if row_integers(row).contains_key(0) && row_texts(row).contains_key(1) && row_texts(row).contains_key(2) {
            Some(
                ProvinceView {
                    id: row_integers(row)[0],
                    code: row_texts(row)[1],
                    name: row_texts(row)[2],
                },
            )
        } else {
            None
        }
    }

    fn from_row(row: &rusqlite::Row) -> (r: Result<Province, rusqlite::Error>) {
        let id = column_integer(row, 0)?;
        let code = column_text(row, 1)?;
        let name = column_text(row, 2)?;
        Ok(Province { id, code, name })
    }
}

impl FromRow for Regency {
    open spec fn decoded(row: &rusqlite::Row) -> Option<RegencyView> {
        if child_columns_readable(row) {
            Some(
                RegencyView {
                    id: row_integers(row)[0],
                    code: row_texts(row)[1],
                    name: row_texts(row)[2],
                    province_id: row_integers(row)[3],
                },
            )
        } else {
            None
        }
    }

    fn from_row(row: &rusqlite::Row) -> (r: Result<Regency, rusqlite::Error>) {
        let id = column_integer(row, 0)?;
        let code = column_text(row, 1)?;
        let name = column_text(row, 2)?;
        let province_id = column_integer(row, 3)?;
        Ok(Regency { id, code, name, province_id })
    }
}

impl FromRow for District {
    open spec fn decoded(row: &rusqlite::Row) -> Option<DistrictView> {
        if child_columns_readable(row) {
            Some(
                DistrictView {
                    id: row_integers(row)[0],
                    code: row_texts(row)[1],
                    name: row_texts(row)[2],
                    regency_id: row_integers(row)[3],
                },
            )
        } else {
            None
        }
    }

    fn from_row(row: &rusqlite::Row) -> (r: Result<District, rusqlite::Error>) {
        let id = column_integer(row, 0)?;
        let code = column_text(row, 1)?;
        let name = column_text(row, 2)?;
        let regency_id = column_integer(row, 3)?;
        Ok(District { id, code, name, regency_id })
    }
}

impl FromRow for Village {
    open spec fn decoded(row: &rusqlite::Row) -> Option<VillageView> {
        if child_columns_readable(row) {
            Some(
                VillageView {
                    id: row_integers(row)[0],
                    code: row_texts(row)[1],
                    name: row_texts(row)[2],
                    district_id: row_integers(row)[3],
                },
            )
        } else {
            None
        }
    }

    fn from_row(row: &rusqlite::Row) -> (r: Result<Village, rusqlite::Error>) {
        let id = column_integer(row, 0)?;
        let code = column_text(row, 1)?;
        let name = column_text(row, 2)?;
        let district_id = column_integer(row, 3)?;
        Ok(Village { id, code, name, district_id })
    }
}

impl FromRow for FullAdminData {
    open spec fn decoded(row: &rusqlite::Row) -> Option<FullAdminDataView> {
        if forall|i: usize| 0 <= i < 8 ==> #[trigger] row_texts(row).contains_key(i) {
            Some(
                FullAdminDataView {
                    province_code: row_texts(row)[0],
                    province_name: row_texts(row)[1],
                    city_code: row_texts(row)[2],
                    city_name: row_texts(row)[3],
                    region_code: row_texts(row)[4],
                    region_name: row_texts(row)[5],
                    village_code: row_texts(row)[6],
                    village_name: row_texts(row)[7],
                },
            )
        } else {
            None
        }
    }

    fn from_row(row: &rusqlite::Row) -> (r: Result<FullAdminData, rusqlite::Error>) {
        let province_code = column_text(row, 0)?;
        let province_name = column_text(row, 1)?;
        let city_code = column_text(row, 2)?;
        let city_name = column_text(row, 3)?;
        let region_code = column_text(row, 4)?;
        let region_name = column_text(row, 5)?;
        let village_code = column_text(row, 6)?;
        let village_name = column_text(row, 7)?;
        Ok(
            FullAdminData {
                province_code,
                province_name,
                city_code,
                city_name,
                region_code,
                region_name,
                village_code,
                village_name,
            },
        )
    }
}

} // verus!
