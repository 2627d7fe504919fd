//! The statements that the repository sends to the store: for each operation
//! the fixed text and the values bound to its placeholders, in order.

use crate::models::{District, Province, Regency, Village};
use vstd::prelude::*;

verus! {

/// A value bound to a placeholder of a statement.
#[derive(Clone, Debug, PartialEq, Eq)]
pub enum SqlValue {
    Null,
    Integer(i64),
    Text(String),
}

/// The mathematical content of a [`SqlValue`].
pub enum SqlValueView {
    Null,
    Integer(i64),
    Text(Seq<char>),
}

impl View for SqlValue {
    type V = SqlValueView;

    open spec fn view(&self) -> SqlValueView {
        match self {
            SqlValue::Null => SqlValueView::Null,
            SqlValue::Integer(i) => SqlValueView::Integer(*i),
            SqlValue::Text(s) => SqlValueView::Text(s@),
        }
    }
}

/// A statement text together with the values for its placeholders `?1`, `?2`
/// and so on, in that order.
#[derive(Clone, Debug, PartialEq, Eq)]
pub struct SqlStatement {
    pub text: &'static str,
    pub params: Vec<SqlValue>,
}

/// The mathematical content of a [`SqlStatement`].
pub struct SqlStatementView {
    pub text: Seq<char>,
    pub params: Seq<SqlValueView>,
}

impl View for SqlStatement {
    type V = SqlStatementView;

    open spec fn view(&self) -> SqlStatementView {
        SqlStatementView { text: self.text@, params: self.params@.map_values(|v: SqlValue| v@) }
    }
}

/// The value that stands for an optional key: NULL for `None`.
pub open spec fn optional_key(key: Option<i64>) -> SqlValueView {
    match key {
        Some(k) => SqlValueView::Integer(k),
        None => SqlValueView::Null,
    }
}

/// The placeholder values of a statement that names one row by its key.
pub open spec fn key_params(id: i64) -> Seq<SqlValueView> {
    seq![SqlValueView::Integer(id)]
}

/// The placeholder values that carry the fields of a province.
pub open spec fn province_params(code: Seq<char>, name: Seq<char>) -> Seq<SqlValueView> {
    seq![SqlValueView::Text(code), SqlValueView::Text(name)]
}

/// The placeholder values that carry the fields of an entity with a parent.
pub open spec fn child_params(code: Seq<char>, name: Seq<char>, parent: Option<i64>) -> Seq<
    SqlValueView,
> {
    seq![SqlValueView::Text(code), SqlValueView::Text(name), optional_key(parent)]
}

/// The statement `text` with the one key `id` bound to its placeholder.
pub open spec fn keyed(text: &str, id: i64) -> SqlStatementView {
    SqlStatementView { text: text@, params: key_params(id) }
}

/// The statement `text` without any placeholder.
pub open spec fn plain(text: &str) -> SqlStatementView {
    SqlStatementView { text: text@, params: seq![] }
}

fn bind_optional_key(key: Option<i64>) -> (v: SqlValue)
    ensures
        v@ == optional_key(key),
{
    match key {
        Some(k) => SqlValue::Integer(k),
        None => SqlValue::Null,
    }
}

fn by_key(text: &'static str, id: i64) -> (s: SqlStatement)
    ensures
        s@ == (SqlStatementView { text: text@, params: key_params(id) }),
{
    let mut params: Vec<SqlValue> = Vec::new();
    params.push(SqlValue::Integer(id));
    let s = SqlStatement { text, params };
    assert(s@.params =~= key_params(id));
    s
}

fn insert_child(text: &'static str, code: &String, name: &String, parent: Option<i64>) -> (s:
    SqlStatement)
    ensures
        s@ == (SqlStatementView { text: text@, params: child_params(code@, name@, parent) }),
{
    let mut params: Vec<SqlValue> = Vec::new();
    params.push(SqlValue::Text(code.clone()));
    params.push(SqlValue::Text(name.clone()));
    params.push(bind_optional_key(parent));
    let s = SqlStatement { text, params };
    assert(s@.params =~= child_params(code@, name@, parent));
    s
}

fn update_child(
    text: &'static str,
    id: i64,
    code: &String,
    name: &String,
    parent: Option<i64>,
) -> (s: SqlStatement)
    ensures
        s@ == (SqlStatementView {
            text: text@,
            params: child_params(code@, name@, parent) + key_params(id),
        }),
{
    let mut params: Vec<SqlValue> = Vec::new();
    params.push(SqlValue::Text(code.clone()));
    params.push(SqlValue::Text(name.clone()));
    params.push(bind_optional_key(parent));
    params.push(SqlValue::Integer(id));
    let s = SqlStatement { text, params };
    assert(s@.params =~= child_params(code@, name@, parent) + key_params(id));
    s
}

pub const SELECT_ALL_PROVINCES: &'static str = "SELECT id, code, name FROM provinces";

pub const SELECT_PROVINCE_BY_ID: &'static str =
    "SELECT id, code, name FROM provinces WHERE id = ?1";

pub const INSERT_PROVINCE: &'static str = "INSERT INTO provinces (code, name) VALUES (?1, ?2)";

pub const UPDATE_PROVINCE_BY_ID: &'static str =
    "UPDATE provinces SET code = ?1, name = ?2 WHERE id = ?3";

pub const DELETE_PROVINCE_BY_ID: &'static str = "DELETE FROM provinces WHERE id = ?1";

/// Lists every province: the columns are id, code, name.
pub fn select_all_provinces() -> (s: SqlStatement)
    ensures
        s@ == (SqlStatementView { text: SELECT_ALL_PROVINCES@, params: seq![] }),
{
    let s = SqlStatement { text: SELECT_ALL_PROVINCES, params: Vec::new() };
    assert(s@.params =~= seq![]);
    s
}

/// Reads the province with the key `id`: the columns are id, code, name.
pub fn select_province_by_id(id: i64) -> (s: SqlStatement)
    ensures
        s@ == (SqlStatementView { text: SELECT_PROVINCE_BY_ID@, params: key_params(id) }),
{
    by_key(SELECT_PROVINCE_BY_ID, id)
}

/// Stores a new province with the code and name of `province`. Its `id` is
/// not sent: the store assigns the key.
pub fn insert_province(province: &Province) -> (s: SqlStatement)
    ensures
        s@ == (SqlStatementView {
            text: INSERT_PROVINCE@,
            params: province_params(province.code@, province.name@),
        }),
{
    let mut params: Vec<SqlValue> = Vec::new();
    params.push(SqlValue::Text(province.code.clone()));
    params.push(SqlValue::Text(province.name.clone()));
    let s = SqlStatement { text: INSERT_PROVINCE, params };
    assert(s@.params =~= province_params(province.code@, province.name@));
    s
}

/// Rewrites the code and name of the province with the key `id`. The `id`
/// field of `province` is not sent.
pub fn update_province_by_id(id: i64, province: &Province) -> (s: SqlStatement)
    ensures
        s@ == (SqlStatementView {
            text: UPDATE_PROVINCE_BY_ID@,
            params: province_params(province.code@, province.name@) + key_params(id),
        }),
{
    let mut params: Vec<SqlValue> = Vec::new();
    params.push(SqlValue::Text(province.code.clone()));
    params.push(SqlValue::Text(province.name.clone()));
    params.push(SqlValue::Integer(id));
    let s = SqlStatement { text: UPDATE_PROVINCE_BY_ID, params };
    assert(s@.params =~= province_params(province.code@, province.name@) + key_params(id));
    s
}

/// Removes the province with the key `id`. Its regencies stay as they are.
pub fn delete_province_by_id(id: i64) -> (s: SqlStatement)
    ensures
        s@ == (SqlStatementView { text: DELETE_PROVINCE_BY_ID@, params: key_params(id) }),
{
    by_key(DELETE_PROVINCE_BY_ID, id)
}

pub const SELECT_REGENCIES_BY_PROVINCE: &'static str =
    "SELECT id, code, name, province_id FROM regencies WHERE province_id = ?1";

pub const SELECT_REGENCY_BY_ID: &'static str =
    "SELECT id, code, name, province_id FROM regencies WHERE id = ?1";

pub const INSERT_REGENCY: &'static str =
    "INSERT INTO regencies (code, name, province_id) VALUES (?1, ?2, ?3)";

pub const UPDATE_REGENCY_BY_ID: &'static str =
    "UPDATE regencies SET code = ?1, name = ?2, province_id = ?3 WHERE id = ?4";

pub const DELETE_REGENCY_BY_ID: &'static str = "DELETE FROM regencies WHERE id = ?1";

/// Lists the regencies whose `province_id` is `province_id`: the columns are id, code,
/// name, province_id.
pub fn select_regencies_by_province(province_id: i64) -> (s: SqlStatement)
    ensures
        s@ == (SqlStatementView { text: SELECT_REGENCIES_BY_PROVINCE@, params: key_params(province_id) }),
{
    by_key(SELECT_REGENCIES_BY_PROVINCE, province_id)
}

/// Reads the regency with the key `id`: the columns are id, code, name,
/// province_id.
pub fn select_regency_by_id(id: i64) -> (s: SqlStatement)
    ensures
        s@ == (SqlStatementView { text: SELECT_REGENCY_BY_ID@, params: key_params(id) }),
{
    by_key(SELECT_REGENCY_BY_ID, id)
}

/// Stores a new regency with the code, name and province of `regency`. Its `id`
/// is not sent: the store assigns the key.
pub fn insert_regency(regency: &Regency) -> (s: SqlStatement)
    ensures
        s@ == (SqlStatementView {
            text: INSERT_REGENCY@,
            params: child_params(regency.code@, regency.name@, regency.province_id),
        }),
{
    insert_child(INSERT_REGENCY, &regency.code, &regency.name, regency.province_id)
}

/// Rewrites the code, name and province of the regency with the key `id`. The
/// `id` field of `regency` is not sent.
pub fn update_regency_by_id(id: i64, regency: &Regency) -> (s: SqlStatement)
    ensures
        s@ == (SqlStatementView {
            text: UPDATE_REGENCY_BY_ID@,
            params: child_params(regency.code@, regency.name@, regency.province_id) + key_params(id),
        }),
{
    update_child(UPDATE_REGENCY_BY_ID, id, &regency.code, &regency.name, regency.province_id)
}

/// Removes the regency with the key `id`. Its districts stay as they are.
pub fn delete_regency_by_id(id: i64) -> (s: SqlStatement)
    ensures
        s@ == (SqlStatementView { text: DELETE_REGENCY_BY_ID@, params: key_params(id) }),
{
    by_key(DELETE_REGENCY_BY_ID, id)
}

pub const SELECT_DISTRICTS_BY_REGENCY: &'static str =
    "SELECT id, code, name, regency_id FROM districts WHERE regency_id = ?1";

pub const SELECT_DISTRICT_BY_ID: &'static str =
    "SELECT id, code, name, regency_id FROM districts WHERE id = ?1";

pub const INSERT_DISTRICT: &'static str =
    "INSERT INTO districts (code, name, regency_id) VALUES (?1, ?2, ?3)";

pub const UPDATE_DISTRICT_BY_ID: &'static str =
    "UPDATE districts SET code = ?1, name = ?2, regency_id = ?3 WHERE id = ?4";

pub const DELETE_DISTRICT_BY_ID: &'static str = "DELETE FROM districts WHERE id = ?1";

/// Lists the districts whose `regency_id` is `regency_id`: the columns are id, code,
/// name, regency_id.
pub fn select_districts_by_regency(regency_id: i64) -> (s: SqlStatement)
    ensures
        s@ == (SqlStatementView { text: SELECT_DISTRICTS_BY_REGENCY@, params: key_params(regency_id) }),
{
    by_key(SELECT_DISTRICTS_BY_REGENCY, regency_id)
}

/// Reads the district with the key `id`: the columns are id, code, name,
/// regency_id.
pub fn select_district_by_id(id: i64) -> (s: SqlStatement)
    ensures
        s@ == (SqlStatementView { text: SELECT_DISTRICT_BY_ID@, params: key_params(id) }),
{
    by_key(SELECT_DISTRICT_BY_ID, id)
}

/// Stores a new district with the code, name and regency of `district`. Its `id`
/// is not sent: the store assigns the key.
pub fn insert_district(district: &District) -> (s: SqlStatement)
    ensures
        s@ == (SqlStatementView {
            text: INSERT_DISTRICT@,
            params: child_params(district.code@, district.name@, district.regency_id),
        }),
{
    insert_child(INSERT_DISTRICT, &district.code, &district.name, district.regency_id)
}

/// Rewrites the code, name and regency of the district with the key `id`. The
/// `id` field of `district` is not sent.
pub fn update_district_by_id(id: i64, district: &District) -> (s: SqlStatement)
    ensures
        s@ == (SqlStatementView {
            text: UPDATE_DISTRICT_BY_ID@,
            params: child_params(district.code@, district.name@, district.regency_id) + key_params(id),
        }),
{
    update_child(UPDATE_DISTRICT_BY_ID, id, &district.code, &district.name, district.regency_id)
}

/// Removes the district with the key `id`. Its villages stay as they are.
pub fn delete_district_by_id(id: i64) -> (s: SqlStatement)
    ensures
        s@ == (SqlStatementView { text: DELETE_DISTRICT_BY_ID@, params: key_params(id) }),
{
    by_key(DELETE_DISTRICT_BY_ID, id)
}

pub const SELECT_VILLAGES_BY_DISTRICT: &'static str =
    "SELECT id, code, name, district_id FROM villages WHERE district_id = ?1";

pub const SELECT_VILLAGE_BY_ID: &'static str =
    "SELECT id, code, name, district_id FROM villages WHERE id = ?1";

pub const INSERT_VILLAGE: &'static str =
    "INSERT INTO villages (code, name, district_id) VALUES (?1, ?2, ?3)";

pub const UPDATE_VILLAGE_BY_ID: &'static str =
    "UPDATE villages SET code = ?1, name = ?2, district_id = ?3 WHERE id = ?4";

pub const DELETE_VILLAGE_BY_ID: &'static str = "DELETE FROM villages WHERE id = ?1";

/// Lists the villages whose `district_id` is `district_id`: the columns are id, code,
/// name, district_id.
pub fn select_villages_by_district(district_id: i64) -> (s: SqlStatement)
    ensures
        s@ == (SqlStatementView { text: SELECT_VILLAGES_BY_DISTRICT@, params: key_params(district_id) }),
{
    by_key(SELECT_VILLAGES_BY_DISTRICT, district_id)
}

/// Reads the village with the key `id`: the columns are id, code, name,
/// district_id.
pub fn select_village_by_id(id: i64) -> (s: SqlStatement)
    ensures
        s@ == (SqlStatementView { text: SELECT_VILLAGE_BY_ID@, params: key_params(id) }),
{
    by_key(SELECT_VILLAGE_BY_ID, id)
}

/// Stores a new village with the code, name and district of `village`. Its `id`
/// is not sent: the store assigns the key.
pub fn insert_village(village: &Village) -> (s: SqlStatement)
    ensures
        s@ == (SqlStatementView {
            text: INSERT_VILLAGE@,
            params: child_params(village.code@, village.name@, village.district_id),
        }),
{
    insert_child(INSERT_VILLAGE, &village.code, &village.name, village.district_id)
}

/// Rewrites the code, name and district of the village with the key `id`. The
/// `id` field of `village` is not sent.
pub fn update_village_by_id(id: i64, village: &Village) -> (s: SqlStatement)
    ensures
        s@ == (SqlStatementView {
            text: UPDATE_VILLAGE_BY_ID@,
            params: child_params(village.code@, village.name@, village.district_id) + key_params(id),
        }),
{
    update_child(UPDATE_VILLAGE_BY_ID, id, &village.code, &village.name, village.district_id)
}

/// Removes the village with the key `id`.
pub fn delete_village_by_id(id: i64) -> (s: SqlStatement)
    ensures
        s@ == (SqlStatementView { text: DELETE_VILLAGE_BY_ID@, params: key_params(id) }),
{
    by_key(DELETE_VILLAGE_BY_ID, id)
}

pub const SELECT_FULL_ADMIN_DATA_BY_VILLAGE: &'static str =
    "SELECT p.code as province_code, p.name as province_name, \
            r.code as regency_code, r.name as regency_name, \
            d.code as district_code, d.name as district_name, \
            v.code as village_code, v.name as village_name \
     FROM villages v \
     JOIN districts d ON v.district_id = d.id \
     JOIN regencies r ON d.regency_id = r.id \
     JOIN provinces p ON r.province_id = p.id \
     WHERE v.id = ?1";

/// Joins the village with the key `village_id` to its district, regency and
/// province. The eight columns are the code and name of the province, of the
/// regency, of the district and of the village, in that order. A village with
/// a link missing anywhere along the chain yields no row.
pub fn select_full_admin_data_by_village(village_id: i64) -> (s: SqlStatement)
    ensures
        s@ == (SqlStatementView {
            text: SELECT_FULL_ADMIN_DATA_BY_VILLAGE@,
            params: key_params(village_id),
        }),
{
    by_key(SELECT_FULL_ADMIN_DATA_BY_VILLAGE, village_id)
}

} // verus!
