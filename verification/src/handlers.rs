//! The request handlers: each performs one repository operation and turns
//! its outcome into a response, a status code and a body. Encoding the body
//! and sending it belong to the server around this library.

use crate::db::{Database, DatabaseError};
use crate::decode::{all_read_from, read_from};
use crate::models::{District, FullAdminData, Province, Regency, Village};
use crate::statements::{
    keyed, plain, SELECT_ALL_PROVINCES, SELECT_DISTRICTS_BY_REGENCY, SELECT_DISTRICT_BY_ID,
    SELECT_FULL_ADMIN_DATA_BY_VILLAGE, SELECT_PROVINCE_BY_ID, SELECT_REGENCIES_BY_PROVINCE,
    SELECT_REGENCY_BY_ID, SELECT_VILLAGES_BY_DISTRICT, SELECT_VILLAGE_BY_ID,
};
use vstd::prelude::*;
use vstd::string::StringExecFns;

verus! {

/// What a response carries.
#[derive(Clone, Debug, PartialEq, Eq)]
pub enum Body {
    /// Nothing at all.
    Empty,
    /// An object with the one member `error`.
    Error(String),
    /// An object with the one member `id`.
    Id(i64),
    Province(Province),
    Provinces(Vec<Province>),
    Regency(Regency),
    Regencies(Vec<Regency>),
    District(District),
    Districts(Vec<District>),
    Village(Village),
    Villages(Vec<Village>),
    FullAdminData(FullAdminData),
}

/// A status code and a body.
#[derive(Clone, Debug, PartialEq, Eq)]
pub struct Response {
    pub status: u16,
    pub body: Body,
}

pub const STATUS_OK: u16 = 200;

pub const STATUS_CREATED: u16 = 201;

pub const STATUS_NO_CONTENT: u16 = 204;

pub const STATUS_NOT_FOUND: u16 = 404;

pub const STATUS_INTERNAL_SERVER_ERROR: u16 = 500;

/// A value that a successful read answers with.
pub trait Payload: Sized {
    /// The body that carries `self`.
    spec fn body_of(self) -> Body;

    fn into_body(self) -> (body: Body)
        ensures
            body == self.body_of(),
    ;
}

impl Payload for Province {
    open spec fn body_of(self) -> Body {
        Body::Province(self)
    }

    fn into_body(self) -> (body: Body) {
        Body::Province(self)
    }
}

impl Payload for Vec<Province> {
    open spec fn body_of(self) -> Body {
        Body::Provinces(self)
    }

    fn into_body(self) -> (body: Body) {
        Body::Provinces(self)
    }
}

impl Payload for Regency {
    open spec fn body_of(self) -> Body {
        Body::Regency(self)
    }

    fn into_body(self) -> (body: Body) {
        Body::Regency(self)
    }
}

impl Payload for Vec<Regency> {
    open spec fn body_of(self) -> Body {
        Body::Regencies(self)
    }

    fn into_body(self) -> (body: Body) {
        Body::Regencies(self)
    }
}

impl Payload for District {
    open spec fn body_of(self) -> Body {
        Body::District(self)
    }

    fn into_body(self) -> (body: Body) {
        Body::District(self)
    }
}

impl Payload for Vec<District> {
    open spec fn body_of(self) -> Body {
        Body::Districts(self)
    }

    fn into_body(self) -> (body: Body) {
        Body::Districts(self)
    }
}

impl Payload for Village {
    open spec fn body_of(self) -> Body {
        Body::Village(self)
    }

    fn into_body(self) -> (body: Body) {
        Body::Village(self)
    }
}

impl Payload for Vec<Village> {
    open spec fn body_of(self) -> Body {
        Body::Villages(self)
    }

    fn into_body(self) -> (body: Body) {
        Body::Villages(self)
    }
}

impl Payload for FullAdminData {
    open spec fn body_of(self) -> Body {
        Body::FullAdminData(self)
    }

    fn into_body(self) -> (body: Body) {
        Body::FullAdminData(self)
    }
}

/// Whether `response` reports the failure `error` of the operation that
/// `context` describes: a server error whose body gives `context` followed by
/// the error's message.
pub open spec fn reports_failure(response: Response, context: Seq<char>, error: DatabaseError) -> bool {
    &&& response.status == STATUS_INTERNAL_SERVER_ERROR
    &&& response.body is Error
    &&& response.body->Error_0@ == context + error.spec_message()
}

/// Whether `response` reports that nothing was found, in the words `missing`.
pub open spec fn reports_missing(response: Response, missing: Seq<char>) -> bool {
    &&& response.status == STATUS_NOT_FOUND
    &&& response.body is Error
    &&& response.body->Error_0@ == missing
}

/// Whether `response` answers the outcome of a listing: the list itself, or
/// the failure.
pub open spec fn answers_list<T: Payload>(
    response: Response,
    outcome: Result<T, DatabaseError>,
    context: Seq<char>,
) -> bool {
    match outcome {
        Ok(found) => response == (Response { status: STATUS_OK, body: found.body_of() }),
        Err(error) => reports_failure(response, context, error),
    }
}

/// Whether `response` answers the outcome of a lookup: the value, the report
/// that there is none, or the failure.
pub open spec fn answers_lookup<T: Payload>(
    response: Response,
    outcome: Result<Option<T>, DatabaseError>,
    missing: Seq<char>,
    context: Seq<char>,
) -> bool {
    match outcome {
        Ok(Some(found)) => response == (Response { status: STATUS_OK, body: found.body_of() }),
        Ok(None) => reports_missing(response, missing),
        Err(error) => reports_failure(response, context, error),
    }
}

/// Whether `response` answers the outcome of an insertion: the new key, or
/// the failure.
pub open spec fn answers_creation(
    response: Response,
    outcome: Result<i64, DatabaseError>,
    context: Seq<char>,
) -> bool {
    match outcome {
        Ok(id) => response == (Response { status: STATUS_CREATED, body: Body::Id(id) }),
        Err(error) => reports_failure(response, context, error),
    }
}

/// Whether `response` answers the outcome of a rewrite or a removal: an empty
/// success, or the failure. A row that was not there is reported as a
/// failure like any other, not as a missing resource.
pub open spec fn answers_write(
    response: Response,
    outcome: Result<(), DatabaseError>,
    context: Seq<char>,
) -> bool {
    match outcome {
        Ok(_) => response == (Response { status: STATUS_NO_CONTENT, body: Body::Empty }),
        Err(error) => reports_failure(response, context, error),
    }
}

/// The response to a failed operation: `context` followed by what the error
/// says of itself.
pub fn failure(context: &str, error: &DatabaseError) -> (response: Response)
    ensures
        reports_failure(response, context@, *error),
{
    let message = error.message();
    let text = String::from_str(context).concat(message.as_str());
    Response { status: STATUS_INTERNAL_SERVER_ERROR, body: Body::Error(text) }
}

/// The response to a lookup that found nothing.
pub fn not_found(missing: &str) -> (response: Response)
    ensures
        reports_missing(response, missing@),
{
    Response { status: STATUS_NOT_FOUND, body: Body::Error(String::from_str(missing)) }
}

/// Answers a listing.
pub fn respond_list<T: Payload>(outcome: Result<T, DatabaseError>, context: &str) -> (response:
    Response)
    ensures
        answers_list(response, outcome, context@),
{
    match outcome {
        Ok(found) => Response { status: STATUS_OK, body: found.into_body() },
        Err(error) => failure(context, &error),
    }
}

/// Answers a lookup.
pub fn respond_lookup<T: Payload>(
    outcome: Result<Option<T>, DatabaseError>,
    missing: &str,
    context: &str,
) -> (response: Response)
    ensures
        answers_lookup(response, outcome, missing@, context@),
{
    match outcome {
        Ok(Some(found)) => Response { status: STATUS_OK, body: found.into_body() },
        Ok(None) => not_found(missing),
        Err(error) => failure(context, &error),
    }
}

/// Answers an insertion.
pub fn respond_creation(outcome: Result<i64, DatabaseError>, context: &str) -> (response: Response)
    ensures
        answers_creation(response, outcome, context@),
{
    match outcome {
        Ok(id) => Response { status: STATUS_CREATED, body: Body::Id(id) },
        Err(error) => failure(context, &error),
    }
}

/// Answers a rewrite or a removal.
pub fn respond_write(outcome: Result<(), DatabaseError>, context: &str) -> (response: Response)
    ensures
        answers_write(response, outcome, context@),
{
    match outcome {
        Ok(_) => Response { status: STATUS_NO_CONTENT, body: Body::Empty },
        Err(error) => failure(context, &error),
    }
}

pub const PROVINCE_NOT_FOUND: &'static str = "Province not found";

pub const REGENCY_NOT_FOUND: &'static str = "Regency not found";

pub const DISTRICT_NOT_FOUND: &'static str = "District not found";

pub const VILLAGE_NOT_FOUND: &'static str = "Village not found";

pub const FETCH_PROVINCES_FAILED: &'static str = "Failed to fetch provinces: ";

pub const FETCH_REGENCIES_FAILED: &'static str = "Failed to fetch regencies: ";

pub const FETCH_DISTRICTS_FAILED: &'static str = "Failed to fetch districts: ";

pub const FETCH_VILLAGES_FAILED: &'static str = "Failed to fetch villages: ";

pub const FETCH_ADMIN_DATA_FAILED: &'static str = "Failed to fetch admin data: ";

pub const FETCH_PROVINCE_FAILED: &'static str = "Failed to fetch province: ";

pub const CREATE_PROVINCE_FAILED: &'static str = "Failed to create province: ";

pub const UPDATE_PROVINCE_FAILED: &'static str = "Failed to update province: ";

pub const DELETE_PROVINCE_FAILED: &'static str = "Failed to delete province: ";

pub const FETCH_REGENCY_FAILED: &'static str = "Failed to fetch regency: ";

pub const CREATE_REGENCY_FAILED: &'static str = "Failed to create regency: ";

pub const UPDATE_REGENCY_FAILED: &'static str = "Failed to update regency: ";

pub const DELETE_REGENCY_FAILED: &'static str = "Failed to delete regency: ";

pub const FETCH_DISTRICT_FAILED: &'static str = "Failed to fetch district: ";

pub const CREATE_DISTRICT_FAILED: &'static str = "Failed to create district: ";

pub const UPDATE_DISTRICT_FAILED: &'static str = "Failed to update district: ";

pub const DELETE_DISTRICT_FAILED: &'static str = "Failed to delete district: ";

pub const FETCH_VILLAGE_FAILED: &'static str = "Failed to fetch village: ";

pub const CREATE_VILLAGE_FAILED: &'static str = "Failed to create village: ";

pub const UPDATE_VILLAGE_FAILED: &'static str = "Failed to update village: ";

pub const DELETE_VILLAGE_FAILED: &'static str = "Failed to delete village: ";

/// Lists every province: 200 with the list, or 500 with the failure.
pub fn get_all_provinces(db: &Database) -> (response: Response)
    ensures
        exists|outcome: Result<Vec<Province>, DatabaseError>|
            {
                &&& outcome is Err ==> outcome->Err_0 is SQLiteError
                &&& outcome matches Ok(found) ==> all_read_from::<Province>(
                    plain(SELECT_ALL_PROVINCES),
                    found@,
                )
                &&& #[trigger] answers_list(response, outcome, FETCH_PROVINCES_FAILED@)
            },
{
    let outcome = db.get_all_provinces();
    let ghost reported = outcome;
    let response = respond_list(outcome, FETCH_PROVINCES_FAILED);
    assert(answers_list(response, reported, FETCH_PROVINCES_FAILED@));
    response
}

/// Looks up one province: 200 with the province, 404 where there is none, or 500
/// with the failure.
pub fn get_one_province(db: &Database, id: i64) -> (response: Response)
    ensures
        exists|outcome: Result<Option<Province>, DatabaseError>|
            {
                &&& outcome is Err ==> outcome->Err_0 is SQLiteError
                &&& outcome matches Ok(Some(found)) ==> read_from::<Province>(
                    keyed(SELECT_PROVINCE_BY_ID, id),
                    found@,
                )
                &&& #[trigger] answers_lookup(
                    response,
                    outcome,
                    PROVINCE_NOT_FOUND@,
                    FETCH_PROVINCE_FAILED@,
                )
            },
{
    let outcome = db.get_one_province(id);
    let ghost reported = outcome;
    let response = respond_lookup(outcome, PROVINCE_NOT_FOUND, FETCH_PROVINCE_FAILED);
    assert(answers_lookup(response, reported, PROVINCE_NOT_FOUND@, FETCH_PROVINCE_FAILED@));
    response
}

/// Looks up one regency: 200 with the regency, 404 where there is none, or 500
/// with the failure.
pub fn get_one_regency(db: &Database, id: i64) -> (response: Response)
    ensures
        exists|outcome: Result<Option<Regency>, DatabaseError>|
            {
                &&& outcome is Err ==> outcome->Err_0 is SQLiteError
                &&& outcome matches Ok(Some(found)) ==> read_from::<Regency>(
                    keyed(SELECT_REGENCY_BY_ID, id),
                    found@,
                )
                &&& #[trigger] answers_lookup(
                    response,
                    outcome,
                    REGENCY_NOT_FOUND@,
                    FETCH_REGENCY_FAILED@,
                )
            },
{
    let outcome = db.get_one_regency(id);
    let ghost reported = outcome;
    let response = respond_lookup(outcome, REGENCY_NOT_FOUND, FETCH_REGENCY_FAILED);
    assert(answers_lookup(response, reported, REGENCY_NOT_FOUND@, FETCH_REGENCY_FAILED@));
    response
}

/// Looks up one district: 200 with the district, 404 where there is none, or 500
/// with the failure.
pub fn get_one_district(db: &Database, id: i64) -> (response: Response)
    ensures
        exists|outcome: Result<Option<District>, DatabaseError>|
            {
                &&& outcome is Err ==> outcome->Err_0 is SQLiteError
                &&& outcome matches Ok(Some(found)) ==> read_from::<District>(
                    keyed(SELECT_DISTRICT_BY_ID, id),
                    found@,
                )
                &&& #[trigger] answers_lookup(
                    response,
                    outcome,
                    DISTRICT_NOT_FOUND@,
                    FETCH_DISTRICT_FAILED@,
                )
            },
{
    let outcome = db.get_one_district(id);
    let ghost reported = outcome;
    let response = respond_lookup(outcome, DISTRICT_NOT_FOUND, FETCH_DISTRICT_FAILED);
    assert(answers_lookup(response, reported, DISTRICT_NOT_FOUND@, FETCH_DISTRICT_FAILED@));
    response
}

/// Looks up one village: 200 with the village, 404 where there is none, or 500
/// with the failure.
pub fn get_one_village(db: &Database, id: i64) -> (response: Response)
    ensures
        exists|outcome: Result<Option<Village>, DatabaseError>|
            {
                &&& outcome is Err ==> outcome->Err_0 is SQLiteError
                &&& outcome matches Ok(Some(found)) ==> read_from::<Village>(
                    keyed(SELECT_VILLAGE_BY_ID, id),
                    found@,
                )
                &&& #[trigger] answers_lookup(
                    response,
                    outcome,
                    VILLAGE_NOT_FOUND@,
                    FETCH_VILLAGE_FAILED@,
                )
            },
{
    let outcome = db.get_one_village(id);
    let ghost reported = outcome;
    let response = respond_lookup(outcome, VILLAGE_NOT_FOUND, FETCH_VILLAGE_FAILED);
    assert(answers_lookup(response, reported, VILLAGE_NOT_FOUND@, FETCH_VILLAGE_FAILED@));
    response
}

/// Stores a new province: 201 with the new key, or 500 with the failure.
pub fn create_province(db: &Database, province: &Province) -> (response: Response)
    ensures
        exists|outcome: Result<i64, DatabaseError>|
            {
                &&& outcome is Err ==> outcome->Err_0 is SQLiteError
                &&& #[trigger] answers_creation(response, outcome, CREATE_PROVINCE_FAILED@)
            },
{
    let outcome = db.create_province(province);
    let ghost reported = outcome;
    let response = respond_creation(outcome, CREATE_PROVINCE_FAILED);
    assert(answers_creation(response, reported, CREATE_PROVINCE_FAILED@));
    response
}

/// Stores a new regency: 201 with the new key, or 500 with the failure.
pub fn create_regency(db: &Database, regency: &Regency) -> (response: Response)
    ensures
        exists|outcome: Result<i64, DatabaseError>|
            {
                &&& outcome is Err ==> outcome->Err_0 is SQLiteError
                &&& #[trigger] answers_creation(response, outcome, CREATE_REGENCY_FAILED@)
            },
{
    let outcome = db.create_regency(regency);
    let ghost reported = outcome;
    let response = respond_creation(outcome, CREATE_REGENCY_FAILED);
    assert(answers_creation(response, reported, CREATE_REGENCY_FAILED@));
    response
}

/// Stores a new district: 201 with the new key, or 500 with the failure.
pub fn create_district(db: &Database, district: &District) -> (response: Response)
    ensures
        exists|outcome: Result<i64, DatabaseError>|
            {
                &&& outcome is Err ==> outcome->Err_0 is SQLiteError
                &&& #[trigger] answers_creation(response, outcome, CREATE_DISTRICT_FAILED@)
            },
{
    let outcome = db.create_district(district);
    let ghost reported = outcome;
    let response = respond_creation(outcome, CREATE_DISTRICT_FAILED);
    assert(answers_creation(response, reported, CREATE_DISTRICT_FAILED@));
    response
}

/// Stores a new village: 201 with the new key, or 500 with the failure.
pub fn create_village(db: &Database, village: &Village) -> (response: Response)
    ensures
        exists|outcome: Result<i64, DatabaseError>|
            {
                &&& outcome is Err ==> outcome->Err_0 is SQLiteError
                &&& #[trigger] answers_creation(response, outcome, CREATE_VILLAGE_FAILED@)
            },
{
    let outcome = db.create_village(village);
    let ghost reported = outcome;
    let response = respond_creation(outcome, CREATE_VILLAGE_FAILED);
    assert(answers_creation(response, reported, CREATE_VILLAGE_FAILED@));
    response
}

/// Rewrites one province: 204 with no body, or 500 with the failure. A province
/// that is not stored is such a failure.
pub fn update_province(db: &Database, id: i64, province: &Province) -> (response: Response)
    ensures
        exists|outcome: Result<(), DatabaseError>| #[trigger]
            answers_write(response, outcome, UPDATE_PROVINCE_FAILED@),
{
    let outcome = db.update_province(id, province);
    let ghost reported = outcome;
    let response = respond_write(outcome, UPDATE_PROVINCE_FAILED);
    assert(answers_write(response, reported, UPDATE_PROVINCE_FAILED@));
    response
}

/// Rewrites one regency: 204 with no body, or 500 with the failure. A regency
/// that is not stored is such a failure.
pub fn update_regency(db: &Database, id: i64, regency: &Regency) -> (response: Response)
    ensures
        exists|outcome: Result<(), DatabaseError>| #[trigger]
            answers_write(response, outcome, UPDATE_REGENCY_FAILED@),
{
    let outcome = db.update_regency(id, regency);
    let ghost reported = outcome;
    let response = respond_write(outcome, UPDATE_REGENCY_FAILED);
    assert(answers_write(response, reported, UPDATE_REGENCY_FAILED@));
    response
}

/// Rewrites one district: 204 with no body, or 500 with the failure. A district
/// that is not stored is such a failure.
pub fn update_district(db: &Database, id: i64, district: &District) -> (response: Response)
    ensures
        exists|outcome: Result<(), DatabaseError>| #[trigger]
            answers_write(response, outcome, UPDATE_DISTRICT_FAILED@),
{
    let outcome = db.update_district(id, district);
    let ghost reported = outcome;
    let response = respond_write(outcome, UPDATE_DISTRICT_FAILED);
    assert(answers_write(response, reported, UPDATE_DISTRICT_FAILED@));
    response
}

/// Rewrites one village: 204 with no body, or 500 with the failure. A village
/// that is not stored is such a failure.
pub fn update_village(db: &Database, id: i64, village: &Village) -> (response: Response)
    ensures
        exists|outcome: Result<(), DatabaseError>| #[trigger]
            answers_write(response, outcome, UPDATE_VILLAGE_FAILED@),
{
    let outcome = db.update_village(id, village);
    let ghost reported = outcome;
    let response = respond_write(outcome, UPDATE_VILLAGE_FAILED);
    assert(answers_write(response, reported, UPDATE_VILLAGE_FAILED@));
    response
}

/// Removes one province: 204 with no body, or 500 with the failure. A province
/// that is not stored is such a failure.
pub fn delete_province(db: &Database, id: i64) -> (response: Response)
    ensures
        exists|outcome: Result<(), DatabaseError>| #[trigger]
            answers_write(response, outcome, DELETE_PROVINCE_FAILED@),
{
    let outcome = db.delete_province(id);
    let ghost reported = outcome;
    let response = respond_write(outcome, DELETE_PROVINCE_FAILED);
    assert(answers_write(response, reported, DELETE_PROVINCE_FAILED@));
    response
}

/// Removes one regency: 204 with no body, or 500 with the failure. A regency
/// that is not stored is such a failure.
pub fn delete_regency(db: &Database, id: i64) -> (response: Response)
    ensures
        exists|outcome: Result<(), DatabaseError>| #[trigger]
            answers_write(response, outcome, DELETE_REGENCY_FAILED@),
{
    let outcome = db.delete_regency(id);
    let ghost reported = outcome;
    let response = respond_write(outcome, DELETE_REGENCY_FAILED);
    assert(answers_write(response, reported, DELETE_REGENCY_FAILED@));
    response
}

/// Removes one district: 204 with no body, or 500 with the failure. A district
/// that is not stored is such a failure.
pub fn delete_district(db: &Database, id: i64) -> (response: Response)
    ensures
        exists|outcome: Result<(), DatabaseError>| #[trigger]
            answers_write(response, outcome, DELETE_DISTRICT_FAILED@),
{
    let outcome = db.delete_district(id);
    let ghost reported = outcome;
    let response = respond_write(outcome, DELETE_DISTRICT_FAILED);
    assert(answers_write(response, reported, DELETE_DISTRICT_FAILED@));
    response
}

/// Removes one village: 204 with no body, or 500 with the failure. A village
/// that is not stored is such a failure.
pub fn delete_village(db: &Database, id: i64) -> (response: Response)
    ensures
        exists|outcome: Result<(), DatabaseError>| #[trigger]
            answers_write(response, outcome, DELETE_VILLAGE_FAILED@),
{
    let outcome = db.delete_village(id);
    let ghost reported = outcome;
    let response = respond_write(outcome, DELETE_VILLAGE_FAILED);
    assert(answers_write(response, reported, DELETE_VILLAGE_FAILED@));
    response
}

/// Lists the regencies of a province: 200 with the list, which may be empty,
/// or 500 with the failure.
pub fn get_regencies_by_province(db: &Database, province_id: i64) -> (response: Response)
    ensures
        exists|outcome: Result<Vec<Regency>, DatabaseError>|
            {
                &&& outcome is Err ==> outcome->Err_0 is SQLiteError
                &&& outcome matches Ok(found) ==> all_read_from::<Regency>(
                    keyed(SELECT_REGENCIES_BY_PROVINCE, province_id),
                    found@,
                )
                &&& #[trigger] answers_list(response, outcome, FETCH_REGENCIES_FAILED@)
            },
{
    let outcome = db.get_regencies_by_province(province_id);
    let ghost reported = outcome;
    let response = respond_list(outcome, FETCH_REGENCIES_FAILED);
    assert(answers_list(response, reported, FETCH_REGENCIES_FAILED@));
    response
}

/// Lists the districts of a regency: 200 with the list, which may be empty,
/// or 500 with the failure.
pub fn get_districts_by_regency(db: &Database, regency_id: i64) -> (response: Response)
    ensures
        exists|outcome: Result<Vec<District>, DatabaseError>|
            {
                &&& outcome is Err ==> outcome->Err_0 is SQLiteError
                &&& outcome matches Ok(found) ==> all_read_from::<District>(
                    keyed(SELECT_DISTRICTS_BY_REGENCY, regency_id),
                    found@,
                )
                &&& #[trigger] answers_list(response, outcome, FETCH_DISTRICTS_FAILED@)
            },
{
    let outcome = db.get_districts_by_regency(regency_id);
    let ghost reported = outcome;
    let response = respond_list(outcome, FETCH_DISTRICTS_FAILED);
    assert(answers_list(response, reported, FETCH_DISTRICTS_FAILED@));
    response
}

/// Lists the villages of a district: 200 with the list, which may be empty,
/// or 500 with the failure.
pub fn get_villages_by_district(db: &Database, district_id: i64) -> (response: Response)
    ensures
        exists|outcome: Result<Vec<Village>, DatabaseError>|
            {
                &&& outcome is Err ==> outcome->Err_0 is SQLiteError
                &&& outcome matches Ok(found) ==> all_read_from::<Village>(
                    keyed(SELECT_VILLAGES_BY_DISTRICT, district_id),
                    found@,
                )
                &&& #[trigger] answers_list(response, outcome, FETCH_VILLAGES_FAILED@)
            },
{
    let outcome = db.get_villages_by_district(district_id);
    let ghost reported = outcome;
    let response = respond_list(outcome, FETCH_VILLAGES_FAILED);
    assert(answers_list(response, reported, FETCH_VILLAGES_FAILED@));
    response
}

/// Looks up a village with all of its ancestors: 200 with the record, 404
/// where the village or a link above it is missing, or 500 with the failure.
pub fn get_full_admin_data(db: &Database, village_id: i64) -> (response: Response)
    ensures
        exists|outcome: Result<Option<FullAdminData>, DatabaseError>|
            {
                &&& outcome is Err ==> outcome->Err_0 is SQLiteError
                &&& outcome matches Ok(Some(found)) ==> read_from::<FullAdminData>(
                    keyed(SELECT_FULL_ADMIN_DATA_BY_VILLAGE, village_id),
                    found@,
                )
                &&& #[trigger] answers_lookup(
                    response,
                    outcome,
                    VILLAGE_NOT_FOUND@,
                    FETCH_ADMIN_DATA_FAILED@,
                )
            },
{
    let outcome = db.get_full_admin_data(village_id);
    let ghost reported = outcome;
    let response = respond_lookup(outcome, VILLAGE_NOT_FOUND, FETCH_ADMIN_DATA_FAILED);
    assert(answers_lookup(response, reported, VILLAGE_NOT_FOUND@, FETCH_ADMIN_DATA_FAILED@));
    response
}

} // verus!
