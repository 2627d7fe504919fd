use wilayah::db::{Database, DatabaseError};
use wilayah::models::{District, FullAdminData, Province, Regency, Village};

const SCHEMA: &str = "
    DROP TABLE IF EXISTS villages;
    DROP TABLE IF EXISTS districts;
    DROP TABLE IF EXISTS regencies;
    DROP TABLE IF EXISTS provinces;
    CREATE TABLE provinces (
        id INTEGER PRIMARY KEY AUTOINCREMENT,
        code TEXT NOT NULL,
        name TEXT NOT NULL
    );
    CREATE TABLE regencies (
        id INTEGER PRIMARY KEY AUTOINCREMENT,
        code TEXT NOT NULL,
        name TEXT NOT NULL,
        province_id INTEGER REFERENCES provinces (id)
    );
    CREATE TABLE districts (
        id INTEGER PRIMARY KEY AUTOINCREMENT,
        code TEXT NOT NULL,
        name TEXT NOT NULL,
        regency_id INTEGER REFERENCES regencies (id)
    );
    CREATE TABLE villages (
        id INTEGER PRIMARY KEY AUTOINCREMENT,
        code TEXT NOT NULL,
        name TEXT NOT NULL,
        district_id INTEGER REFERENCES districts (id)
    );
";

/// Opens a fresh store named `name` that lives in memory for as long as the
/// returned connection is open.
fn open_store(name: &str) -> (rusqlite::Connection, Database) {
    let path = format!("file:{}?mode=memory&cache=shared", name);
    let keeper = rusqlite::Connection::open(&path).unwrap();
    keeper.execute_batch(SCHEMA).unwrap();
    let db = Database::new(&path).unwrap();
    (keeper, db)
}

fn province(code: &str, name: &str) -> Province {
    Province { id: None, code: code.to_string(), name: name.to_string() }
}

fn regency(code: &str, name: &str, province_id: Option<i64>) -> Regency {
    Regency { id: None, code: code.to_string(), name: name.to_string(), province_id }
}

fn district(code: &str, name: &str, regency_id: Option<i64>) -> District {
    District { id: None, code: code.to_string(), name: name.to_string(), regency_id }
}

fn village(code: &str, name: &str, district_id: Option<i64>) -> Village {
    Village { id: None, code: code.to_string(), name: name.to_string(), district_id }
}

fn is_not_found<T>(outcome: &Result<T, DatabaseError>) -> bool {
    matches!(outcome, Err(DatabaseError::NotFound))
}

fn is_store_failure<T>(outcome: &Result<T, DatabaseError>) -> bool {
    matches!(outcome, Err(DatabaseError::SQLiteError(_)))
}

#[test]
fn create_then_get_returns_the_input_with_its_key() {
    let (_keeper, db) = open_store("create_then_get");

    let id = db.create_province(&province("11", "ACEH")).unwrap();
    assert_eq!(
        db.get_one_province(id).unwrap(),
        Some(Province { id: Some(id), code: "11".to_string(), name: "ACEH".to_string() })
    );

    let id = db.create_regency(&regency("1101", "ACEH SELATAN", Some(7))).unwrap();
    assert_eq!(
        db.get_one_regency(id).unwrap(),
        Some(Regency {
            id: Some(id),
            code: "1101".to_string(),
            name: "ACEH SELATAN".to_string(),
            province_id: Some(7),
        })
    );

    let id = db.create_district(&district("110101", "BAKONGAN", Some(9))).unwrap();
    assert_eq!(
        db.get_one_district(id).unwrap(),
        Some(District {
            id: Some(id),
            code: "110101".to_string(),
            name: "BAKONGAN".to_string(),
            regency_id: Some(9),
        })
    );

    let id = db.create_village(&village("1101012001", "KEUDE BAKONGAN", Some(3))).unwrap();
    assert_eq!(
        db.get_one_village(id).unwrap(),
        Some(Village {
            id: Some(id),
            code: "1101012001".to_string(),
            name: "KEUDE BAKONGAN".to_string(),
            district_id: Some(3),
        })
    );
}

#[test]
fn create_ignores_the_id_of_its_input() {
    let (_keeper, db) = open_store("create_ignores_id");
    let input = Province { id: Some(500), code: "11".to_string(), name: "ACEH".to_string() };
    let id = db.create_province(&input).unwrap();
    assert_eq!(id, 1);
    assert_eq!(db.get_one_province(500).unwrap(), None);
}

#[test]
fn keys_are_assigned_in_rising_order_per_table() {
    let (_keeper, db) = open_store("rising_keys");
    assert_eq!(db.create_province(&province("11", "ACEH")).unwrap(), 1);
    assert_eq!(db.create_province(&province("12", "SUMATERA UTARA")).unwrap(), 2);
    assert_eq!(db.create_regency(&regency("1101", "ACEH SELATAN", Some(1))).unwrap(), 1);
    db.delete_province(2).unwrap();
    assert_eq!(db.create_province(&province("13", "SUMATERA BARAT")).unwrap(), 3);
}

#[test]
fn duplicates_of_code_and_name_are_stored() {
    let (_keeper, db) = open_store("duplicates");
    let first = db.create_province(&province("11", "ACEH")).unwrap();
    let second = db.create_province(&province("11", "ACEH")).unwrap();
    assert_ne!(first, second);
    assert_eq!(db.get_all_provinces().unwrap().len(), 2);
}

#[test]
fn a_parent_key_may_be_absent_or_dangling() {
    let (_keeper, db) = open_store("dangling_parent");
    let orphan = db.create_regency(&regency("1101", "ACEH SELATAN", None)).unwrap();
    assert_eq!(db.get_one_regency(orphan).unwrap().unwrap().province_id, None);
    let dangling = db.create_regency(&regency("1102", "ACEH TENGGARA", Some(99))).unwrap();
    assert_eq!(db.get_one_regency(dangling).unwrap().unwrap().province_id, Some(99));
}

#[test]
fn unknown_keys_are_absent_for_reads_and_not_found_for_writes() {
    let (_keeper, db) = open_store("unknown_keys");

    assert_eq!(db.get_one_province(1).unwrap(), None);
    assert!(is_not_found(&db.update_province(1, &province("11", "ACEH"))));
    assert!(is_not_found(&db.delete_province(1)));

    assert_eq!(db.get_one_regency(1).unwrap(), None);
    assert!(is_not_found(&db.update_regency(1, &regency("1101", "X", Some(1)))));
    assert!(is_not_found(&db.delete_regency(1)));

    assert_eq!(db.get_one_district(1).unwrap(), None);
    assert!(is_not_found(&db.update_district(1, &district("110101", "X", Some(1)))));
    assert!(is_not_found(&db.delete_district(1)));

    assert_eq!(db.get_one_village(1).unwrap(), None);
    assert!(is_not_found(&db.update_village(1, &village("1101012001", "X", Some(1)))));
    assert!(is_not_found(&db.delete_village(1)));

    assert_eq!(db.get_one_province(-4).unwrap(), None);
    assert!(is_not_found(&db.delete_province(i64::MAX)));
}

#[test]
fn deleted_keys_are_absent_for_reads_and_not_found_for_writes() {
    let (_keeper, db) = open_store("deleted_keys");
    let id = db.create_village(&village("1101012001", "KEUDE BAKONGAN", Some(1))).unwrap();
    db.delete_village(id).unwrap();
    assert_eq!(db.get_one_village(id).unwrap(), None);
    assert!(is_not_found(&db.update_village(id, &village("1", "X", None))));
    assert!(is_not_found(&db.delete_village(id)));
}

#[test]
fn update_rewrites_every_field_but_the_key() {
    let (_keeper, db) = open_store("update_rewrites");

    let id = db.create_province(&province("11", "ACEH")).unwrap();
    let change = Province { id: Some(77), code: "12".to_string(), name: "SUMATERA".to_string() };
    db.update_province(id, &change).unwrap();
    assert_eq!(
        db.get_one_province(id).unwrap(),
        Some(Province { id: Some(id), code: "12".to_string(), name: "SUMATERA".to_string() })
    );
    assert_eq!(db.get_one_province(77).unwrap(), None);

    let id = db.create_regency(&regency("1101", "ACEH SELATAN", Some(1))).unwrap();
    db.update_regency(id, &regency("1201", "NIAS", Some(2))).unwrap();
    assert_eq!(
        db.get_one_regency(id).unwrap(),
        Some(Regency {
            id: Some(id),
            code: "1201".to_string(),
            name: "NIAS".to_string(),
            province_id: Some(2),
        })
    );

    let id = db.create_district(&district("110101", "BAKONGAN", Some(1))).unwrap();
    db.update_district(id, &district("110102", "KLUET UTARA", None)).unwrap();
    assert_eq!(
        db.get_one_district(id).unwrap(),
        Some(District {
            id: Some(id),
            code: "110102".to_string(),
            name: "KLUET UTARA".to_string(),
            regency_id: None,
        })
    );

    let id = db.create_village(&village("1101012001", "KEUDE BAKONGAN", Some(1))).unwrap();
    db.update_village(id, &village("1101012002", "UJUNG MANGKI", Some(5))).unwrap();
    assert_eq!(
        db.get_one_village(id).unwrap(),
        Some(Village {
            id: Some(id),
            code: "1101012002".to_string(),
            name: "UJUNG MANGKI".to_string(),
            district_id: Some(5),
        })
    );
}

#[test]
fn update_with_the_stored_values_succeeds() {
    let (_keeper, db) = open_store("update_same");
    let id = db.create_province(&province("11", "ACEH")).unwrap();
    assert!(db.update_province(id, &province("11", "ACEH")).is_ok());
    assert!(db.update_province(id, &province("11", "ACEH")).is_ok());
}

#[test]
fn update_leaves_other_rows_alone() {
    let (_keeper, db) = open_store("update_others");
    let first = db.create_province(&province("11", "ACEH")).unwrap();
    let second = db.create_province(&province("12", "SUMATERA UTARA")).unwrap();
    db.update_province(first, &province("13", "SUMATERA BARAT")).unwrap();
    assert_eq!(db.get_one_province(second).unwrap().unwrap().code, "12");
}

#[test]
fn delete_removes_the_row_and_a_second_delete_finds_nothing() {
    let (_keeper, db) = open_store("delete_twice");

    let id = db.create_province(&province("11", "ACEH")).unwrap();
    assert!(db.delete_province(id).is_ok());
    assert_eq!(db.get_one_province(id).unwrap(), None);
    assert!(is_not_found(&db.delete_province(id)));

    let id = db.create_regency(&regency("1101", "ACEH SELATAN", Some(1))).unwrap();
    assert!(db.delete_regency(id).is_ok());
    assert_eq!(db.get_one_regency(id).unwrap(), None);
    assert!(is_not_found(&db.delete_regency(id)));

    let id = db.create_district(&district("110101", "BAKONGAN", Some(1))).unwrap();
    assert!(db.delete_district(id).is_ok());
    assert_eq!(db.get_one_district(id).unwrap(), None);
    assert!(is_not_found(&db.delete_district(id)));

    let id = db.create_village(&village("1101012001", "KEUDE BAKONGAN", Some(1))).unwrap();
    assert!(db.delete_village(id).is_ok());
    assert_eq!(db.get_one_village(id).unwrap(), None);
    assert!(is_not_found(&db.delete_village(id)));
}

#[test]
fn delete_of_a_parent_leaves_its_children() {
    let (_keeper, db) = open_store("no_cascade");
    let p = db.create_province(&province("11", "ACEH")).unwrap();
    let r = db.create_regency(&regency("1101", "ACEH SELATAN", Some(p))).unwrap();
    db.delete_province(p).unwrap();
    assert_eq!(db.get_one_regency(r).unwrap().unwrap().province_id, Some(p));
    assert_eq!(db.get_regencies_by_province(p).unwrap().len(), 1);
}

#[test]
fn list_all_provinces_gives_every_row() {
    let (_keeper, db) = open_store("list_all");
    assert_eq!(db.get_all_provinces().unwrap(), Vec::<Province>::new());
    let a = db.create_province(&province("11", "ACEH")).unwrap();
    let b = db.create_province(&province("12", "SUMATERA UTARA")).unwrap();
    let mut listed = db.get_all_provinces().unwrap();
    listed.sort_by_key(|p| p.id);
    assert_eq!(
        listed,
        vec![
            Province { id: Some(a), code: "11".to_string(), name: "ACEH".to_string() },
            Province { id: Some(b), code: "12".to_string(), name: "SUMATERA UTARA".to_string() },
        ]
    );
}

#[test]
fn list_by_parent_gives_the_children_of_that_parent_only() {
    let (_keeper, db) = open_store("list_by_parent");

    let r1 = db.create_regency(&regency("1101", "ACEH SELATAN", Some(1))).unwrap();
    let r2 = db.create_regency(&regency("1201", "NIAS", Some(2))).unwrap();
    let r3 = db.create_regency(&regency("1102", "ACEH TENGGARA", Some(1))).unwrap();
    let _ = db.create_regency(&regency("0000", "NOWHERE", None)).unwrap();
    let mut of_one: Vec<i64> =
        db.get_regencies_by_province(1).unwrap().iter().map(|r| r.id.unwrap()).collect();
    of_one.sort();
    assert_eq!(of_one, vec![r1, r3]);
    let of_two = db.get_regencies_by_province(2).unwrap();
    assert_eq!(
        of_two,
        vec![Regency {
            id: Some(r2),
            code: "1201".to_string(),
            name: "NIAS".to_string(),
            province_id: Some(2),
        }]
    );
    assert_eq!(db.get_regencies_by_province(3).unwrap(), Vec::<Regency>::new());

    let d1 = db.create_district(&district("110101", "BAKONGAN", Some(r1))).unwrap();
    let _ = db.create_district(&district("120101", "IDANO GAWO", Some(r2))).unwrap();
    assert_eq!(
        db.get_districts_by_regency(r1).unwrap(),
        vec![District {
            id: Some(d1),
            code: "110101".to_string(),
            name: "BAKONGAN".to_string(),
            regency_id: Some(r1),
        }]
    );
    assert_eq!(db.get_districts_by_regency(r3).unwrap(), Vec::<District>::new());

    let v1 = db.create_village(&village("1101012001", "KEUDE BAKONGAN", Some(d1))).unwrap();
    let v2 = db.create_village(&village("1101012002", "UJUNG MANGKI", Some(d1))).unwrap();
    let _ = db.create_village(&village("1201012001", "ELSEWHERE", Some(d1 + 1))).unwrap();
    let mut of_d1: Vec<i64> =
        db.get_villages_by_district(d1).unwrap().iter().map(|v| v.id.unwrap()).collect();
    of_d1.sort();
    assert_eq!(of_d1, vec![v1, v2]);
    assert_eq!(db.get_villages_by_district(-1).unwrap(), Vec::<Village>::new());
}

#[test]
fn full_admin_data_follows_the_chain_in_fixed_field_order() {
    let (_keeper, db) = open_store("full_chain");
    assert_eq!(db.create_province(&province("11", "ACEH")).unwrap(), 1);
    assert_eq!(db.create_regency(&regency("1101", "ACEH SELATAN", Some(1))).unwrap(), 1);
    assert_eq!(db.create_district(&district("110101", "BAKONGAN", Some(1))).unwrap(), 1);
    assert_eq!(
        db.create_village(&village("1101012001", "KEUDE BAKONGAN", Some(1))).unwrap(),
        1
    );
    assert_eq!(
        db.get_full_admin_data(1).unwrap(),
        Some(FullAdminData {
            province_code: "11".to_string(),
            province_name: "ACEH".to_string(),
            city_code: "1101".to_string(),
            city_name: "ACEH SELATAN".to_string(),
            region_code: "110101".to_string(),
            region_name: "BAKONGAN".to_string(),
            village_code: "1101012001".to_string(),
            village_name: "KEUDE BAKONGAN".to_string(),
        })
    );
}

#[test]
fn full_admin_data_picks_the_ancestors_of_the_village_asked_for() {
    let (_keeper, db) = open_store("full_chain_pick");
    let p1 = db.create_province(&province("11", "ACEH")).unwrap();
    let p2 = db.create_province(&province("12", "SUMATERA UTARA")).unwrap();
    let _r1 = db.create_regency(&regency("1101", "ACEH SELATAN", Some(p1))).unwrap();
    let r2 = db.create_regency(&regency("1201", "NIAS", Some(p2))).unwrap();
    let d = db.create_district(&district("120101", "IDANO GAWO", Some(r2))).unwrap();
    let _v1 = db.create_village(&village("1201012001", "FIRST", Some(d))).unwrap();
    let v2 = db.create_village(&village("1201012002", "SECOND", Some(d))).unwrap();
    let data = db.get_full_admin_data(v2).unwrap().unwrap();
    assert_eq!(data.province_code, "12");
    assert_eq!(data.province_name, "SUMATERA UTARA");
    assert_eq!(data.city_code, "1201");
    assert_eq!(data.city_name, "NIAS");
    assert_eq!(data.region_code, "120101");
    assert_eq!(data.region_name, "IDANO GAWO");
    assert_eq!(data.village_code, "1201012002");
    assert_eq!(data.village_name, "SECOND");
}

#[test]
fn full_admin_data_is_absent_where_a_link_is_missing() {
    let (_keeper, db) = open_store("full_chain_broken");
    assert_eq!(db.get_full_admin_data(1).unwrap(), None);

    let p = db.create_province(&province("11", "ACEH")).unwrap();
    let r = db.create_regency(&regency("1101", "ACEH SELATAN", Some(p))).unwrap();
    let d = db.create_district(&district("110101", "BAKONGAN", Some(r))).unwrap();
    let v = db.create_village(&village("1101012001", "KEUDE BAKONGAN", Some(d))).unwrap();
    assert!(db.get_full_admin_data(v).unwrap().is_some());

    db.delete_district(d).unwrap();
    assert_eq!(db.get_full_admin_data(v).unwrap(), None);

    let d2 = db.create_district(&district("110102", "KLUET UTARA", Some(r))).unwrap();
    db.update_village(v, &village("1101012001", "KEUDE BAKONGAN", Some(d2))).unwrap();
    assert!(db.get_full_admin_data(v).unwrap().is_some());
    db.delete_province(p).unwrap();
    assert_eq!(db.get_full_admin_data(v).unwrap(), None);

    let lone = db.create_village(&village("9", "LONE", None)).unwrap();
    assert_eq!(db.get_full_admin_data(lone).unwrap(), None);
}

#[test]
fn clones_share_the_one_connection() {
    let (_keeper, db) = open_store("clones");
    let other = db.clone();
    let id = db.create_province(&province("11", "ACEH")).unwrap();
    assert_eq!(other.get_one_province(id).unwrap().unwrap().name, "ACEH");
    other.delete_province(id).unwrap();
    assert_eq!(db.get_one_province(id).unwrap(), None);
}

#[test]
fn a_store_without_tables_fails_every_operation() {
    let db = Database::new("file:no_tables?mode=memory&cache=shared").unwrap();
    assert!(is_store_failure(&db.get_all_provinces()));
    assert!(is_store_failure(&db.get_one_province(1)));
    assert!(is_store_failure(&db.create_province(&province("11", "ACEH"))));
    assert!(is_store_failure(&db.update_province(1, &province("11", "ACEH"))));
    assert!(is_store_failure(&db.delete_province(1)));
    assert!(is_store_failure(&db.get_regencies_by_province(1)));
    assert!(is_store_failure(&db.get_districts_by_regency(1)));
    assert!(is_store_failure(&db.get_villages_by_district(1)));
    assert!(is_store_failure(&db.get_full_admin_data(1)));
}

#[test]
fn a_store_that_cannot_be_opened_is_a_store_failure() {
    let outcome = Database::new("/this/directory/does/not/exist/store.db");
    assert!(matches!(outcome, Err(DatabaseError::SQLiteError(_))));
}

#[test]
fn a_column_of_the_wrong_kind_is_a_store_failure() {
    let (keeper, db) = open_store("wrong_kind");
    keeper
        .execute_batch(
            "DROP TABLE provinces;
             CREATE TABLE provinces (id INTEGER PRIMARY KEY, code, name);
             INSERT INTO provinces (id, code, name) VALUES (1, 11, 'ACEH');
             INSERT INTO provinces (id, code, name) VALUES (2, '12', NULL);",
        )
        .unwrap();
    assert!(is_store_failure(&db.get_one_province(1)));
    assert!(is_store_failure(&db.get_one_province(2)));
    assert!(is_store_failure(&db.get_all_provinces()));
}
