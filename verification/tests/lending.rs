use qr_backend::database::fixtures::{insert_fixtures, update_fixtures, IdType as ItemKey};
use qr_backend::database::lending::{
    get_is_lending, get_lending_list, get_one_lending, insert_lending, lend_commit, lend_guard,
    lending_status, return_key_of_item, return_lookup, returned_lending, Commit, IdType,
    IdType::{FixturesId, LendingId, QrId},
    LendingTable,
};
use qr_backend::database::Database;
use qr_backend::error_handling::{Conflict, ErrorKind, QrError};
use qr_backend::identifier::parse_id;
use qr_backend::{Fixtures, Lending, QrColor, Stroge};

const T0: i64 = 1_691_423_795_000_000;

fn uuid(text: &str) -> u128 {
    parse_id(text).unwrap()
}

fn lending(id: u128, fixtures_id: u128, qr: &str) -> Lending {
    Lending {
        id,
        fixtures_id,
        fixtures_qr_id: qr.to_string(),
        spot_name: "test".to_string(),
        lending_at: T0,
        returned_at: None,
        borrower_name: "test".to_string(),
        borrower_number: 202200000,
        borrower_org: Some("jsys".to_string()),
    }
}

fn item(id: u128, qr: &str) -> Fixtures {
    Fixtures {
        id,
        created_at: T0,
        qr_id: qr.to_string(),
        qr_color: QrColor::Red,
        name: "テスト物品".to_string(),
        description: Some("テスト説明".to_string()),
        model_number: None,
        storage: Stroge::Room101,
        usage: Some("無い".to_string()),
        usage_season: None,
        note: "DBを確認".to_string(),
        parent_id: "null".to_string(),
    }
}

#[test]
fn insert_lending_test_insert_spot_sql() {
    let mut pool = Database::new();
    let id = uuid("550e8400-e29b-41d4-a716-446655440000");
    let id2 = uuid("550e8400-e29b-41d4-a716-446655440001");
    let fixtures_id = uuid("550e8400-e29b-41d4-a716-446655440002");
    let fixtures_id2 = uuid("550e8400-e29b-41d4-a716-446655440003");
    let res = insert_lending(&mut pool, lending(id, fixtures_id, "x234"));
    assert!(res.is_ok());

    // the same identifier once more
    let res2 = insert_lending(&mut pool, lending(id, fixtures_id2, "x235"));
    assert!(res2.is_err());
    assert_eq!(res2, Err(QrError::AlreadyExists));

    // the same item once more
    let res2 = insert_lending(&mut pool, lending(id2, fixtures_id, "x236"));
    assert!(res2.is_err());
    assert_eq!(res2, Err(QrError::AlreadyLent));

    // another identifier and another item under the same QR code
    let res2 = insert_lending(&mut pool, lending(id2, fixtures_id2, "x234"));
    assert!(res2.is_err());
    assert_eq!(res2, Err(QrError::AlreadyLent));

    // everything new
    let res2 = insert_lending(&mut pool, lending(id2, fixtures_id2, "x237"));
    assert!(res2.is_ok());
    assert_eq!(pool.lending.len(), 2);
}

#[test]
fn get_one_lending_test_insert_spot_sql() {
    let mut pool = Database::new();
    let id = uuid("550e8400-e29b-41d4-a716-446655440000");
    let fixtures_id = uuid("550e8400-e29b-41d4-a716-446655440001");
    let dummy_fixtures_id = uuid("550e8400-e29b-41d4-a716-446655440002");
    insert_lending(&mut pool, lending(id, fixtures_id, "x234")).unwrap();

    let result = get_one_lending(&pool, LendingId(id));
    assert!(result.is_ok());

    let result = get_one_lending(&pool, FixturesId(fixtures_id));
    assert!(result.is_ok());
    assert_eq!(result.unwrap(), lending(id, fixtures_id, "x234"));

    let result = get_one_lending(&pool, QrId("x234".to_string()));
    assert!(result.is_ok());

    let result = get_one_lending(&pool, FixturesId(dummy_fixtures_id));
    assert!(result.is_err());
    assert_eq!(
        result,
        Err(QrError::DatabaseNotFound("550e8400-e29b-41d4-a716-446655440002".to_string()))
    );

    let result = get_one_lending(&pool, QrId("x235".to_string()));
    assert!(result.is_err());
    assert_eq!(result, Err(QrError::DatabaseNotFound("x235".to_string())));
}

#[test]
fn get_lending_list_test_insert_spot_sql() {
    let mut pool = Database::new();
    let mut info = lending(
        uuid("550e8400-e29b-41d4-a716-446655440000"),
        uuid("550e8400-e29b-41d4-a716-446655440001"),
        "q1",
    );
    info.spot_name = "test1".to_string();
    insert_lending(&mut pool, info).unwrap();

    let mut info = lending(
        uuid("550e8400-e29b-41d4-a716-446655440002"),
        uuid("550e8400-e29b-41d4-a716-446655440003"),
        "q2",
    );
    info.spot_name = "test2".to_string();
    insert_lending(&mut pool, info).unwrap();

    let mut info = lending(
        uuid("550e8400-e29b-41d4-a716-446655440004"),
        uuid("550e8400-e29b-41d4-a716-446655440004"),
        "q3",
    );
    info.spot_name = "test3".to_string();
    insert_lending(&mut pool, info).unwrap();

    let result = get_lending_list(&pool).unwrap();
    assert_eq!(result.len(), 3);

    returned_lending(
        &mut pool,
        LendingId(uuid("550e8400-e29b-41d4-a716-446655440004")),
        T0 + 1,
    )
    .unwrap();

    let result = get_lending_list(&pool).unwrap();
    assert_eq!(result.len(), 2);
    assert_eq!(result[0].spot_name, "test1");
    assert_eq!(result[1].spot_name, "test2");
}

#[test]
fn test_returned_lending() {
    let mut pool = Database::new();
    let id = uuid("550e8400-e29b-41d4-a716-446655440000");
    let fixtures_id = uuid("550e8400-e29b-41d4-a716-446655440001");
    let res = insert_lending(&mut pool, lending(id, fixtures_id, "x234"));
    assert!(res.is_ok());

    let returned_at = T0 + 60_000_000;
    let res = returned_lending(&mut pool, LendingId(id), returned_at);
    assert!(res.is_ok());

    let res = get_one_lending(&pool, IdType::FixturesId(fixtures_id));
    assert!(res.is_err());
    assert_eq!(pool.lending.len(), 1);
}

#[test]
fn a_lending_begins_open() {
    let mut pool = Database::new();
    let mut info = lending(1, 2, "q");
    info.returned_at = Some(T0);
    insert_lending(&mut pool, info).unwrap();
    let found = get_one_lending(&pool, FixturesId(2)).unwrap();
    assert_eq!(found.returned_at, None);
    assert_eq!(found.lending_at, T0);
}

#[test]
fn second_lending_is_a_conflict_and_one_row_is_open() {
    let mut pool = Database::new();
    insert_lending(&mut pool, lending(1, 10, "Q1")).unwrap();
    let second = insert_lending(&mut pool, lending(2, 10, "Q1"));
    assert_eq!(second, Err(QrError::AlreadyLent));
    assert_eq!(
        second.unwrap_err().kind(),
        Some(ErrorKind::Conflict(Conflict::AlreadyLent))
    );
    assert_eq!(get_lending_list(&pool).unwrap().len(), 1);
    assert_eq!(pool.lending.len(), 1);
}

#[test]
fn item_is_lent_again_after_its_return() {
    let mut pool = Database::new();
    insert_lending(&mut pool, lending(1, 10, "Q1")).unwrap();
    returned_lending(&mut pool, FixturesId(10), T0 + 5).unwrap();
    assert_eq!(insert_lending(&mut pool, lending(2, 10, "Q1")), Ok(()));
    assert_eq!(get_is_lending(&pool, FixturesId(10)), Ok(true));
    assert_eq!(pool.lending.len(), 2);
    assert_eq!(get_lending_list(&pool).unwrap().len(), 1);
}

#[test]
fn return_without_open_lending_is_not_found() {
    let mut pool = Database::new();
    let res = returned_lending(&mut pool, FixturesId(10), T0);
    assert_eq!(
        res,
        Err(QrError::DatabaseNotFound("00000000-0000-0000-0000-00000000000a".to_string()))
    );
    assert_eq!(res.unwrap_err().kind(), Some(ErrorKind::NotFound));
    assert_eq!(pool.lending.len(), 0);

    insert_lending(&mut pool, lending(1, 10, "Q1")).unwrap();
    returned_lending(&mut pool, FixturesId(10), T0 + 5).unwrap();
    let again = returned_lending(&mut pool, FixturesId(10), T0 + 9);
    assert!(matches!(again, Err(QrError::DatabaseNotFound(_))));
    assert_eq!(pool.lending.len(), 1);
    assert_eq!(returned_lending(&mut pool, LendingId(1), T0 + 9).is_err(), true);
}

#[test]
fn reassigned_qr_keeps_the_status_of_each_key() {
    let mut pool = Database::new();
    let a = 0xa;
    let b = 0xb;
    insert_fixtures(&mut pool, item(a, "Q1")).unwrap();
    insert_fixtures(&mut pool, item(b, "Q9")).unwrap();
    insert_lending(&mut pool, lending(1, a, "Q1")).unwrap();

    // the QR code Q1 goes from the item a to the item b
    update_fixtures(&mut pool, item(a, "Q2")).unwrap();
    update_fixtures(&mut pool, item(b, "Q1")).unwrap();

    assert_eq!(get_is_lending(&pool, QrId("Q1".to_string())), Ok(true));
    assert_eq!(get_is_lending(&pool, FixturesId(a)), Ok(true));
    assert_eq!(get_is_lending(&pool, QrId("Q2".to_string())), Ok(false));
    assert_eq!(get_is_lending(&pool, FixturesId(b)), Ok(false));

    // a return under Q1 is the return of b, which is not out
    let res = returned_lending(&mut pool, QrId("Q1".to_string()), T0 + 1);
    assert_eq!(
        res,
        Err(QrError::DatabaseNotFound("00000000-0000-0000-0000-00000000000b".to_string()))
    );
    assert_eq!(get_is_lending(&pool, FixturesId(a)), Ok(true));

    // a return under Q2 is the return of a
    assert_eq!(returned_lending(&mut pool, QrId("Q2".to_string()), T0 + 2), Ok(()));
    assert_eq!(get_is_lending(&pool, FixturesId(a)), Ok(false));
    assert_eq!(get_is_lending(&pool, QrId("Q1".to_string())), Ok(false));
}

#[test]
fn return_under_an_unknown_qr_is_not_found() {
    let mut pool = Database::new();
    insert_lending(&mut pool, lending(1, 10, "Q1")).unwrap();
    let res = returned_lending(&mut pool, QrId("Q1".to_string()), T0);
    assert_eq!(res, Err(QrError::DatabaseNotFound("Q1".to_string())));
    assert_eq!(get_is_lending(&pool, QrId("Q1".to_string())), Ok(true));
}

#[test]
fn lend_conflict_return_scenario() {
    let mut pool = Database::new();
    let i1 = 0x11;
    insert_fixtures(&mut pool, item(i1, "Q1")).unwrap();

    let mut alice = lending(1, i1, "Q1");
    alice.borrower_name = "Alice".to_string();
    assert_eq!(insert_lending(&mut pool, alice), Ok(()));
    assert_eq!(get_is_lending(&pool, FixturesId(i1)), Ok(true));

    let mut bob = lending(2, i1, "Q1");
    bob.borrower_name = "Bob".to_string();
    assert_eq!(insert_lending(&mut pool, bob), Err(QrError::AlreadyLent));

    assert_eq!(returned_lending(&mut pool, FixturesId(i1), T0 + 100), Ok(()));
    assert_eq!(get_is_lending(&pool, FixturesId(i1)), Ok(false));
    assert_eq!(get_is_lending(&pool, QrId("Q1".to_string())), Ok(false));
    assert_eq!(get_is_lending(&pool, LendingId(1)), Ok(false));
}

#[test]
fn registry_out_of_reach_fails_every_lending_operation() {
    let mut pool = Database::new();
    insert_lending(&mut pool, lending(1, 10, "Q1")).unwrap();
    pool.online = false;
    assert_eq!(
        insert_lending(&mut pool, lending(2, 11, "Q2")),
        Err(QrError::DatabaseUpdate("lending".to_string()))
    );
    assert_eq!(
        returned_lending(&mut pool, FixturesId(10), T0),
        Err(QrError::DatabaseUpdate("lending".to_string()))
    );
    assert_eq!(
        get_one_lending(&pool, FixturesId(10)),
        Err(QrError::DatabaseGet("lending".to_string()))
    );
    assert_eq!(
        get_is_lending(&pool, FixturesId(10)),
        Err(QrError::DatabaseGet("lending".to_string()))
    );
    assert_eq!(get_lending_list(&pool), Err(QrError::DatabaseGet("lending".to_string())));
    pool.online = true;
    assert_eq!(pool.lending.len(), 1);
    assert_eq!(get_is_lending(&pool, FixturesId(10)), Ok(true));
}

#[test]
fn guard_turns_looks_into_a_decision() {
    let found = || Ok(lending(1, 10, "Q1"));
    let none = || Err(QrError::DatabaseNotFound("x".to_string()));
    let broken = || Err(QrError::DatabaseGet("lending".to_string()));
    assert_eq!(lend_guard(none(), none()), Ok(()));
    assert_eq!(lend_guard(found(), none()), Err(QrError::AlreadyLent));
    assert_eq!(lend_guard(none(), found()), Err(QrError::AlreadyLent));
    assert_eq!(lend_guard(broken(), found()), Err(QrError::AlreadyLent));
    assert_eq!(lend_guard(broken(), none()), Err(QrError::DatabaseGet("lending".to_string())));
    assert_eq!(lend_guard(none(), broken()), Err(QrError::DatabaseGet("lending".to_string())));

    assert_eq!(lending_status(found()), Ok(true));
    assert_eq!(lending_status(none()), Ok(false));
    assert_eq!(lending_status(broken()), Err(QrError::DatabaseGet("lending".to_string())));

    assert_eq!(return_lookup(&LendingId(1)), None);
    assert_eq!(return_lookup(&FixturesId(1)), None);
    assert_eq!(return_lookup(&QrId("Q1".to_string())), Some(ItemKey::QrId("Q1".to_string())));
    assert_eq!(return_key_of_item(Ok(item(7, "Q1"))), Ok(FixturesId(7)));
    assert_eq!(
        return_key_of_item(Err(QrError::DatabaseNotFound("Q1".to_string()))),
        Err(QrError::DatabaseNotFound("Q1".to_string()))
    );

    assert_eq!(lend_commit(Commit::Written), Ok(()));
    assert_eq!(lend_commit(Commit::OpenLendingExists), Err(QrError::AlreadyLent));
    assert_eq!(lend_commit(Commit::IdentifierTaken), Err(QrError::AlreadyExists));
    assert_eq!(
        lend_commit(Commit::Failed),
        Err(QrError::DatabaseUpdate("lending".to_string()))
    );
}

#[test]
fn table_keeps_closed_lendings_as_they_are() {
    let mut table = LendingTable::new();
    table.insert(lending(1, 10, "Q1")).unwrap();
    table.give_back(&FixturesId(10), T0 + 1).unwrap();
    table.insert(lending(2, 10, "Q1")).unwrap();
    table.give_back(&QrId("Q1".to_string()), T0 + 2).unwrap();
    assert_eq!(table.len(), 2);
    assert_eq!(table.open_list().len(), 0);
    assert!(table.get(&LendingId(1)).is_err());
    assert_eq!(IdType::LendingId(1).to_string(), "00000000-0000-0000-0000-000000000001");
    assert_eq!(IdType::QrId("Q1".to_string()).to_string(), "Q1");
}
