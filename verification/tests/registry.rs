use qr_backend::database::container::insert_container;
use qr_backend::database::fixtures::{
    delete_fixtures, get_fixtures_list, get_one_fixtures, insert_fixtures, item_passes,
    list_fixtures, update_fixtures, Filter, IdType,
    IdType::{FixturesId, QrId},
};
use qr_backend::database::spot::{
    delete_spot, get_one_spot, get_spot_list, insert_spot, update_spot,
};
use qr_backend::database::Database;
use qr_backend::error_handling::{Conflict, ErrorKind, QrError};
use qr_backend::identifier::parse_id;
use qr_backend::{Area, Container, Fixtures, QrColor, Spot, Stroge};

fn uuid(text: &str) -> u128 {
    parse_id(text).unwrap()
}

fn fixtures(id: u128, qr: &str, storage: Stroge) -> Fixtures {
    Fixtures {
        id,
        created_at: 1_691_423_795_000_000,
        qr_id: qr.to_string(),
        qr_color: QrColor::Red,
        name: "テスト物品".to_string(),
        description: Some("テスト説明".to_string()),
        model_number: None,
        storage,
        usage: Some("無い".to_string()),
        usage_season: None,
        note: "DBを確認".to_string(),
        parent_id: "null".to_string(),
    }
}

fn spot(name: &str, area: Area, building: &str) -> Spot {
    Spot {
        name: name.to_string(),
        area,
        building: Some(building.to_string()),
        floor: None,
        room: None,
        note: None,
    }
}

#[test]
fn get_one_fixtures_test_insert_spot_sql() {
    let mut pool = Database::new();
    let uuid_ = uuid("550e8400-e29b-41d4-a716-446655440000");
    let dummy_uuid = uuid("550e8400-e29b-41d4-a716-446655440001");
    let info = fixtures(uuid_, "test", Stroge::Room101);

    insert_fixtures(&mut pool, info).unwrap();
    let result = get_one_fixtures(&pool, FixturesId(uuid_));
    assert!(result.is_ok());
    let result = get_one_fixtures(&pool, QrId("test".to_string()));
    assert!(result.is_ok());

    let result = get_one_fixtures(&pool, FixturesId(dummy_uuid));
    assert!(result.is_err());
    assert_eq!(
        result,
        Err(QrError::DatabaseNotFound("550e8400-e29b-41d4-a716-446655440001".to_string()))
    );
}

#[test]
fn delete_fixtures_test_insert_spot_sql() {
    let mut pool = Database::new();
    let uuid_ = uuid("550e8400-e29b-41d4-a716-446655440000");
    let info = fixtures(uuid_, "test", Stroge::Room101);

    insert_fixtures(&mut pool, info).unwrap();
    let result = get_one_fixtures(&pool, FixturesId(uuid_));
    assert!(result.is_ok());

    delete_fixtures(&mut pool, uuid_).unwrap();
    let result = get_one_fixtures(&pool, FixturesId(uuid_));
    assert!(result.is_err());

    // dropping what is not there succeeds
    assert_eq!(delete_fixtures(&mut pool, uuid_), Ok(()));
    assert_eq!(pool.fixtures.len(), 0);
}

#[test]
fn test_update_fixtures() {
    let mut pool = Database::new();
    let uuid_ = uuid("550e8400-e29b-41d4-a716-446655440000");
    let info = fixtures(uuid_, "test", Stroge::Room101);

    insert_fixtures(&mut pool, info).unwrap();

    let new_info = fixtures(uuid_, "test2", Stroge::Room102);

    update_fixtures(&mut pool, new_info).unwrap();

    let result = get_one_fixtures(&pool, FixturesId(uuid_)).unwrap();
    assert_eq!(result.qr_id, "test2".to_string());
    assert_eq!(result.storage, Stroge::Room102);
    assert!(get_one_fixtures(&pool, QrId("test".to_string())).is_err());
}

#[test]
fn test_insert_container() {
    let mut pool = Database::new();
    let id = uuid("550e8400-e29b-41d4-a716-446655440000");
    let info = Container {
        id,
        qr_id: "test".to_string(),
        qr_color: QrColor::Red,
        storage: Stroge::Room101,
        description: "test".to_string(),
    };
    let res = insert_container(&mut pool, info.clone());
    assert!(res.is_ok());
    assert!(pool.container.contains(id));
    assert_eq!(pool.container.list(), vec![info.clone()]);

    assert_eq!(insert_container(&mut pool, info.clone()), Err(QrError::AlreadyExists));
    assert_eq!(pool.container.len(), 1);
    pool.online = false;
    let mut other = info;
    other.id = 7;
    assert_eq!(
        insert_container(&mut pool, other),
        Err(QrError::DatabaseAdd("container".to_string()))
    );
}

#[test]
fn insert_spot_test_insert_spot_sql() {
    let mut pool = Database::new();
    let info = Spot {
        name: "test".to_string(),
        area: Area::Area3,
        building: Some("3C".to_string()),
        floor: Some(2),
        room: Some("coinsラウンジ".to_string()),
        note: None,
    };
    let res = insert_spot(&mut pool, info.clone());
    assert!(res.is_ok());
    assert_eq!(insert_spot(&mut pool, info), Err(QrError::AlreadyExists));
}

#[test]
fn update_spot_test_insert_spot_sql() {
    let mut pool = Database::new();
    let info = Spot {
        name: "test".to_string(),
        area: Area::Area3,
        building: Some("3C".to_string()),
        floor: Some(2),
        room: Some("coinsラウンジ".to_string()),
        note: None,
    };
    let res = insert_spot(&mut pool, info);
    assert!(res.is_ok());

    let new_info = Spot {
        name: "test".to_string(),
        area: Area::Area3,
        building: Some("3C".to_string()),
        floor: Some(1),
        room: Some("coins計算機室".to_string()),
        note: None,
    };
    let res = update_spot(&mut pool, new_info.clone());
    assert!(res.is_ok());
    assert_eq!(get_one_spot(&pool, "test"), Ok(new_info));

    let unknown = spot("nowhere", Area::Area1, "1A");
    assert_eq!(
        update_spot(&mut pool, unknown),
        Err(QrError::DatabaseNotFound("nowhere".to_string()))
    );
    assert_eq!(pool.spot.len(), 1);
}

#[test]
fn get_one_spot_test_insert_spot_sql() {
    let mut pool = Database::new();
    let info = spot("test1", Area::Area3, "3Cæ£Ÿ");

    insert_spot(&mut pool, info).unwrap();
    let result = get_one_spot(&pool, "test1");
    assert!(result.is_ok());

    let result = get_one_spot(&pool, "test2");
    assert!(result.is_err());
    assert_eq!(result, Err(QrError::DatabaseNotFound("test2".to_string())));
}

#[test]
fn get_spot_list_test_insert_spot_sql() {
    let mut pool = Database::new();
    let info1 = spot("test1", Area::Area3, "3C棟");
    let info2 = spot("test2", Area::Area3, "3C棟");
    let info3 = spot("test3", Area::Area3, "3C棟");

    insert_spot(&mut pool, info1).unwrap();
    insert_spot(&mut pool, info2).unwrap();
    insert_spot(&mut pool, info3).unwrap();

    let result: Vec<Spot> = get_spot_list(&pool).unwrap();
    assert_eq!(result.len(), 3);
    assert_eq!(result[2].name, "test3");
}

#[test]
fn delete_spot_test_insert_spot_sql() {
    let mut pool = Database::new();
    let name = "test1";
    let info = spot(name, Area::Area1, "3C");

    insert_spot(&mut pool, info).unwrap();
    let result = get_one_spot(&pool, name);
    assert!(result.is_ok());

    delete_spot(&mut pool, name).unwrap();
    let result = get_one_spot(&pool, name);
    assert!(result.is_err());
    assert_eq!(delete_spot(&mut pool, name), Ok(()));
}

#[test]
fn created_item_is_found_as_it_was_entered() {
    let mut pool = Database::new();
    let mut item = fixtures(5, "Q5", Stroge::Room206);
    item.model_number = Some("M-1".to_string());
    item.usage_season = Some("当日".to_string());
    insert_fixtures(&mut pool, item.clone()).unwrap();
    assert_eq!(get_one_fixtures(&pool, FixturesId(5)), Ok(item.clone()));
    assert_eq!(get_one_fixtures(&pool, QrId("Q5".to_string())), Ok(item.clone()));
    assert_eq!(get_fixtures_list(&pool), Ok(vec![item]));
}

#[test]
fn identifier_and_qr_code_are_taken_once() {
    let mut pool = Database::new();
    insert_fixtures(&mut pool, fixtures(1, "Q1", Stroge::Room101)).unwrap();
    insert_fixtures(&mut pool, fixtures(2, "Q2", Stroge::Room101)).unwrap();

    let same_id = insert_fixtures(&mut pool, fixtures(1, "Q3", Stroge::Room101));
    assert_eq!(same_id, Err(QrError::AlreadyExists));
    assert_eq!(
        same_id.unwrap_err().kind(),
        Some(ErrorKind::Conflict(Conflict::AlreadyExists))
    );
    let same_qr = insert_fixtures(&mut pool, fixtures(3, "Q2", Stroge::Room101));
    assert_eq!(same_qr, Err(QrError::AlreadyExists));

    // an item cannot take the QR code that another item carries
    assert_eq!(
        update_fixtures(&mut pool, fixtures(1, "Q2", Stroge::Room101)),
        Err(QrError::AlreadyExists)
    );
    // an item that is not there cannot be replaced
    assert_eq!(
        update_fixtures(&mut pool, fixtures(9, "Q9", Stroge::Room101)),
        Err(QrError::DatabaseNotFound("00000000-0000-0000-0000-000000000009".to_string()))
    );
    // it can keep its own
    assert_eq!(update_fixtures(&mut pool, fixtures(1, "Q1", Stroge::Room102)), Ok(()));
    assert_eq!(pool.fixtures.len(), 2);
}

#[test]
fn list_takes_one_filter() {
    let mut pool = Database::new();
    let mut a = fixtures(1, "Q1", Stroge::Room101);
    a.name = "机".to_string();
    a.description = Some("折りたたみ机 大".to_string());
    a.parent_id = "box-1".to_string();
    let mut b = fixtures(2, "Q2", Stroge::Room102);
    b.name = "椅子".to_string();
    b.description = None;
    b.parent_id = "box-1".to_string();
    let mut c = fixtures(3, "Q3", Stroge::Room101);
    c.name = "机".to_string();
    c.description = Some("長机".to_string());
    c.parent_id = "box-2".to_string();
    for item in [a.clone(), b.clone(), c.clone()] {
        insert_fixtures(&mut pool, item).unwrap();
    }

    assert_eq!(list_fixtures(&pool, &Filter::Id(2)), Ok(vec![b.clone()]));
    assert_eq!(list_fixtures(&pool, &Filter::QrId("Q3".to_string())), Ok(vec![c.clone()]));
    assert_eq!(
        list_fixtures(&pool, &Filter::Name("机".to_string())),
        Ok(vec![a.clone(), c.clone()])
    );
    assert_eq!(
        list_fixtures(&pool, &Filter::Description("机".to_string())),
        Ok(vec![a.clone(), c.clone()])
    );
    assert_eq!(
        list_fixtures(&pool, &Filter::Description("たたみ".to_string())),
        Ok(vec![a.clone()])
    );
    assert_eq!(
        list_fixtures(&pool, &Filter::Description("".to_string())),
        Ok(vec![a.clone(), c.clone()])
    );
    assert_eq!(
        list_fixtures(&pool, &Filter::Storage(Stroge::Room101)),
        Ok(vec![a.clone(), c.clone()])
    );
    assert_eq!(
        list_fixtures(&pool, &Filter::ParentId("box-1".to_string())),
        Ok(vec![a.clone(), b.clone()])
    );
    assert_eq!(list_fixtures(&pool, &Filter::Name("棚".to_string())), Ok(vec![]));
    assert!(item_passes(&b, &Filter::Storage(Stroge::Room102)));
    assert!(!item_passes(&b, &Filter::Description("".to_string())));
    assert_eq!(IdType::QrId("Q1".to_string()).to_string(), "Q1");
}

#[test]
fn registry_out_of_reach_fails_every_item_operation() {
    let mut pool = Database::new();
    insert_fixtures(&mut pool, fixtures(1, "Q1", Stroge::Room101)).unwrap();
    pool.online = false;
    assert_eq!(
        insert_fixtures(&mut pool, fixtures(2, "Q2", Stroge::Room101)),
        Err(QrError::DatabaseAdd("fixtures".to_string()))
    );
    assert_eq!(
        update_fixtures(&mut pool, fixtures(1, "Q2", Stroge::Room101)),
        Err(QrError::DatabaseUpdate("fixtures".to_string()))
    );
    assert_eq!(
        delete_fixtures(&mut pool, 1),
        Err(QrError::DatabaseDelete("fixtures".to_string()))
    );
    assert_eq!(
        get_one_fixtures(&pool, FixturesId(1)),
        Err(QrError::DatabaseGet("fixtures".to_string()))
    );
    assert_eq!(get_fixtures_list(&pool), Err(QrError::DatabaseGet("fixtures".to_string())));
    assert_eq!(
        list_fixtures(&pool, &Filter::Id(1)),
        Err(QrError::DatabaseGet("fixtures".to_string()))
    );
    assert_eq!(
        insert_spot(&mut pool, spot("s", Area::Area1, "b")),
        Err(QrError::DatabaseAdd("spot".to_string()))
    );
    assert_eq!(
        update_spot(&mut pool, spot("s", Area::Area1, "b")),
        Err(QrError::DatabaseUpdate("spot".to_string()))
    );
    assert_eq!(delete_spot(&mut pool, "s"), Err(QrError::DatabaseDelete("spot".to_string())));
    assert_eq!(get_one_spot(&pool, "s"), Err(QrError::DatabaseGet("spot".to_string())));
    assert_eq!(get_spot_list(&pool), Err(QrError::DatabaseGet("spot".to_string())));
    assert_eq!(
        insert_fixtures(&mut pool, fixtures(2, "Q2", Stroge::Room101))
            .unwrap_err()
            .kind(),
        Some(ErrorKind::StoreError)
    );
    pool.online = true;
    assert_eq!(pool.fixtures.len(), 1);
    assert_eq!(pool.spot.len(), 0);
}
