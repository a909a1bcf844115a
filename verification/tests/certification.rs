use qr_backend::certification::{
    authorize, decide_issue, gen_passtoken, gen_token, get_role, get_role_at, insert_passtoken,
    is_permitted, now, str_to_role_opt, token_of, Operation, PassSettings, Passtoken,
    PasstokenTable, Role, RoleSetting, MICROS_PER_DAY,
};
use qr_backend::database::Database;
use qr_backend::error_handling::{ErrorKind, QrError};
use qr_backend::handler::authentication::{gen_passtoken as issue, issue_passtoken};
use qr_backend::handler::App;
use qr_backend::text::parse_usize;
use qr_backend::ParseError;

fn setting(key: &str, days: &str) -> RoleSetting {
    RoleSetting { pass_key: Some(key.to_string()), limit_days: Some(days.to_string()) }
}

fn settings() -> PassSettings {
    PassSettings {
        administrator: setting("admin-secret", "7"),
        equipment_manager: setting("manager-secret", "30"),
        general: setting("general-secret", "+365"),
    }
}

#[test]
fn roles_are_read_from_their_names() {
    assert_eq!(Role::parse("administrator"), Ok(Role::Administrator));
    assert_eq!(Role::parse("equipment_manager"), Ok(Role::EquipmentManager));
    assert_eq!(Role::parse("general"), Ok(Role::General));
    assert_eq!(Role::parse("root"), Err(ParseError { text: "root".to_string() }));
    assert_eq!(Role::parse("Administrator").is_err(), true);
    assert_eq!(str_to_role_opt("general"), Some(Role::General));
    assert_eq!(str_to_role_opt(""), None);
    for role in [Role::Administrator, Role::EquipmentManager, Role::General] {
        assert_eq!(Role::parse(&role.to_string()), Ok(role));
    }
    assert_eq!(Role::EquipmentManager.to_string(), "equipment_manager");
}

#[test]
fn changing_is_for_managers_and_destroying_for_administrators() {
    assert!(is_permitted(Role::Administrator, Operation::Change));
    assert!(is_permitted(Role::EquipmentManager, Operation::Change));
    assert!(!is_permitted(Role::General, Operation::Change));
    assert!(is_permitted(Role::Administrator, Operation::Destroy));
    assert!(!is_permitted(Role::EquipmentManager, Operation::Destroy));
    assert!(!is_permitted(Role::General, Operation::Destroy));

    assert_eq!(authorize(&Ok(Role::EquipmentManager), Operation::Change), Ok(()));
    assert_eq!(
        authorize(&Ok(Role::EquipmentManager), Operation::Destroy),
        Err(QrError::Authorized)
    );
    assert_eq!(
        authorize(&Err(QrError::DatabaseNotFound("t".to_string())), Operation::Change),
        Err(QrError::Authorized)
    );
    assert_eq!(
        authorize(&Err(QrError::DatabaseGet("passtoken".to_string())), Operation::Change),
        Err(QrError::Authorized)
    );
}

#[test]
fn credential_is_valid_until_its_expiry() {
    let token = Passtoken::mint(Role::General, 2, "t".to_string(), 1_000);
    assert_eq!(token.limit_days, 2);
    assert_eq!(token.created_at, 1_000);
    let expiry = 1_000 + 2 * MICROS_PER_DAY;
    assert_eq!(expiry, 172_800_001_000);
    assert!(token.is_valid_at(0));
    assert!(token.is_valid_at(expiry - 1));
    assert!(!token.is_valid_at(expiry));
    assert!(!token.is_valid_at(expiry + 1));
    assert!(!token.is_valid_at(i64::MAX));

    let never = Passtoken::mint(Role::General, 0, "t".to_string(), 1_000);
    assert!(never.is_valid_at(999));
    assert!(!never.is_valid_at(1_000));

    let far = Passtoken::mint(Role::General, i32::MAX as usize, "t".to_string(), i64::MAX);
    assert!(far.is_valid_at(i64::MAX));
}

#[test]
fn lifetime_keeps_its_lowest_32_bits() {
    let days = |limit: usize| Passtoken::mint(Role::General, limit, String::new(), 0).limit_days;
    assert_eq!(days(0), 0);
    assert_eq!(days(2_147_483_647), 2_147_483_647);
    assert_eq!(days(2_147_483_648), -2_147_483_648);
    assert_eq!(days(4_294_967_295), -1);
    assert_eq!(days(4_294_967_296), 0);
    assert_eq!(days(4_294_967_303), 7);
    let back = Passtoken::mint(Role::General, 4_294_967_295, "t".to_string(), 1_000);
    assert!(back.is_valid_at(1_000 - MICROS_PER_DAY - 1));
    assert!(!back.is_valid_at(1_000 - MICROS_PER_DAY));
}

#[test]
fn new_token_is_an_identifier_and_random_letters() {
    for _ in 0..20 {
        let token = gen_token();
        assert!(token.len() >= 236 && token.len() < 336);
        let (id, suffix) = token.split_at(36);
        let bytes = id.as_bytes();
        for (i, b) in bytes.iter().enumerate() {
            if i == 8 || i == 13 || i == 18 || i == 23 {
                assert_eq!(*b, b'-');
            } else {
                assert!(b.is_ascii_digit() || (b'a'..=b'f').contains(b));
            }
        }
        assert!(suffix.bytes().all(|b| b.is_ascii_alphanumeric()));
    }
    assert_ne!(gen_token(), gen_token());
    let lengths: Vec<usize> = (0..64).map(|_| gen_token().len()).collect();
    assert!(lengths.iter().any(|n| *n != lengths[0]));
    assert_eq!(token_of(0xab, "xyz"), "00000000-0000-0000-0000-0000000000abxyz");
}

#[test]
fn new_credential_bears_role_and_lifetime() {
    let before = now();
    let token = Passtoken::new(Role::EquipmentManager, 30);
    let after = now();
    assert_eq!(token.role, Role::EquipmentManager);
    assert_eq!(token.limit_days, 30);
    assert!(before <= token.created_at && token.created_at <= after);
    assert!(token.check_valid());
    assert!(!Passtoken::new(Role::General, 0).check_valid());
    // the clock tells microseconds since 1970: later than 2020, earlier than 2200
    assert!(before > 1_577_836_800_000_000 && before < 7_258_118_400_000_000);
}

#[test]
fn numbers_are_read_as_lifetimes() {
    assert_eq!(parse_usize("0"), Some(0));
    assert_eq!(parse_usize("007"), Some(7));
    assert_eq!(parse_usize("+12"), Some(12));
    assert_eq!(parse_usize("365"), Some(365));
    assert_eq!(parse_usize(""), None);
    assert_eq!(parse_usize("+"), None);
    assert_eq!(parse_usize("-1"), None);
    assert_eq!(parse_usize("1 "), None);
    assert_eq!(parse_usize(" 1"), None);
    assert_eq!(parse_usize("1.5"), None);
    assert_eq!(parse_usize("++1"), None);
    assert_eq!(parse_usize("１"), None);
    assert_eq!(parse_usize(&usize::MAX.to_string()), Some(usize::MAX));
    assert_eq!(parse_usize(&format!("{}0", usize::MAX)), None);
    assert_eq!(parse_usize("18446744073709551616"), "18446744073709551616".parse::<usize>().ok());
    assert_eq!(parse_usize("99999999999999999999999"), None);
}

#[test]
fn issue_needs_settings_and_the_secret() {
    let s = settings();
    assert_eq!(decide_issue(Role::Administrator, "admin-secret", &s), Ok(7));
    assert_eq!(decide_issue(Role::EquipmentManager, "manager-secret", &s), Ok(30));
    assert_eq!(decide_issue(Role::General, "general-secret", &s), Ok(365));
    assert_eq!(decide_issue(Role::Administrator, "manager-secret", &s), Err(QrError::Authorized));
    assert_eq!(decide_issue(Role::Administrator, "", &s), Err(QrError::Authorized));

    let mut broken = settings();
    broken.administrator.pass_key = None;
    broken.equipment_manager.limit_days = None;
    broken.general.limit_days = Some("soon".to_string());
    let missing_key = decide_issue(Role::Administrator, "admin-secret", &broken);
    assert_eq!(missing_key, Err(QrError::Environment("ADMINISTRATOR_PASS_KEY".to_string())));
    assert_eq!(missing_key.unwrap_err().kind(), Some(ErrorKind::ConfigMissing));
    assert_eq!(
        decide_issue(Role::EquipmentManager, "manager-secret", &broken),
        Err(QrError::Environment("EQUIPMENT_MANAGER_LIMIT_DAYS".to_string()))
    );
    // a setting that is out of order is told before a wrong secret
    assert_eq!(
        decide_issue(Role::General, "wrong", &broken),
        Err(QrError::Environment("GENERAL_LIMIT_DAYS".to_string()))
    );
    broken.general.pass_key = None;
    assert_eq!(
        decide_issue(Role::General, "wrong", &broken),
        Err(QrError::Environment("GENERAL_PASS_KEY".to_string()))
    );
    broken.equipment_manager.pass_key = None;
    assert_eq!(
        decide_issue(Role::EquipmentManager, "x", &broken),
        Err(QrError::Environment("EQUIPMENT_MANAGER_PASS_KEY".to_string()))
    );
    broken.administrator = setting("k", "-3");
    assert_eq!(
        decide_issue(Role::Administrator, "k", &broken),
        Err(QrError::Environment("ADMINISTRATOR_LIMIT_DAYS".to_string()))
    );

    let issued = gen_passtoken(Role::Administrator, "admin-secret", &s).unwrap();
    assert_eq!(issued.role, Role::Administrator);
    assert_eq!(issued.limit_days, 7);
    assert!(issued.token.len() >= 236);
    assert_eq!(gen_passtoken(Role::Administrator, "nope", &s), Err(QrError::Authorized));
}

#[test]
fn wrong_secret_gets_no_credential() {
    let mut app = App::new(settings());
    let res = issue_passtoken("administrator", "wrong_secret", "tok".to_string(), 10, &mut app);
    assert_eq!(res, Err(QrError::Authorized));
    assert_eq!(res.unwrap_err().kind(), Some(ErrorKind::Unauthorized));
    assert_eq!(app.conn.passtoken.len(), 0);

    assert_eq!(issue("administrator", "wrong_secret", &mut app), Err(QrError::Authorized));
    assert_eq!(issue("superuser", "admin-secret", &mut app), Err(QrError::Authorized));
    assert_eq!(app.conn.passtoken.len(), 0);
}

#[test]
fn issued_credential_is_stored_under_its_token() {
    let mut app = App::new(settings());
    let token = issue("equipment_manager", "manager-secret", &mut app).unwrap();
    assert_eq!(app.conn.passtoken.len(), 1);
    assert!(app.conn.passtoken.contains(&token));
    assert_eq!(get_role(&app.conn, &token), Ok(Role::EquipmentManager));
    assert_eq!(get_role_at(&app.conn, &token, now() + 29 * MICROS_PER_DAY), Ok(Role::EquipmentManager));
    assert_eq!(
        get_role_at(&app.conn, &token, now() + 30 * MICROS_PER_DAY),
        Err(QrError::Authorized)
    );

    let told = issue_passtoken("general", "general-secret", "tok".to_string(), 10, &mut app);
    assert_eq!(told, Ok("tok".to_string()));
    let again = issue_passtoken("general", "general-secret", "tok".to_string(), 11, &mut app);
    assert_eq!(again, Err(QrError::AlreadyExists));
    assert_eq!(app.conn.passtoken.len(), 2);

    app.conn.online = false;
    assert_eq!(
        issue_passtoken("general", "general-secret", "tok2".to_string(), 10, &mut app),
        Err(QrError::DatabaseAdd("passtoken".to_string()))
    );
    assert_eq!(get_role(&app.conn, "tok"), Err(QrError::DatabaseGet("passtoken".to_string())));
    app.conn.online = true;
    assert_eq!(app.conn.passtoken.len(), 2);
}

#[test]
fn expired_credential_is_rejected_though_it_is_stored() {
    let mut conn = Database::new();
    let created: i64 = 1_700_000_000_000_000;
    let passtoken = Passtoken::mint(Role::Administrator, 3, "abc".to_string(), created);
    assert_eq!(insert_passtoken(&mut conn, passtoken.clone()), Ok(()));

    let expiry = created + 3 * MICROS_PER_DAY;
    assert_eq!(get_role_at(&conn, "abc", created), Ok(Role::Administrator));
    assert_eq!(get_role_at(&conn, "abc", expiry - 1), Ok(Role::Administrator));
    assert_eq!(get_role_at(&conn, "abc", expiry), Err(QrError::Authorized));
    assert_eq!(get_role_at(&conn, "abc", expiry + 1), Err(QrError::Authorized));
    assert_eq!(get_role_at(&conn, "abc", i64::MAX), Err(QrError::Authorized));
    assert_eq!(get_role(&conn, "abc"), Err(QrError::Authorized));
    assert!(conn.passtoken.contains("abc"));
    assert_eq!(conn.passtoken.len(), 1);

    assert_eq!(
        get_role_at(&conn, "abd", created),
        Err(QrError::DatabaseNotFound("abd".to_string()))
    );
    assert_eq!(get_role(&conn, "abd").unwrap_err().kind(), Some(ErrorKind::NotFound));
    assert_eq!(insert_passtoken(&mut conn, passtoken), Err(QrError::AlreadyExists));
}

#[test]
fn table_of_credentials_checks_tokens() {
    let mut table = PasstokenTable::new();
    table.insert(Passtoken::mint(Role::General, 1, "g".to_string(), 0)).unwrap();
    assert_eq!(table.role_at("g", MICROS_PER_DAY - 1), Ok(Role::General));
    assert_eq!(table.role_at("g", MICROS_PER_DAY), Err(QrError::Authorized));
    assert_eq!(table.role_at("", 0), Err(QrError::DatabaseNotFound(String::new())));
    assert_eq!(table.len(), 1);
}
