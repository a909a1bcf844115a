use qr_backend::bearer::Bearer;
use qr_backend::certification::Role;
use qr_backend::email::EmailAddress;
use qr_backend::error_handling::QrError;
use qr_backend::handler::signup::{handler, Error as HandlerError, Request, Response};
use qr_backend::identifier::{id_from_reading, id_text, new_id, parse_id};
use qr_backend::model::UserRole;
use qr_backend::text::{contains, parse_usize, same_text, split, strip_prefix, trim};
use qr_backend::use_case::get_login_user;
use qr_backend::use_case::signup::{run, stored_user, Error as SignupError};
use qr_backend::user::{User, UserId, UserName};
use qr_backend::{Area, ParseError, QrColor, Stroge};
use std::str::FromStr;

#[test]
fn identifier_is_written_in_groups_with_hyphens() {
    assert_eq!(id_text(0), "00000000-0000-0000-0000-000000000000");
    assert_eq!(
        id_text(0x550e8400_e29b_41d4_a716_446655440000),
        "550e8400-e29b-41d4-a716-446655440000"
    );
    assert_eq!(id_text(u128::MAX), "ffffffff-ffff-ffff-ffff-ffffffffffff");
    assert_eq!(
        id_text(0x0123_4567_89ab_cdef_0123_4567_89ab_cdef),
        "01234567-89ab-cdef-0123-456789abcdef"
    );
}

#[test]
fn identifier_is_read_from_its_text() {
    assert_eq!(
        parse_id("550e8400-e29b-41d4-a716-446655440000"),
        Ok(0x550e8400_e29b_41d4_a716_446655440000)
    );
    assert_eq!(
        parse_id("550E8400-E29B-41D4-A716-446655440000"),
        Ok(0x550e8400_e29b_41d4_a716_446655440000)
    );
    assert_eq!(
        parse_id("550e8400e29b41d4a716446655440000"),
        Ok(0x550e8400_e29b_41d4_a716_446655440000)
    );
    assert_eq!(parse_id("null"), Err(QrError::BrokenUuid("null".to_string())));
    assert_eq!(parse_id(""), Err(QrError::BrokenUuid(String::new())));
    assert_eq!(
        parse_id("550e8400-e29b-41d4-a716-44665544000"),
        Err(QrError::BrokenUuid("550e8400-e29b-41d4-a716-44665544000".to_string()))
    );
    for id in [0u128, 1, 0xdead_beef, u128::MAX, new_id()] {
        assert_eq!(parse_id(&id_text(id)), Ok(id));
    }
    assert_eq!(id_from_reading(Some(3), "x"), Ok(3));
    assert_eq!(id_from_reading(None, "x"), Err(QrError::BrokenUuid("x".to_string())));
}

#[test]
fn new_identifiers_differ() {
    let a = new_id();
    let b = new_id();
    assert_ne!(a, b);
    // version 4, variant 1
    assert_eq!((a >> 76) & 0xf, 4);
    assert_eq!((a >> 62) & 0x3, 2);
    for _ in 0..32 {
        let text = id_text(new_id());
        assert_eq!(text.as_bytes()[14], b'4');
        assert!(b"89ab".contains(&text.as_bytes()[19]));
    }
}

#[test]
fn colours_and_rooms_are_read_from_their_names() {
    let colors = [
        (QrColor::Red, "red"),
        (QrColor::Orange, "orange"),
        (QrColor::Brown, "brown"),
        (QrColor::LightBlue, "light_blue"),
        (QrColor::Blue, "blue"),
        (QrColor::Green, "green"),
        (QrColor::Yellow, "yellow"),
        (QrColor::Purple, "purple"),
        (QrColor::Pink, "pink"),
    ];
    for (color, name) in colors {
        assert_eq!(color.to_string(), name);
        assert_eq!(QrColor::parse(name), Ok(color));
    }
    assert_eq!(QrColor::parse("Red"), Err(ParseError { text: "Red".to_string() }));
    assert_eq!(QrColor::parse("lightblue").is_err(), true);

    let rooms =
        [(Stroge::Room101, "room101"), (Stroge::Room102, "room102"), (Stroge::Room206, "room206")];
    for (room, name) in rooms {
        assert_eq!(room.to_string(), name);
        assert_eq!(Stroge::parse(name), Ok(room));
    }
    assert_eq!(Stroge::parse("Room101"), Err(ParseError { text: "Room101".to_string() }));
    assert_eq!(Stroge::parse("room103").is_err(), true);
}

#[test]
fn areas_are_read_from_names() {
    let areas = [
        (Area::Area1, "area1"),
        (Area::Area2, "area2"),
        (Area::Area3, "area3"),
        (Area::CenterLibrary, "center_library"),
        (Area::IshiSquare, "ishi_square"),
        (Area::Igaku, "igaku"),
        (Area::Taigei, "taigei"),
        (Area::Kasuga, "kasuga"),
        (Area::Ichinoya, "ichinoya"),
        (Area::Hirasuna, "hirasuna"),
        (Area::Oikoshi, "oikoshi"),
    ];
    for (area, name) in areas {
        assert_eq!(area.to_string(), name);
    }
    for (area, name) in areas {
        if area != Area::Kasuga && area != Area::Oikoshi {
            assert_eq!(Area::parse(name), Ok(area));
        }
    }
    assert_eq!(Area::parse("kasuga"), Ok(Area::Taigei));
    assert_eq!(Area::parse("okioshi"), Ok(Area::Oikoshi));
    assert_eq!(Area::parse("oikoshi"), Err(ParseError { text: "oikoshi".to_string() }));
    assert_eq!(Area::parse("area4").is_err(), true);
}

#[test]
fn bearer_token_follows_the_word_bearer() {
    assert_eq!(Bearer::parse("Bearer abc").unwrap().token, "abc");
    assert_eq!(Bearer::from_str("  Bearer   abc.def  ").unwrap().token, "abc.def");
    assert_eq!(Bearer::parse("Bearerabc").unwrap().token, "abc");
    assert_eq!(Bearer::parse("Bearer").unwrap().token, "");
    assert_eq!(Bearer::parse("Bearer a b").unwrap().token, "a b");
    assert_eq!(Bearer::parse("\u{3000}Bearer\tabc\n").unwrap().token, "abc");
    assert!(Bearer::parse("bearer abc").is_err());
    assert!(Bearer::parse("Basic abc").is_err());
    assert!(Bearer::parse("").is_err());
    assert!(Bearer::from_str("Bear").is_err());
    assert_eq!(
        Bearer::parse("x").unwrap_err().to_string(),
        "invalid bearer authentication header value"
    );
    for s in ["Bearer x", "  Bearer\u{a0}y ", "Bearer", "B", "Bearer  \u{2003}z\u{2003}"] {
        let expected = s.trim().strip_prefix("Bearer").map(|t| t.trim().to_owned());
        assert_eq!(Bearer::parse(s).ok().map(|b| b.token), expected);
    }
}

#[test]
fn texts_are_compared_trimmed_and_split() {
    assert!(same_text("机", "机"));
    assert!(!same_text("a", "ab"));
    assert!(!same_text("ab", "ac"));
    assert_eq!(trim("  a b \t\n"), "a b");
    assert_eq!(trim("\u{2028}x\u{205f}"), "x");
    assert_eq!(trim(" \u{1680} "), "");
    assert_eq!(trim(""), "");
    assert_eq!(trim("\u{200b}x"), "\u{200b}x");
    assert_eq!(trim("\u{feff}x "), "\u{feff}x".trim());
    assert_eq!(strip_prefix("abc", "ab"), Some("c"));
    assert_eq!(strip_prefix("abc", ""), Some("abc"));
    assert_eq!(strip_prefix("ab", "abc"), None);
    assert_eq!(strip_prefix("abc", "bc"), None);
    assert!(contains("折りたたみ机", "たたみ"));
    assert!(contains("abc", ""));
    assert!(contains("", ""));
    assert!(contains("abc", "abc"));
    assert!(contains("abc", "c"));
    assert!(!contains("abc", "abcd"));
    assert!(!contains("abc", "ac"));
    assert_eq!(split("a.b..c", '.'), vec!["a", "b", "", "c"]);
    assert_eq!(split("", '.'), vec![""]);
    assert_eq!(split(".", '.'), vec!["", ""]);
    assert_eq!(parse_usize("42"), Some(42));
}

fn user(id: &str) -> User {
    User {
        id: UserId(id.to_string()),
        created_at: 5,
        name: UserName { first: "花子".to_string(), last: "筑波".to_string() },
        email: EmailAddress::from_string("hanako@sohosai.com".to_string()).unwrap(),
        role: Role::General,
    }
}

#[test]
fn new_user_signs_up_as_a_reader() {
    let expected = user("u1");
    let signed = run(None, expected.id.clone(), expected.name.clone(), expected.email.clone(), 5);
    assert_eq!(signed, Ok(expected.clone()));
    let again =
        run(Some(expected.clone()), expected.id.clone(), expected.name.clone(), expected.email.clone(), 9);
    assert_eq!(again, Err(SignupError::AlreadySignedUp));

    let request = Request { name: expected.name.clone() };
    let response: Result<Response, HandlerError> =
        handler(None, expected.id.clone(), expected.email.clone(), 5, request.clone());
    let response = response.unwrap();
    assert_eq!(response.user, expected);
    assert_eq!(response.status_code(), 201);
    let refused = handler(Some(expected.clone()), expected.id.clone(), expected.email.clone(), 5, request);
    assert_eq!(refused.as_ref().err(), Some(&HandlerError::AlreadySignedUp));
    assert_eq!(refused.unwrap_err().status_code(), 409);
    assert_eq!(HandlerError::from(SignupError::AlreadySignedUp), HandlerError::AlreadySignedUp);

    assert_eq!(get_login_user::run(Some(expected.clone())), Ok(expected.clone()));
    assert_eq!(get_login_user::run(None), Err(get_login_user::Error::NotSignedUp));

    let row = stored_user(expected);
    assert_eq!(row.id, "u1");
    assert_eq!(row.created_at, 5);
    assert_eq!(row.email, "hanako@sohosai.com");
    assert_eq!(row.role, UserRole::General);
    let mut admin = user("u2");
    admin.role = Role::Administrator;
    assert_eq!(stored_user(admin).role, UserRole::Administrator);
    let mut manager = user("u3");
    manager.role = Role::EquipmentManager;
    assert_eq!(stored_user(manager).role, UserRole::EquipmentManager);
}
