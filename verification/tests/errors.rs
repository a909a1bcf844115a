use qr_backend::error_handling::{result_to_handler, Conflict, ErrorKind, Msg, QrError};

fn all() -> Vec<(QrError, u16, &'static str, &'static str, Option<ErrorKind>)> {
    let s = |t: &str| t.to_string();
    vec![
        (
            QrError::Environment(s("MEILI_URL")),
            503,
            "CouldNotFoundEnv",
            "Couldn't found MEILI_URL on environment",
            Some(ErrorKind::ConfigMissing),
        ),
        (
            QrError::SearchEngineAddOrReplace(s("fixtures")),
            500,
            "SearchEngineAddOrReplace",
            "Couldn't add/replace fixtures to search engine",
            Some(ErrorKind::IndexError),
        ),
        (
            QrError::SearchEngineDelete(s("fixtures")),
            500,
            "SearchEngineDelete",
            "Couldn't delete fixtures from search engine",
            Some(ErrorKind::IndexError),
        ),
        (
            QrError::SearchEngineSearch(s("fixtures")),
            500,
            "SearchEngineSearch",
            "Couldn't search fixtures from search engine",
            Some(ErrorKind::IndexError),
        ),
        (
            QrError::DatabaseAdd(s("spot")),
            500,
            "DatabaseAdd",
            "Couldn't add spot to database",
            Some(ErrorKind::StoreError),
        ),
        (
            QrError::DatabaseUpdate(s("lending")),
            500,
            "DatabaseUpdate",
            "Couldn't update lending to database",
            Some(ErrorKind::StoreError),
        ),
        (
            QrError::DatabaseDelete(s("spot")),
            500,
            "DatabaseDelete",
            "Couldn't delete spot from database",
            Some(ErrorKind::StoreError),
        ),
        (
            QrError::DatabaseGet(s("passtoken")),
            500,
            "DatabaseGet",
            "Couldn't get passtoken from database",
            Some(ErrorKind::StoreError),
        ),
        (QrError::UrlQuery(s("qr_id, id")), 400, "UrlQuery", "Couldn't found qr_id, id query in the url", None),
        (QrError::Authorized, 401, "Authorized", "Unauthorized", Some(ErrorKind::Unauthorized)),
        (QrError::BrokenUuid(s("12-34")), 400, "BrokenUuid", "12-34 is broken UUID", None),
        (
            QrError::DatabaseNotFound(s("x234")),
            400,
            "DatabaseNotFound",
            "Couldn't find x234 from database",
            Some(ErrorKind::NotFound),
        ),
        (
            QrError::AlreadyLent,
            409,
            "AlreadyLent",
            "Already lent",
            Some(ErrorKind::Conflict(Conflict::AlreadyLent)),
        ),
        (
            QrError::AlreadyExists,
            409,
            "AlreadyExists",
            "Already exists",
            Some(ErrorKind::Conflict(Conflict::AlreadyExists)),
        ),
        (QrError::TokioRuntime, 500, "TokioRutime", "Failed to build the Tokio Runtime", None),
        (QrError::Migrations, 500, "Migrations", "Failed to run migrations", None),
        (QrError::ConnectionPool, 500, "ConnectionPool", "Failed to connection pool", None),
        (QrError::LoggingConfig, 500, "LoggingConfing", "Failed to set logging confing", None),
        (QrError::Serve, 500, "Serve", "Failed to serve app", None),
    ]
}

#[test]
fn each_error_has_its_status_label_words_and_kind() {
    for (error, status, label, words, kind) in all() {
        assert_eq!(error.status_code(), status, "{error:?}");
        assert_eq!(error.error_type(), label, "{error:?}");
        assert_eq!(error.to_string(), words, "{error:?}");
        assert_eq!(error.kind(), kind, "{error:?}");
    }
}

#[test]
fn failure_is_told_with_status_label_and_words() {
    for (error, status, label, words, _) in all() {
        let told = result_to_handler::<u8>(Err(error));
        assert_eq!(told.0, status);
        assert_eq!(
            told.1,
            Msg {
                ok: true,
                data: None,
                error_type: Some(label.to_string()),
                error_message: Some(words.to_string()),
            }
        );
    }
}

#[test]
fn success_is_told_with_the_value() {
    let told = result_to_handler(Ok(vec![1, 2, 3]));
    assert_eq!(told.0, 200);
    assert_eq!(
        told.1,
        Msg { ok: true, data: Some(vec![1, 2, 3]), error_type: None, error_message: None }
    );
    let told = result_to_handler(Ok(()));
    assert_eq!(told, (200, Msg { ok: true, data: Some(()), error_type: None, error_message: None }));
}

#[test]
fn payload_with_unusual_text_is_framed_as_it_is() {
    assert_eq!(QrError::BrokenUuid(String::new()).to_string(), " is broken UUID");
    assert_eq!(
        QrError::DatabaseNotFound("テスト 物品".to_string()).to_string(),
        "Couldn't find テスト 物品 from database"
    );
}
