use daedalus::result::{AppError, DbErrorKind, DbFailure, HtmlErrorResponse, HtmlReply, JsonErrorResponse};

#[test]
fn constructors_status_and_text() {
    let cases: Vec<(AppError, u16, &str, &str)> = vec![
        (AppError::validation_error("bad field"), 400, "ValidationError", "bad field"),
        (AppError::bad_request("nope"), 400, "BadRequest", "nope"),
        (AppError::server_error("boom"), 500, "ServerError", "boom"),
        (AppError::not_found("User", "42"), 404, "NotFound", "User not found with id: 42"),
        (AppError::forbidden("no"), 403, "Forbidden", "no"),
        (AppError::unauthorized(), 401, "Unauthorized", "Unauthorized"),
    ];
    for (e, status, kind, text) in cases {
        assert_eq!(e.status_code(), status);
        assert_eq!(e.kind_name(), kind);
        assert_eq!(e.to_string(), text);
    }
}

#[test]
fn database_failures_map_to_errors() {
    let msg = |s: &str| s.to_string();
    let e = AppError::from_db_failure(DbFailure::NotFound);
    assert_eq!((e.status_code(), e.to_string()), (404, "Entity not found with id: Unknown".to_string()));
    let e = AppError::from_db_failure(DbFailure::Database { kind: DbErrorKind::UniqueViolation, message: msg("dup") });
    assert!(matches!(e, AppError::Forbidden { ref cause } if cause == "dup"));
    for kind in [DbErrorKind::ForeignKeyViolation, DbErrorKind::NotNullViolation, DbErrorKind::CheckViolation] {
        let e = AppError::from_db_failure(DbFailure::Database { kind, message: msg("m") });
        assert!(matches!(e, AppError::BadRequest { ref cause } if cause == "m"));
    }
    let e = AppError::from_db_failure(DbFailure::Database { kind: DbErrorKind::Other, message: msg("x") });
    assert!(matches!(e, AppError::ServerError { ref cause } if cause == "x"));
    let e = AppError::from_db_failure(DbFailure::Other { description: msg("closed") });
    assert!(matches!(e, AppError::ServerError { ref cause } if cause == "closed"));
}

#[test]
fn html_error_page() {
    let page = HtmlErrorResponse(AppError::not_found("User", "7")).to_html();
    let expected = format!(
        r#"<html>
                <head>
                    <title>Error</title>
                </head>
                <body>
                    <h1>Error - {}</h1>
                    <p>{}</p>
                </body>
            </html>"#,
        "404", "User not found with id: 7"
    );
    assert_eq!(page, expected);
}

#[test]
fn unauthorized_redirects_to_login() {
    match HtmlErrorResponse(AppError::Unauthorized).reply() {
        HtmlReply::Redirect { location } => assert_eq!(location, "/login"),
        other => panic!("unexpected {:?}", other),
    }
    match HtmlErrorResponse(AppError::forbidden("x")).reply() {
        HtmlReply::Page { status, body } => {
            assert_eq!(status, 403);
            assert!(body.contains("<h1>Error - 403</h1>"));
            assert!(body.contains("<p>x</p>"));
        }
        other => panic!("unexpected {:?}", other),
    }
}

#[test]
fn responses_wrap_the_error() {
    let j: JsonErrorResponse = AppError::unauthorized().into();
    assert_eq!(j.0.status_code(), 401);
    let h: HtmlErrorResponse = AppError::bad_request("b").into();
    assert_eq!(h.0.to_string(), "b");
}
