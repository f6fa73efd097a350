use api_core::debug::DebugInput;
use api_core::debug::DebugMutation;
use api_core::debug::DebugPayload;
use api_core::debug::DebugQuery;
use api_core::errors::AppError;
use api_core::field_error::classify;
use api_core::field_error::FieldError;
use api_core::field_error::FieldErrorCode;
use api_core::field_error::FieldErrorWithCode;

fn all_kinds() -> Vec<AppError> {
    vec![
        AppError::BadRequest("a".to_string()),
        AppError::Unauthenticated,
        AppError::Forbidden,
        AppError::NotFound,
        AppError::Internal("b".to_string()),
    ]
}

#[test]
fn message_of_each_kind() {
    assert_eq!(
        AppError::BadRequest("token empty".to_string()).message(),
        "不正なパラメーターです: token empty"
    );
    assert_eq!(AppError::Unauthenticated.message(), "認証エラーです");
    assert_eq!(AppError::Forbidden.message(), "禁止された行為です");
    assert_eq!(AppError::NotFound.message(), "指定されたリソースが見つかりません");
    assert_eq!(
        AppError::Internal("db down".to_string()).message(),
        "サーバーエラーです: db down"
    );
}

#[test]
fn message_holds_the_detail_as_it_stands() {
    let detail = "line one\n\"quoted\" \\ and 日本語";
    assert!(AppError::BadRequest(detail.to_string()).message().ends_with(detail));
    assert!(AppError::Internal(detail.to_string()).message().contains(detail));
}

#[test]
fn message_with_empty_detail_is_the_fixed_text() {
    assert_eq!(AppError::BadRequest(String::new()).message(), "不正なパラメーターです: ");
    assert_eq!(AppError::Internal(String::new()).message(), "サーバーエラーです: ");
}

#[test]
fn errors_compare_and_clone() {
    let err = AppError::BadRequest("x".to_string());
    assert_eq!(err.clone(), err);
    assert_ne!(err, AppError::BadRequest("y".to_string()));
    assert_ne!(AppError::Forbidden, AppError::NotFound);
    assert!(AppError::BadRequest("x".to_string()) < AppError::Unauthenticated);
}

#[test]
fn code_of_each_category() {
    assert_eq!(FieldErrorCode::BadRequest.code(), "BAD_REQUEST");
    assert_eq!(FieldErrorCode::Unauthenticated.code(), "UNAUTHENTICATED");
    assert_eq!(FieldErrorCode::NotFound.code(), "NOT_FOUND");
    assert_eq!(FieldErrorCode::Forbidden.code(), "FORBIDDEN");
    assert_eq!(FieldErrorCode::Internal.code(), "INTERNAL");
}

#[test]
fn name_of_each_category() {
    assert_eq!(FieldErrorCode::BadRequest.name(), "BadRequest");
    assert_eq!(FieldErrorCode::Unauthenticated.name(), "Unauthenticated");
    assert_eq!(FieldErrorCode::NotFound.name(), "NotFound");
    assert_eq!(FieldErrorCode::Forbidden.name(), "Forbidden");
    assert_eq!(FieldErrorCode::Internal.name(), "Internal");
}

#[test]
fn classify_gives_category_and_message() {
    let expected = vec![
        FieldErrorCode::BadRequest,
        FieldErrorCode::Unauthenticated,
        FieldErrorCode::Forbidden,
        FieldErrorCode::NotFound,
        FieldErrorCode::Internal,
    ];
    let kinds = all_kinds();
    for i in 0..kinds.len() {
        let (code, message) = classify(&kinds[i]);
        assert_eq!(code, expected[i]);
        assert_eq!(message, kinds[i].message());
    }
}

#[test]
fn classify_tells_the_kinds_apart() {
    let kinds = all_kinds();
    for i in 0..kinds.len() {
        for j in 0..kinds.len() {
            let same = classify(&kinds[i]).0 == classify(&kinds[j]).0;
            assert_eq!(same, i == j);
        }
    }
}

#[test]
fn classify_ignores_the_detail() {
    let a = classify(&AppError::Internal("one".to_string())).0;
    let b = classify(&AppError::Internal("two".to_string())).0;
    assert_eq!(a, b);
    assert_eq!(a, FieldErrorCode::Internal);
}

#[test]
fn pairing_keeps_the_error_and_finds_its_category() {
    let paired = FieldErrorWithCode::from(AppError::NotFound);
    assert_eq!(paired.error(), &AppError::NotFound);
    assert_eq!(paired.code(), FieldErrorCode::NotFound);
    let paired = FieldErrorWithCode::from(AppError::Internal("boom".to_string()));
    assert_eq!(paired.error(), &AppError::Internal("boom".to_string()));
    assert_eq!(paired.code(), FieldErrorCode::Internal);
}

#[test]
fn outward_error_has_message_and_code() {
    let err = FieldError::from(FieldErrorWithCode::from(AppError::Forbidden));
    assert_eq!(
        err,
        FieldError { message: "禁止された行為です".to_string(), code: "FORBIDDEN".to_string() }
    );
    let err: FieldError = FieldErrorWithCode::from(AppError::Unauthenticated).into();
    assert_eq!(err.message, "認証エラーです");
    assert_eq!(err.code, "UNAUTHENTICATED");
}

#[test]
fn debug_query_answers_true() {
    assert_eq!(DebugQuery.debug(), Ok(true));
    assert_eq!(DebugQuery::default().debug(), Ok(true));
}

#[test]
fn debug_mutation_refuses_the_empty_token() {
    let res = DebugMutation.debug(DebugInput { token: String::new() });
    let err = res.unwrap_err();
    assert_eq!(err.code, "BAD_REQUEST");
    assert!(err.message.contains("token empty"));
    assert_eq!(err.message, AppError::BadRequest("token empty".to_string()).message());
}

#[test]
fn debug_mutation_accepts_a_token() {
    let res = DebugMutation.debug(DebugInput { token: "abc".to_string() });
    assert_eq!(res, Ok(DebugPayload { is_ok: true }));
    let res = DebugMutation::default().debug(DebugInput { token: " ".to_string() });
    assert_eq!(res, Ok(DebugPayload { is_ok: true }));
}
