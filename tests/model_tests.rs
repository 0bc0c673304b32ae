use blog_api::config::Config;
use blog_api::errors::{AppError, AuthError};
use blog_api::models::{
    check_owner, Article, ArticleResponse, ErrorResponse, GenerateWalletsRequest, Message,
    MessageQuery, MessageRepository, MessageResponse, PageWindow, User, UserRepository,
};
use blog_api::numbers::parse_decimal;
use blog_api::password::{check_credentials, hash_password, verify_password};

#[test]
fn error_response_new_keeps_text() {
    assert_eq!(ErrorResponse::new("Post not found").error, "Post not found");
}

#[test]
fn status_codes() {
    assert_eq!(AppError::ValidationError("x".to_string()).status_code(), 400);
    assert_eq!(AppError::BadRequest("x".to_string()).status_code(), 400);
    assert_eq!(AppError::AuthenticationError.status_code(), 401);
    assert_eq!(AppError::UnauthorizedError.status_code(), 403);
    assert_eq!(AppError::NotFoundError.status_code(), 404);
    assert_eq!(AppError::Conflict("x".to_string()).status_code(), 409);
    assert_eq!(AppError::RateLimitError.status_code(), 429);
    assert_eq!(AppError::DatabaseError.status_code(), 500);
    assert_eq!(AppError::InternalError.status_code(), 500);
    assert_eq!(AppError::JwtError.status_code(), 401);
    assert_eq!(AppError::HashError.status_code(), 500);
    assert_eq!(AppError::ConfigurationError.status_code(), 500);
}

#[test]
fn every_auth_error_is_401() {
    for e in [
        AuthError::MalformedHeader,
        AuthError::InvalidSignature,
        AuthError::Expired,
        AuthError::PrincipalNotFound,
    ] {
        assert_eq!(e.status_code(), 401);
        assert_eq!(e.to_app_error().status_code(), 401);
    }
}

#[test]
fn user_facing_messages() {
    assert_eq!(
        AppError::ValidationError("title".to_string()).user_facing_message(),
        "验证失败: title"
    );
    assert_eq!(AppError::NotFoundError.user_facing_message(), "资源未找到");
    assert_eq!(AppError::JwtError.user_facing_message(), "令牌无效或已过期");
    assert_eq!(AppError::BadRequest("b".to_string()).to_string(), "Bad request: b");
    assert_eq!(AppError::AuthenticationError.to_string(), "Authentication failed");
    let (status, body) = AppError::RateLimitError.error_response();
    assert_eq!(status, 429);
    assert_eq!(body.error, "请求过于频繁，请稍后再试");
}

#[test]
fn password_hash_round_trip() {
    let h = hash_password("hunter22").unwrap();
    assert_ne!(h, "hunter22");
    assert!(h.starts_with("$2"));
    assert_eq!(verify_password("hunter22", &h).unwrap(), true);
    assert_eq!(verify_password("hunter23", &h).unwrap(), false);
    assert!(matches!(verify_password("x", "not-a-hash"), Err(AppError::HashError)));
    assert_eq!(UserRepository::verify_password("hunter22", &h).unwrap(), true);
}

#[test]
fn credentials_check() {
    let h = hash_password("secret1").unwrap();
    assert!(check_credentials(Some(&h), "secret1").is_ok());
    assert!(matches!(check_credentials(Some(&h), "secret2"), Err(AppError::AuthenticationError)));
    assert!(matches!(check_credentials(None, "secret1"), Err(AppError::AuthenticationError)));
    assert!(matches!(check_credentials(Some("junk"), "secret1"), Err(AppError::HashError)));
}

#[test]
fn wallet_count_range() {
    assert!(GenerateWalletsRequest { count: 1 }.validate().is_ok());
    assert!(GenerateWalletsRequest { count: 10000 }.validate().is_ok());
    let e = GenerateWalletsRequest { count: 0 }.validate().unwrap_err();
    assert_eq!(e.to_string(), "Validation error: count");
    assert!(GenerateWalletsRequest { count: 10001 }.validate().is_err());
}

#[test]
fn wallet_count_from_text_and_number() {
    assert_eq!(GenerateWalletsRequest::count_from_text("10"), Some(10));
    assert_eq!(GenerateWalletsRequest::count_from_text("+7"), Some(7));
    assert_eq!(GenerateWalletsRequest::count_from_text("4294967295"), Some(u32::MAX));
    assert_eq!(GenerateWalletsRequest::count_from_text("4294967296"), None);
    assert_eq!(GenerateWalletsRequest::count_from_text(""), None);
    assert_eq!(GenerateWalletsRequest::count_from_text("+"), None);
    assert_eq!(GenerateWalletsRequest::count_from_text("-1"), None);
    assert_eq!(GenerateWalletsRequest::count_from_text("1 "), None);
    assert_eq!(GenerateWalletsRequest::count_from_number(42), Some(42));
    assert_eq!(GenerateWalletsRequest::count_from_number(1 << 32), None);
}

#[test]
fn decimal_parse_matches_std() {
    for s in ["0", "007", "+12", "65535", "65536", "", "+", "1a", "99999999999999999999"] {
        let expected = s.parse::<u32>().ok().filter(|v| *v <= 65535);
        assert_eq!(parse_decimal(s, 65535), expected, "input {:?}", s);
    }
}

#[test]
fn message_query_default() {
    let q = MessageQuery::default();
    assert_eq!(q.page, Some(1));
    assert_eq!(q.per_page, Some(10));
    assert!(q.user_id.is_none());
}

#[test]
fn page_windows() {
    let q = MessageQuery { page: Some(3), per_page: Some(20), user_id: None };
    assert_eq!(
        MessageRepository::page_window(&q).unwrap(),
        PageWindow { page: 3, per_page: 20, offset: 40 }
    );
    let q = MessageQuery { page: None, per_page: None, user_id: Some("u".to_string()) };
    assert_eq!(
        MessageRepository::page_window(&q).unwrap(),
        PageWindow { page: 1, per_page: 10, offset: 0 }
    );
    let q = MessageQuery { page: Some(0), per_page: Some(10), user_id: None };
    assert!(matches!(MessageRepository::page_window(&q), Err(AppError::BadRequest(_))));
    let q = MessageQuery { page: Some(1), per_page: Some(0), user_id: None };
    assert!(MessageRepository::page_window(&q).is_err());
    let q = MessageQuery { page: Some(u32::MAX), per_page: Some(u32::MAX), user_id: None };
    assert!(MessageRepository::page_window(&q).is_err());
}

#[test]
fn total_pages_rounds_up() {
    assert_eq!(MessageRepository::total_pages(0, 10), 0);
    assert_eq!(MessageRepository::total_pages(1, 10), 1);
    assert_eq!(MessageRepository::total_pages(10, 10), 1);
    assert_eq!(MessageRepository::total_pages(11, 10), 2);
    assert_eq!(MessageRepository::total_pages(-5, 10), 0);
    assert_eq!(MessageRepository::total_pages(i64::MAX, 1), u32::MAX);
}

#[test]
fn list_response_fields() {
    let m = Message {
        id: "m1".to_string(),
        user_id: "u1".to_string(),
        username: "amy".to_string(),
        content: "hi".to_string(),
        created_at: 1,
        updated_at: 2,
    };
    let window = PageWindow { page: 2, per_page: 5, offset: 5 };
    let r = MessageRepository::list_response(vec![MessageResponse::from(m)], 11, window);
    assert_eq!(r.messages.len(), 1);
    assert_eq!(r.messages[0].username, "amy");
    assert_eq!(r.total, 11);
    assert_eq!(r.page, 2);
    assert_eq!(r.per_page, 5);
    assert_eq!(r.total_pages, 3);
}

#[test]
fn article_response_copies_fields() {
    let a = Article {
        id: "a".to_string(),
        user_id: "u".to_string(),
        title: "t".to_string(),
        content: "c".to_string(),
        created_at: 3,
        updated_at: 4,
    };
    let r = ArticleResponse::from(a);
    assert_eq!((r.id.as_str(), r.title.as_str(), r.updated_at), ("a", "t", 4));
}

#[test]
fn ownership_check() {
    assert!(check_owner("u1", "u1").is_ok());
    assert!(matches!(check_owner("u1", "u2"), Err(AppError::UnauthorizedError)));
    assert!(check_owner("u1", "u10").is_err());
}

#[test]
fn user_new_and_response() {
    let u = User::new("amy".to_string(), "amy@example.com".to_string(), "$2b$hash".to_string());
    assert_eq!(u.id.len(), 36);
    assert!(u.is_active);
    assert_eq!(u.created_at, u.updated_at);
    let r = u.to_response();
    assert_eq!(r.id, u.id);
    assert_eq!(r.email, "amy@example.com");
    let v = User::new("amy".to_string(), "amy@example.com".to_string(), "$2b$hash".to_string());
    assert_ne!(u.id, v.id);
}

#[test]
fn config_from_values() {
    let c = Config::from_values(Some("s3cret".to_string()), None, None).unwrap();
    assert_eq!(c.jwt_secret, "s3cret");
    assert_eq!(c.server_host, "127.0.0.1");
    assert_eq!(c.server_port, 8080);
    let c = Config::from_values(Some("k".to_string()), Some("0.0.0.0".to_string()), Some("3000".to_string()))
        .unwrap();
    assert_eq!((c.server_host.as_str(), c.server_port), ("0.0.0.0", 3000));
    assert!(matches!(Config::from_values(None, None, None), Err(AppError::ConfigurationError)));
    let c = Config::from_values(Some(String::new()), None, None).unwrap();
    assert_eq!(c.jwt_secret, "");
    assert!(Config::from_values(Some("k".to_string()), None, Some("70000".to_string())).is_err());
    assert!(Config::from_values(Some("k".to_string()), None, Some("port".to_string())).is_err());
}
