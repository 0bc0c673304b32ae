use vstd::prelude::*;
use vstd::string::StringExecFns;

use crate::models::ErrorResponse;

verus! {

/// Why an inbound request could not be identified.
///
/// All of these surface to the caller as 401; the distinction exists for
/// internal diagnostics only.
#[derive(Debug, Clone, Copy, PartialEq, Eq, Structural)]
pub enum AuthError {
    /// The authorization header is absent or does not start with `Bearer `.
    MalformedHeader,
    /// The token is not a well-formed token signed with the configured secret.
    InvalidSignature,
    /// The token's expiry instant has passed.
    Expired,
    /// The token's subject no longer exists in the backing store.
    PrincipalNotFound,
}

/// Errors the API reports to its callers.
#[derive(Debug, Clone)]
pub enum AppError {
    DatabaseError,
    ValidationError(String),
    AuthenticationError,
    UnauthorizedError,
    NotFoundError,
    BadRequest(String),
    Conflict(String),
    InternalError,
    JwtError,
    HashError,
    RateLimitError,
    ConfigurationError,
}

/// HTTP status of each error.
pub open spec fn status_of(e: AppError) -> u16 {
    match e {
        AppError::ValidationError(_) | AppError::BadRequest(_) => 400,
        AppError::AuthenticationError | AppError::JwtError => 401,
        AppError::UnauthorizedError => 403,
        AppError::NotFoundError => 404,
        AppError::Conflict(_) => 409,
        AppError::RateLimitError => 429,
        _ => 500,
    }
}

/// The message shown to callers for each error.
pub open spec fn user_message_of(e: AppError) -> Seq<char> {
    match e {
        AppError::DatabaseError => "数据库操作失败"@,
        AppError::ValidationError(msg) => "验证失败: "@ + msg@,
        AppError::AuthenticationError => "认证失败，请检查用户名和密码"@,
        AppError::UnauthorizedError => "无权限访问此资源"@,
        AppError::NotFoundError => "资源未找到"@,
        AppError::BadRequest(msg) => "请求错误: "@ + msg@,
        AppError::Conflict(msg) => "资源冲突: "@ + msg@,
        AppError::InternalError => "服务器内部错误"@,
        AppError::JwtError => "令牌无效或已过期"@,
        AppError::HashError => "密码处理失败"@,
        AppError::RateLimitError => "请求过于频繁，请稍后再试"@,
        AppError::ConfigurationError => "服务器配置错误"@,
    }
}

/// The diagnostic description of each error.
pub open spec fn description_of(e: AppError) -> Seq<char> {
    match e {
        AppError::DatabaseError => "Database error"@,
        AppError::ValidationError(msg) => "Validation error: "@ + msg@,
        AppError::AuthenticationError => "Authentication failed"@,
        AppError::UnauthorizedError => "Unauthorized"@,
        AppError::NotFoundError => "Not found"@,
        AppError::BadRequest(msg) => "Bad request: "@ + msg@,
        AppError::Conflict(msg) => "Conflict: "@ + msg@,
        AppError::InternalError => "Internal server error"@,
        AppError::JwtError => "JWT error"@,
        AppError::HashError => "Password hash error"@,
        AppError::RateLimitError => "Rate limit exceeded"@,
        AppError::ConfigurationError => "Configuration error: no signing secret"@,
    }
}

impl AuthError {
    /// HTTP status for every authentication failure: 401.
    pub fn status_code(&self) -> (r: u16)
        ensures
            r == 401,
    {
        401
    }

    /// Every authentication failure collapses into one caller-visible error.
    pub fn to_app_error(&self) -> (r: AppError)
        ensures
            r matches AppError::AuthenticationError,
    {
        AppError::AuthenticationError
    }
}

impl AppError {
    pub fn status_code(&self) -> (r: u16)
        ensures
            r == status_of(*self),
    {
        match self {
            AppError::ValidationError(_) | AppError::BadRequest(_) => 400,
            AppError::AuthenticationError | AppError::JwtError => 401,
            AppError::UnauthorizedError => 403,
            AppError::NotFoundError => 404,
            AppError::Conflict(_) => 409,
            AppError::RateLimitError => 429,
            _ => 500,
        }
    }

    /// The message shown to callers; it never reveals internal detail
    /// beyond what the error itself carries.
    pub fn user_facing_message(&self) -> (r: String)
        ensures
            r@ == user_message_of(*self),
    {
        match self {
            AppError::DatabaseError => "数据库操作失败".to_owned(),
            AppError::ValidationError(msg) => "验证失败: ".to_owned().concat(msg.as_str()),
            AppError::AuthenticationError => "认证失败，请检查用户名和密码".to_owned(),
            AppError::UnauthorizedError => "无权限访问此资源".to_owned(),
            AppError::NotFoundError => "资源未找到".to_owned(),
            AppError::BadRequest(msg) => "请求错误: ".to_owned().concat(msg.as_str()),
            AppError::Conflict(msg) => "资源冲突: ".to_owned().concat(msg.as_str()),
            AppError::InternalError => "服务器内部错误".to_owned(),
            AppError::JwtError => "令牌无效或已过期".to_owned(),
            AppError::HashError => "密码处理失败".to_owned(),
            AppError::RateLimitError => "请求过于频繁，请稍后再试".to_owned(),
            AppError::ConfigurationError => "服务器配置错误".to_owned(),
        }
    }

    /// The diagnostic description, for logs.
    pub fn to_string(&self) -> (r: String)
        ensures
            r@ == description_of(*self),
    {
        match self {
            AppError::DatabaseError => "Database error".to_owned(),
            AppError::ValidationError(msg) => "Validation error: ".to_owned().concat(msg.as_str()),
            AppError::AuthenticationError => "Authentication failed".to_owned(),
            AppError::UnauthorizedError => "Unauthorized".to_owned(),
            AppError::NotFoundError => "Not found".to_owned(),
            AppError::BadRequest(msg) => "Bad request: ".to_owned().concat(msg.as_str()),
            AppError::Conflict(msg) => "Conflict: ".to_owned().concat(msg.as_str()),
            AppError::InternalError => "Internal server error".to_owned(),
            AppError::JwtError => "JWT error".to_owned(),
            AppError::HashError => "Password hash error".to_owned(),
            AppError::RateLimitError => "Rate limit exceeded".to_owned(),
            AppError::ConfigurationError => "Configuration error: no signing secret".to_owned(),
        }
    }

    /// Status and body of the response that reports this error.
    pub fn error_response(&self) -> (r: (u16, ErrorResponse))
        ensures
            r.0 == status_of(*self),
            r.1.error@ == user_message_of(*self),
    {
        let msg = self.user_facing_message();
        (self.status_code(), ErrorResponse { error: msg })
    }
}

} // verus!
