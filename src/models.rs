use vstd::prelude::*;
use vstd::string::StrSliceExecFns;

use crate::claims::unix_now;
use crate::errors::AppError;
use crate::numbers::{numeral_value, parse_decimal};

verus! {

/// Body of an error response: `{"error": ...}`.
#[derive(Debug, Clone)]
pub struct ErrorResponse {
    pub error: String,
}

impl ErrorResponse {
    pub fn new(error: &str) -> (r: ErrorResponse)
        ensures
            r.error@ == error@,
    {
        ErrorResponse { error: error.to_owned() }
    }
}

/// Fewest and most wallets one request may ask for.
pub const MIN_WALLETS: u32 = 1;
pub const MAX_WALLETS: u32 = 10000;

/// Request for a batch of fresh wallets.
#[derive(Debug, Clone, Copy)]
pub struct GenerateWalletsRequest {
    pub count: u32,
}

impl GenerateWalletsRequest {
    /// The count must lie between 1 and 10000 inclusive.
    pub fn validate(&self) -> (r: Result<(), AppError>)
        ensures
            r is Ok <==> MIN_WALLETS <= self.count <= MAX_WALLETS,
            r matches Err(e) ==> (e matches AppError::ValidationError(m) && m@ == "count"@),
    {
        if self.count < MIN_WALLETS || self.count > MAX_WALLETS {
            Err(AppError::ValidationError("count".to_owned()))
        } else {
            Ok(())
        }
    }

    /// The count as given in a JSON string, such as `"10"`.
    pub fn count_from_text(text: &str) -> (r: Option<u32>)
        ensures
            match numeral_value(text@, u32::MAX as int) {
                Some(v) => r matches Some(x) && x as int == v,
                None => r is None,
            },
    {
        parse_decimal(text, u32::MAX)
    }

    /// The count as given in a JSON number; `None` when it exceeds `u32`.
    pub fn count_from_number(value: u64) -> (r: Option<u32>)
        ensures
            value <= u32::MAX ==> r == Some(value as u32),
            value > u32::MAX ==> r is None,
    {
        if value <= u32::MAX as u64 {
            Some(value as u32)
        } else {
            None
        }
    }
}

/// A generated wallet: its address and hex-encoded private key.
#[derive(Debug, Clone)]
pub struct WalletInfo {
    pub address: String,
    pub private_key: String,
}

#[derive(Debug, Clone)]
pub struct GenerateWalletsResponse {
    pub count: u32,
    pub wallets: Vec<WalletInfo>,
}

/// A message-board entry. Identifiers are UUIDs in text form; instants are
/// seconds since the Unix epoch.
#[derive(Debug, Clone)]
pub struct Message {
    pub id: String,
    pub user_id: String,
    pub username: String,
    pub content: String,
    pub created_at: i64,
    pub updated_at: i64,
}

#[derive(Debug, Clone)]
pub struct MessageResponse {
    pub id: String,
    pub user_id: String,
    pub username: String,
    pub content: String,
    pub created_at: i64,
    pub updated_at: i64,
}

impl MessageResponse {
    pub fn from(message: Message) -> (r: MessageResponse)
        ensures
            r.id@ == message.id@,
            r.user_id@ == message.user_id@,
            r.username@ == message.username@,
            r.content@ == message.content@,
            r.created_at == message.created_at,
            r.updated_at == message.updated_at,
    {
        MessageResponse {
            id: message.id,
            user_id: message.user_id,
            username: message.username,
            content: message.content,
            created_at: message.created_at,
            updated_at: message.updated_at,
        }
    }
}

/// Listing parameters: page number (from 1), page size, and an optional
/// author filter.
#[derive(Debug, Clone)]
pub struct MessageQuery {
    pub page: Option<u32>,
    pub per_page: Option<u32>,
    pub user_id: Option<String>,
}

impl Default for MessageQuery {
    /// First page of ten, all authors.
    fn default() -> (r: MessageQuery)
        ensures
            r.page == Some(1u32),
            r.per_page == Some(10u32),
            r.user_id is None,
    {
        MessageQuery { page: Some(1), per_page: Some(10), user_id: None }
    }
}

/// The slice of the listing one page covers.
#[derive(Debug, Clone, Copy, PartialEq, Eq, Structural)]
pub struct PageWindow {
    pub page: u32,
    pub per_page: u32,
    /// How many entries precede the page.
    pub offset: u32,
}

/// Page number and size a query asks for, with the defaults filled in.
pub open spec fn requested_page(q: MessageQuery) -> (int, int) {
    (
        match q.page {
            Some(p) => p as int,
            None => 1,
        },
        match q.per_page {
            Some(n) => n as int,
            None => 10,
        },
    )
}

/// Number of pages needed for `total` entries, `per_page` to a page.
pub open spec fn pages_needed(total: int, per_page: int) -> int
    recommends
        per_page > 0,
{
    if total <= 0 {
        0
    } else {
        (total + per_page - 1) / per_page
    }
}

/// Stores and lists message-board entries.
pub struct MessageRepository;

impl MessageRepository {
    /// The window of the listing that `query` asks for. Page numbers start
    /// at 1; a page number or size of 0, or an offset beyond `u32`, is a bad
    /// request.
    pub fn page_window(query: &MessageQuery) -> (r: Result<PageWindow, AppError>)
        ensures
            ({
                let (p, n) = requested_page(*query);
                if p >= 1 && n >= 1 && (p - 1) * n <= u32::MAX {
                    r == Ok::<PageWindow, AppError>(
                        PageWindow { page: p as u32, per_page: n as u32, offset: ((p - 1) * n) as u32 },
                    )
                } else {
                    r matches Err(AppError::BadRequest(_))
                }
            }),
    {
        let page = match query.page {
            Some(p) => p,
            None => 1,
        };
        let per_page = match query.per_page {
            Some(n) => n,
            None => 10,
        };
        if page == 0 || per_page == 0 {
            return Err(AppError::BadRequest("page and per_page start at 1".to_owned()));
        }
        let before = page as u64 - 1;
        proof {
            assert(before * (per_page as u64) <= u32::MAX as int * u32::MAX as int) by (nonlinear_arith)
                requires
                    before <= u32::MAX,
                    per_page <= u32::MAX,
            {
            }
        }
        let offset = before * per_page as u64;
        if offset > u32::MAX as u64 {
            return Err(AppError::BadRequest("page is out of range".to_owned()));
        }
        Ok(PageWindow { page, per_page, offset: offset as u32 })
    }

    /// Number of pages for `total` entries, `per_page` to a page (rounded
    /// up), capped at `u32::MAX`.
    pub fn total_pages(total: i64, per_page: u32) -> (r: u32)
        requires
            per_page > 0,
        ensures
            r as int == if pages_needed(total as int, per_page as int) > u32::MAX {
                u32::MAX as int
            } else {
                pages_needed(total as int, per_page as int)
            },
    {
        if total <= 0 {
            return 0;
        }
        let t = total as u64;
        let n = per_page as u64;
        let pages = t / n + if t % n == 0 { 0 } else { 1 };
        proof {
            assert(pages as int == (t as int + n as int - 1) / (n as int)) by (nonlinear_arith)
                requires
                    n > 0,
                    pages as int == t / n + if t % n == 0 { 0int } else { 1int },
            {
            }
        }
        if pages > u32::MAX as u64 {
            u32::MAX
        } else {
            pages as u32
        }
    }

    /// The listing response for one page of entries out of `total`.
    pub fn list_response(messages: Vec<MessageResponse>, total: i64, window: PageWindow) -> (r:
        MessageListResponse)
        requires
            window.per_page > 0,
        ensures
            r.messages@ == messages@,
            r.total == total,
            r.page == window.page,
            r.per_page == window.per_page,
            r.total_pages as int == if pages_needed(total as int, window.per_page as int)
                > u32::MAX {
                u32::MAX as int
            } else {
                pages_needed(total as int, window.per_page as int)
            },
    {
        let total_pages = MessageRepository::total_pages(total, window.per_page);
        MessageListResponse {
            messages,
            total,
            page: window.page,
            per_page: window.per_page,
            total_pages,
        }
    }
}

#[derive(Debug, Clone)]
pub struct MessageListResponse {
    pub messages: Vec<MessageResponse>,
    pub total: i64,
    pub page: u32,
    pub per_page: u32,
    pub total_pages: u32,
}

/// An article. Identifiers are UUIDs in text form; instants are seconds
/// since the Unix epoch.
#[derive(Debug, Clone)]
pub struct Article {
    pub id: String,
    pub user_id: String,
    pub title: String,
    pub content: String,
    pub created_at: i64,
    pub updated_at: i64,
}

#[derive(Debug, Clone)]
pub struct ArticleResponse {
    pub id: String,
    pub user_id: String,
    pub title: String,
    pub content: String,
    pub created_at: i64,
    pub updated_at: i64,
}

impl ArticleResponse {
    pub fn from(article: Article) -> (r: ArticleResponse)
        ensures
            r.id@ == article.id@,
            r.user_id@ == article.user_id@,
            r.title@ == article.title@,
            r.content@ == article.content@,
            r.created_at == article.created_at,
            r.updated_at == article.updated_at,
    {
        ArticleResponse {
            id: article.id,
            user_id: article.user_id,
            title: article.title,
            content: article.content,
            created_at: article.created_at,
            updated_at: article.updated_at,
        }
    }
}

/// Only the author of a post, article or message may change or delete it.
pub fn check_owner(owner_id: &str, caller_id: &str) -> (r: Result<(), AppError>)
    ensures
        r is Ok <==> owner_id@ == caller_id@,
        r matches Err(e) ==> e is UnauthorizedError,
{
    if str_eq(owner_id, caller_id) {
        Ok(())
    } else {
        Err(AppError::UnauthorizedError)
    }
}

/// Whether two texts are equal, character by character.
pub fn str_eq(a: &str, b: &str) -> (r: bool)
    ensures
        r == (a@ == b@),
{
    let n = a.unicode_len();
    if n != b.unicode_len() {
        return false;
    }
    let mut i: usize = 0;
    while i < n
        invariant
            i <= n,
            n == a@.len(),
            n == b@.len(),
            forall|j: int| 0 <= j < i ==> a@[j] == b@[j],
        decreases n - i,
    {
        if a.get_char(i) != b.get_char(i) {
            return false;
        }
        i = i + 1;
    }
    assert(a@ =~= b@);
    true
}

/// A registered account. The id is a UUID in text form; instants are
/// seconds since the Unix epoch.
#[derive(Debug, Clone)]
pub struct User {
    pub id: String,
    pub username: String,
    pub email: String,
    pub password_hash: String,
    pub created_at: i64,
    pub updated_at: i64,
    pub is_active: bool,
}

/// The public projection of an account: no password hash.
#[derive(Debug, Clone)]
pub struct UserResponse {
    pub id: String,
    pub username: String,
    pub email: String,
    pub created_at: i64,
    pub is_active: bool,
}

/// Answer to a successful sign-up or log-in: the token and the account.
#[derive(Debug, Clone)]
pub struct AuthResponse {
    pub token: String,
    pub user: UserResponse,
}

/// A fresh random (version 4) UUID in hyphenated text form.
///
/// Relies on `uuid::Uuid::new_v4`; nothing is promised of the value.
#[verifier::external_body]
fn new_uuid() -> String {
    uuid::Uuid::new_v4().to_string()
}

impl User {
    /// A new, active account with the given id, created at `now`.
    pub fn created_at(id: String, username: String, email: String, password_hash: String, now: i64) -> (r:
        User)
        ensures
            r.id@ == id@,
            r.username@ == username@,
            r.email@ == email@,
            r.password_hash@ == password_hash@,
            r.created_at == now,
            r.updated_at == now,
            r.is_active,
    {
        User { id, username, email, password_hash, created_at: now, updated_at: now, is_active: true }
    }

    /// A new, active account with a fresh random id, created now.
    pub fn new(username: String, email: String, password_hash: String) -> (r: User)
        ensures
            r.username@ == username@,
            r.email@ == email@,
            r.password_hash@ == password_hash@,
            r.created_at == r.updated_at,
            r.is_active,
    {
        let id = new_uuid();
        let now = unix_now();
        User::created_at(id, username, email, password_hash, now)
    }

    pub fn to_response(&self) -> (r: UserResponse)
        ensures
            r.id@ == self.id@,
            r.username@ == self.username@,
            r.email@ == self.email@,
            r.created_at == self.created_at,
            r.is_active == self.is_active,
    {
        UserResponse {
            id: self.id.clone(),
            username: self.username.clone(),
            email: self.email.clone(),
            created_at: self.created_at,
            is_active: self.is_active,
        }
    }
}

/// Looks up accounts and checks their passwords.
pub struct UserRepository;

impl UserRepository {
    /// Whether `password` matches the stored `password_hash`.
    pub fn verify_password(password: &str, password_hash: &str) -> (r: Result<bool, AppError>)
        ensures
            match crate::password::bcrypt_verdict(password@, password_hash@) {
                Some(b) => r matches Ok(v) && v == b,
                None => r matches Err(AppError::HashError),
            },
    {
        crate::password::verify_password(password, password_hash)
    }
}

} // verus!
