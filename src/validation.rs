use vstd::prelude::*;
use vstd::string::{StrSliceExecFns, StringExecFns};

use crate::errors::AppError;

verus! {

/// Whether `s` has at least `min` characters and, when `max` is given, at
/// most `max` characters (characters, not bytes).
pub open spec fn length_within(s: Seq<char>, min: int, max: Option<int>) -> bool {
    min <= s.len() && match max {
        Some(m) => s.len() <= m,
        None => true,
    }
}

/// Whether an optional field is absent or satisfies the length rule.
pub open spec fn optional_length_within(s: Option<Seq<char>>, min: int, max: Option<int>) -> bool {
    match s {
        Some(v) => length_within(v, min, max),
        None => true,
    }
}

/// The list of invalid field names `acc`, extended by `name` when `ok` is
/// false; names are separated by `", "`.
pub open spec fn noted(acc: Seq<char>, ok: bool, name: Seq<char>) -> Seq<char> {
    if ok {
        acc
    } else if acc.len() == 0 {
        name
    } else {
        acc + ", "@ + name
    }
}

/// Whether `s` is an e-mail address by the rules of the `validator` crate.
pub uninterp spec fn is_email(s: Seq<char>) -> bool;

/// Relies on `validator::validate_email`: the verdict depends on the text
/// alone, and an empty text or one without `@` is never an address.
#[verifier::external_body]
fn email_valid(s: &str) -> (r: bool)
    ensures
        r == is_email(s@),
        s@.len() == 0 ==> !r,
        !s@.contains('@') ==> !r,
{
    validator::validate_email(s)
}

/// The length rule on a text field.
pub fn length_ok(s: &str, min: u64, max: Option<u64>) -> (r: bool)
    ensures
        r == length_within(s@, min as int, match max {
            Some(m) => Some(m as int),
            None => None,
        }),
{
    let n = s.unicode_len() as u64;
    if n < min {
        return false;
    }
    match max {
        Some(m) => n <= m,
        None => true,
    }
}

/// The length rule on an optional text field: an absent field passes.
pub fn optional_length_ok(s: &Option<String>, min: u64, max: Option<u64>) -> (r: bool)
    ensures
        r == optional_length_within(match s {
            Some(v) => Some(v@),
            None => None,
        }, min as int, match max {
            Some(m) => Some(m as int),
            None => None,
        }),
{
    match s {
        Some(v) => length_ok(v.as_str(), min, max),
        None => true,
    }
}

/// Appends `name` to the list of invalid fields `acc` when `ok` is false.
pub fn note_field(acc: String, ok: bool, name: &str) -> (r: String)
    ensures
        r@ == noted(acc@, ok, name@),
{
    if ok {
        acc
    } else if acc.unicode_len() == 0 {
        name.to_owned()
    } else {
        acc.concat(", ").concat(name)
    }
}

/// `Ok` when no field is listed in `invalid`, else a validation error that
/// names the invalid fields.
pub fn finish(invalid: String) -> (r: Result<(), AppError>)
    ensures
        invalid@.len() == 0 ==> r is Ok,
        invalid@.len() != 0 ==> (r matches Err(AppError::ValidationError(m)) && m@ == invalid@),
{
    if invalid.unicode_len() == 0 {
        Ok(())
    } else {
        Err(AppError::ValidationError(invalid))
    }
}

/// Whether a validation result reports exactly the invalid fields listed in
/// `invalid`.
pub open spec fn reports_fields(r: Result<(), AppError>, invalid: Seq<char>) -> bool {
    if invalid.len() == 0 {
        r is Ok
    } else {
        r matches Err(AppError::ValidationError(m)) && m@ == invalid
    }
}

/// Sign-up payload: username of 3 to 50 characters, an e-mail address, and
/// a password of at least 6 characters.
#[derive(Debug, Clone)]
pub struct RegisterRequest {
    pub username: String,
    pub email: String,
    pub password: String,
}

impl RegisterRequest {
    pub open spec fn invalid_fields(&self) -> Seq<char> {
        noted(
            noted(
                noted(seq![], length_within(self.username@, 3, Some(50)), "username"@),
                is_email(self.email@),
                "email"@,
            ),
            length_within(self.password@, 6, None),
            "password"@,
        )
    }

    pub fn validate(&self) -> (r: Result<(), AppError>)
        ensures
            reports_fields(r, self.invalid_fields()),
    {
        let acc = note_field(String::new(), length_ok(self.username.as_str(), 3, Some(50)), "username");
        let acc = note_field(acc, email_valid(self.email.as_str()), "email");
        let acc = note_field(acc, length_ok(self.password.as_str(), 6, None), "password");
        finish(acc)
    }
}

/// Log-in payload: username of at least 3 characters and a password of at
/// least 6.
#[derive(Debug, Clone)]
pub struct LoginRequest {
    pub username: String,
    pub password: String,
}

impl LoginRequest {
    pub open spec fn invalid_fields(&self) -> Seq<char> {
        noted(
            noted(seq![], length_within(self.username@, 3, None), "username"@),
            length_within(self.password@, 6, None),
            "password"@,
        )
    }

    pub fn validate(&self) -> (r: Result<(), AppError>)
        ensures
            reports_fields(r, self.invalid_fields()),
    {
        let acc = note_field(String::new(), length_ok(self.username.as_str(), 3, None), "username");
        let acc = note_field(acc, length_ok(self.password.as_str(), 6, None), "password");
        finish(acc)
    }
}

/// Sign-up payload of the account service: username of 3 to 50 characters,
/// an e-mail address, and a password of 8 to 128 characters.
#[derive(Debug, Clone)]
pub struct RegisterInput {
    pub username: String,
    pub email: String,
    pub password: String,
}

impl RegisterInput {
    pub open spec fn invalid_fields(&self) -> Seq<char> {
        noted(
            noted(
                noted(seq![], length_within(self.username@, 3, Some(50)), "username"@),
                is_email(self.email@),
                "email"@,
            ),
            length_within(self.password@, 8, Some(128)),
            "password"@,
        )
    }

    pub fn validate(&self) -> (r: Result<(), AppError>)
        ensures
            reports_fields(r, self.invalid_fields()),
    {
        let acc = note_field(String::new(), length_ok(self.username.as_str(), 3, Some(50)), "username");
        let acc = note_field(acc, email_valid(self.email.as_str()), "email");
        let acc = note_field(acc, length_ok(self.password.as_str(), 8, Some(128)), "password");
        finish(acc)
    }
}

/// Log-in payload of the account service; it carries no field rules.
#[derive(Debug, Clone)]
pub struct LoginInput {
    pub username_or_email: String,
    pub password: String,
}

impl LoginInput {
    pub fn validate(&self) -> (r: Result<(), AppError>)
        ensures
            r is Ok,
    {
        Ok(())
    }
}

/// New post or article: a title of 1 to 255 characters and non-empty content.
#[derive(Debug, Clone)]
pub struct CreatePostRequest {
    pub title: String,
    pub content: String,
}

impl CreatePostRequest {
    pub open spec fn invalid_fields(&self) -> Seq<char> {
        noted(
            noted(seq![], length_within(self.title@, 1, Some(255)), "title"@),
            length_within(self.content@, 1, None),
            "content"@,
        )
    }

    pub fn validate(&self) -> (r: Result<(), AppError>)
        ensures
            reports_fields(r, self.invalid_fields()),
    {
        let acc = note_field(String::new(), length_ok(self.title.as_str(), 1, Some(255)), "title");
        let acc = note_field(acc, length_ok(self.content.as_str(), 1, None), "content");
        finish(acc)
    }
}

/// Edit of a post or article: each field, when present, obeys the rule of
/// its creation counterpart.
#[derive(Debug, Clone)]
pub struct UpdatePostRequest {
    pub title: Option<String>,
    pub content: Option<String>,
}

/// The view of an optional text field.
pub open spec fn opt_view(s: Option<String>) -> Option<Seq<char>> {
    match s {
        Some(v) => Some(v@),
        None => None,
    }
}

impl UpdatePostRequest {
    pub open spec fn invalid_fields(&self) -> Seq<char> {
        noted(
            noted(seq![], optional_length_within(opt_view(self.title), 1, Some(255)), "title"@),
            optional_length_within(opt_view(self.content), 1, None),
            "content"@,
        )
    }

    pub fn validate(&self) -> (r: Result<(), AppError>)
        ensures
            reports_fields(r, self.invalid_fields()),
    {
        let acc = note_field(String::new(), optional_length_ok(&self.title, 1, Some(255)), "title");
        let acc = note_field(acc, optional_length_ok(&self.content, 1, None), "content");
        finish(acc)
    }

    /// Whether the edit changes anything: an edit with no field is refused
    /// with a bad request.
    pub fn check_has_changes(&self) -> (r: Result<(), AppError>)
        ensures
            r is Ok <==> (self.title is Some || self.content is Some),
            r matches Err(e) ==> e is BadRequest,
    {
        if self.title.is_none() && self.content.is_none() {
            Err(AppError::BadRequest("At least one field must be provided".to_owned()))
        } else {
            Ok(())
        }
    }
}

/// New article: the rules of a new post.
#[derive(Debug, Clone)]
pub struct CreateArticleRequest {
    pub title: String,
    pub content: String,
}

impl CreateArticleRequest {
    pub open spec fn invalid_fields(&self) -> Seq<char> {
        noted(
            noted(seq![], length_within(self.title@, 1, Some(255)), "title"@),
            length_within(self.content@, 1, None),
            "content"@,
        )
    }

    pub fn validate(&self) -> (r: Result<(), AppError>)
        ensures
            reports_fields(r, self.invalid_fields()),
    {
        let acc = note_field(String::new(), length_ok(self.title.as_str(), 1, Some(255)), "title");
        let acc = note_field(acc, length_ok(self.content.as_str(), 1, None), "content");
        finish(acc)
    }
}

/// Edit of an article: the rules of an edit of a post.
#[derive(Debug, Clone)]
pub struct UpdateArticleRequest {
    pub title: Option<String>,
    pub content: Option<String>,
}

impl UpdateArticleRequest {
    pub open spec fn invalid_fields(&self) -> Seq<char> {
        noted(
            noted(seq![], optional_length_within(opt_view(self.title), 1, Some(255)), "title"@),
            optional_length_within(opt_view(self.content), 1, None),
            "content"@,
        )
    }

    pub fn validate(&self) -> (r: Result<(), AppError>)
        ensures
            reports_fields(r, self.invalid_fields()),
    {
        let acc = note_field(String::new(), optional_length_ok(&self.title, 1, Some(255)), "title");
        let acc = note_field(acc, optional_length_ok(&self.content, 1, None), "content");
        finish(acc)
    }

    /// Whether the edit changes anything: an edit with no field is refused
    /// with a bad request.
    pub fn check_has_changes(&self) -> (r: Result<(), AppError>)
        ensures
            r is Ok <==> (self.title is Some || self.content is Some),
            r matches Err(e) ==> e is BadRequest,
    {
        if self.title.is_none() && self.content.is_none() {
            Err(AppError::BadRequest("No fields to update".to_owned()))
        } else {
            Ok(())
        }
    }
}

/// New message: content of 1 to 1000 characters.
#[derive(Debug, Clone)]
pub struct CreateMessageRequest {
    pub content: String,
}

impl CreateMessageRequest {
    pub open spec fn invalid_fields(&self) -> Seq<char> {
        noted(seq![], length_within(self.content@, 1, Some(1000)), "content"@)
    }

    pub fn validate(&self) -> (r: Result<(), AppError>)
        ensures
            reports_fields(r, self.invalid_fields()),
    {
        let acc = note_field(String::new(), length_ok(self.content.as_str(), 1, Some(1000)), "content");
        finish(acc)
    }
}

/// Edit of a message: content of 1 to 1000 characters.
#[derive(Debug, Clone)]
pub struct UpdateMessageRequest {
    pub content: String,
}

impl UpdateMessageRequest {
    pub open spec fn invalid_fields(&self) -> Seq<char> {
        noted(seq![], length_within(self.content@, 1, Some(1000)), "content"@)
    }

    pub fn validate(&self) -> (r: Result<(), AppError>)
        ensures
            reports_fields(r, self.invalid_fields()),
    {
        let acc = note_field(String::new(), length_ok(self.content.as_str(), 1, Some(1000)), "content");
        finish(acc)
    }
}

} // verus!
