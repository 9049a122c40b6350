//! Request and response shapes of the surrounding application, and the
//! small validations they carry. The HTTP handlers, persistence, and
//! credential handling around them are external collaborators; only the
//! values and rules live here.

use vstd::prelude::*;

verus! {

/// The uniform response wrapper of the application's endpoints.
#[derive(Debug)]
pub struct ApiResponse<T> {
    pub status: String,
    pub message: String,
    pub data: Option<T>,
}

impl<T> ApiResponse<T> {
    /// A success response carrying a payload.
    pub fn success(data: T) -> (r: ApiResponse<T>)
        ensures
            r.status@ == "success"@,
            r.message@ == "Operation successful"@,
            r.data == Some(data),
    {
        ApiResponse {
            status: String::from_str("success"),
            message: String::from_str("Operation successful"),
            data: Some(data),
        }
    }

    /// An error response carrying a message and no payload.
    pub fn error(message: String) -> (r: ApiResponse<T>)
        ensures
            r.status@ == "error"@,
            r.message == message,
            r.data is None,
    {
        ApiResponse { status: String::from_str("error"), message, data: None }
    }
}

/// The lower-case form of a text: a function of the characters alone,
/// left without a definition here; the folding is the standard library's.
pub uninterp spec fn lower_of(s: Seq<char>) -> Seq<char>;

/// Relies on `str::to_lowercase`: the result depends on the characters
/// alone.
#[verifier::external_body]
fn to_lowercase(s: &str) -> (r: String)
    ensures
        r@ == lower_of(s@),
{
    s.to_lowercase()
}

/// Whether a text names a supported exchange, compared case-insensitively:
/// its lower-case form is `binance`, `kucoin` or `bybit`.
pub fn is_valid_exchange(exchange: &str) -> (r: bool)
    ensures
        r == (lower_of(exchange@) == "binance"@ || lower_of(exchange@) == "kucoin"@ || lower_of(
            exchange@,
        ) == "bybit"@),
{
    let lower = to_lowercase(exchange);
    let a = lower == String::from_str("binance");
    let b = lower == String::from_str("kucoin");
    let c = lower == String::from_str("bybit");
    a || b || c
}

/// Whether one permission name is among the supported ones.
pub open spec fn spec_valid_permission(p: Seq<char>) -> bool {
    p == "read"@ || p == "trade"@ || p == "withdraw"@
}

/// Whether every requested permission is one of `read`, `trade`,
/// `withdraw`.
pub fn validate_permissions(permissions: &Vec<String>) -> (r: bool)
    ensures
        r == (forall|i: int|
            0 <= i < permissions@.len() ==> spec_valid_permission(#[trigger] permissions@[i]@)),
{
    let read = String::from_str("read");
    let trade = String::from_str("trade");
    let withdraw = String::from_str("withdraw");
    let n = permissions.len();
    for i in 0..n
        invariant
            n == permissions.len(),
            read@ == "read"@,
            trade@ == "trade"@,
            withdraw@ == "withdraw"@,
            forall|j: int| 0 <= j < i ==> spec_valid_permission(#[trigger] permissions@[j]@),
    {
        let ok = permissions[i] == read || permissions[i] == trade || permissions[i] == withdraw;
        if !ok {
            return false;
        }
    }
    true
}

/// A request to register an exchange API key.
#[derive(Debug)]
pub struct CreateApiKeyRequest {
    pub name: String,
    pub exchange: String,
    pub permissions: Vec<String>,
}

/// A partial update of an exchange API key; absent fields keep their
/// value.
#[derive(Debug)]
pub struct UpdateApiKeyRequest {
    pub name: Option<String>,
    pub exchange: Option<String>,
    pub permissions: Option<Vec<String>>,
    pub is_active: Option<bool>,
}

/// A request to store exchange credentials.
#[derive(Debug)]
pub struct CreateApiCredentialRequest {
    pub exchange: String,
    pub api_key: String,
    pub api_secret: String,
    pub permissions: Vec<String>,
}

/// A registration request.
#[derive(Debug)]
pub struct CreateUserRequest {
    pub username: String,
    pub password: String,
    pub telegram_id: Option<String>,
}

/// A login request.
#[derive(Debug)]
pub struct LoginRequest {
    pub username: String,
    pub password: String,
}

/// A request to store a contact address.
#[derive(Debug)]
pub struct CreatePersonalDataRequest {
    pub email: String,
}

/// A request to replace the stored contact address.
#[derive(Debug)]
pub struct UpdatePersonalDataRequest {
    pub email: String,
}

/// The claims carried in an access token.
#[derive(Debug, Clone, Copy, PartialEq, Eq, Structural)]
pub struct Claims {
    pub user_id: i32,
}

/// The application's startup configuration.
#[derive(Debug, Clone)]
pub struct Config {
    pub database_url: String,
    pub coingecko_api_key: String,
    pub server_port: u16,
    pub jwt_secret: String,
}

} // verus!
