use vstd::prelude::*;

use crate::api::auth_token::{
    admits, cookie_token, cookie_token_of, expiry_after, header_text, token_digest, AdminToken,
    Expiry,
};
use crate::calendar::UtcTimestamp;
use crate::error::AppError;
use crate::ids::uuid_text;

verus! {

/// The body of an admin login request.
#[derive(Debug)]
pub struct AdminAuthRequest {
    pub password: String,
}

/// The body of the answer to a successful admin login.
#[derive(Debug)]
pub struct AdminAuthResponse {
    pub message: String,
}

/// The body of the answer to a session check.
#[derive(Debug)]
pub struct CheckAuthResponse {
    pub authenticated: bool,
}

/// The `Set-Cookie` value that clears the session cookie.
pub open spec fn clear_cookie() -> Seq<char> {
    "admin_token=; HttpOnly; Secure; SameSite=Strict; Max-Age=0; Path=/"@
}

/// Logs the admin in: with the right password, opens a session and returns the cookie that
/// hands it out together with the answer's body; with a wrong one, refuses as unauthorized.
pub fn admin_auth(tokens: &mut AdminToken, request: &AdminAuthRequest, admin_password: &String) -> (r:
    Result<(String, AdminAuthResponse), AppError>)
    ensures
        request.password@ != admin_password@ ==> r == Err::<(String, AdminAuthResponse), AppError>(
            AppError::Unauthorized,
        ) && final(tokens)@ == old(tokens)@,
        request.password@ == admin_password@ ==> match r {
            Ok((cookie, body)) => body.message@ == "Авторизация успешна"@ && exists|
                id: u128,
                now: UtcTimestamp,
            |
                #![trigger uuid_text(id as int), expiry_after(now)]
                final(tokens)@ == old(tokens)@.insert(
                    token_digest(uuid_text(id as int)),
                    expiry_after(now),
                ) && cookie@ == crate::api::auth_token::session_cookie(uuid_text(id as int))
                    && crate::calendar::valid_unix(now.unix_secs(), now.subsec_nanos()),
            Err(_) => false,
        },
{
    if request.password != *admin_password {
        return Err(AppError::Unauthorized);
    }
    let cookie = tokens.create_session();
    Ok((cookie, AdminAuthResponse { message: String::from_str("Авторизация успешна") }))
}

/// Answers a session check: whether the `Cookie` header carries a token of a session that
/// is unexpired now.
pub fn check_auth_response(tokens: &AdminToken, cookie_header: Option<&str>) -> (r:
    CheckAuthResponse)
    ensures
        exists|now: UtcTimestamp| r.authenticated == #[trigger] admits(
            tokens@,
            header_text(cookie_header),
            now,
        ),
{
    CheckAuthResponse { authenticated: tokens.check_auth(cookie_header).is_ok() }
}

/// Logs out: closes the session whose token the `Cookie` header carries, if any, and
/// returns the `Set-Cookie` value that clears the cookie.
pub fn logout_session(tokens: &mut AdminToken, cookie_header: Option<&str>) -> (r: String)
    ensures
        match cookie_token(header_text(cookie_header)) {
            Some(t) => final(tokens)@ == old(tokens)@.remove(token_digest(t)),
            None => final(tokens)@ == old(tokens)@,
        },
        r@ == clear_cookie(),
{
    let header = match cookie_header {
        Some(h) => h,
        None => "",
    };
    proof {
        if cookie_header is None {
            reveal_strlit("");
            assert(header@ =~= header_text(cookie_header));
        }
    }
    match cookie_token_of(header) {
        Some(t) => tokens.logout(t.as_str()),
        None => {},
    }
    String::from_str("admin_token=; HttpOnly; Secure; SameSite=Strict; Max-Age=0; Path=/")
}

} // verus!
