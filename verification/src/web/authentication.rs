//! What the frontend asks for at login.

use vstd::prelude::*;
use vstd::string::StringExecFns;
use crate::web::settings::Settings;

verus! {

/// The scopes that every login asks for.
pub const BASE_SCOPES: &'static str = "email offline_access ";

/// What follows the address of the backend in the scope that grants access
/// to it.
pub const USER_SCOPE: &'static str = "/User";

/// The scopes that a login asks for: the base scopes and the user scope of
/// the backend.
pub open spec fn scopes_spec(api_url: Seq<char>) -> Seq<char> {
    BASE_SCOPES@ + api_url + USER_SCOPE@
}

/// The scopes that a login asks for under the given settings.
pub fn scopes(settings: &Settings) -> (requested: Option<String>)
    ensures
        requested is Some,
        requested->0@ == scopes_spec(settings.authentication.api_url@),
{
    let mut requested = String::from_str(BASE_SCOPES);
    requested.append(settings.authentication.api_url.as_str());
    requested.append(USER_SCOPE);
    Some(requested)
}

/// The name of the cookie that holds the access token.
pub const ACCESS_TOKEN_NAME: &'static str = "__auth_access__";

/// The name of the cookie that holds the identity token.
pub const ID_TOKEN_NAME: &'static str = "__auth_identity__";

/// The name of the cookie that holds the refresh token.
pub const REFRESH_TOKEN_NAME: &'static str = "__auth_refresh__";

/// The cookies that keep a login, each a name and a value: the access
/// token, the identity token where there is one, and the refresh token, in
/// this order.
pub open spec fn auth_cookies_spec(
    access_token: Seq<char>,
    refresh_token: Seq<char>,
    id_token: Option<Seq<char>>,
) -> Seq<(Seq<char>, Seq<char>)> {
    match id_token {
        Some(id) => seq![
            (ACCESS_TOKEN_NAME@, access_token),
            (ID_TOKEN_NAME@, id),
            (REFRESH_TOKEN_NAME@, refresh_token),
        ],
        None => seq![(ACCESS_TOKEN_NAME@, access_token), (REFRESH_TOKEN_NAME@, refresh_token)],
    }
}

/// The names and values of a list of cookies.
pub open spec fn cookies_view(cookies: Seq<(String, String)>) -> Seq<(Seq<char>, Seq<char>)> {
    cookies.map_values(|c: (String, String)| (c.0@, c.1@))
}

/// The cookies that keep a login with the given tokens.
pub fn auth_cookies(access_token: &str, refresh_token: &str, id_token: Option<&str>) -> (cookies:
    Vec<(String, String)>)
    ensures
        cookies_view(cookies@) == auth_cookies_spec(
            access_token@,
            refresh_token@,
            match id_token {
                Some(id) => Some(id@),
                None => None,
            },
        ),
{
    let mut cookies: Vec<(String, String)> = Vec::new();
    cookies.push((String::from_str(ACCESS_TOKEN_NAME), String::from_str(access_token)));
    match id_token {
        Some(id) => {
            cookies.push((String::from_str(ID_TOKEN_NAME), String::from_str(id)));
        },
        None => {},
    }
    cookies.push((String::from_str(REFRESH_TOKEN_NAME), String::from_str(refresh_token)));
    assert(cookies_view(cookies@) =~= auth_cookies_spec(
        access_token@,
        refresh_token@,
        match id_token {
            Some(id) => Some(id@),
            None => None,
        },
    ));
    cookies
}

} // verus!
