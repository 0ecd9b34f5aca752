//! Plain request and response records, and what a request gets where it
//! leaves a choice open.

use vstd::prelude::*;

verus! {

/// A user as the store keeps it. The password is kept as an encoded hash
/// only.
#[derive(Debug, Clone, PartialEq, Eq)]
pub struct User {
    pub id: i32,
    pub username: String,
    pub password_hash: String,
}

/// The body of a registration request.
#[derive(Debug, Clone, PartialEq, Eq)]
pub struct RegisterSchema {
    pub username: String,
    pub password: String,
}

/// The body of a login request.
#[derive(Debug, Clone, PartialEq, Eq)]
pub struct LoginSchema {
    pub username: String,
    pub password: String,
}

/// The body of a successful login or refresh: the access token, the
/// refresh token to present next time, and the user's name.
#[derive(Debug, Clone, PartialEq, Eq)]
pub struct AuthResponse {
    pub token: String,
    pub refresh_token: Option<String>,
    pub username: String,
}

/// Visibility given to a plan when the request does not state one: public.
pub fn default_is_public() -> (r: bool)
    ensures
        r,
{
    true
}

/// The colour of a project: the one asked for, or the house colour where
/// the request states none.
pub open spec fn project_color_of(color: Option<String>) -> Seq<char> {
    match color {
        Some(color) => color@,
        None => "#5E6AD2"@,
    }
}

/// The colour that a new project gets.
pub fn project_color(color: Option<String>) -> (chosen: String)
    ensures
        chosen@ == project_color_of(color),
{
    match color {
        Some(color) => color,
        None => "#5E6AD2".to_owned(),
    }
}

/// The priority that a new issue gets: the one asked for, or zero where
/// the request states none.
pub fn issue_priority(priority: Option<i32>) -> (chosen: i32)
    ensures
        chosen == match priority {
            Some(priority) => priority,
            None => 0,
        },
{
    match priority {
        Some(priority) => priority,
        None => 0,
    }
}

} // verus!
