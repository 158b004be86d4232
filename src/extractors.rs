//! Replies of the extractor endpoints. The server binds the values from the
//! request path, query string, JSON body or form body; these functions turn
//! the bound values into the reply text.

use vstd::prelude::*;

use crate::decimal::decimal;
use crate::decimal::push_decimal;

verus! {

/// The reply of the path endpoints for user `user_id` and text `info`.
pub open spec fn user_info(user_id: nat, info: Seq<char>) -> Seq<char> {
    "User_id: "@ + decimal(user_id) + ", info: "@ + info + "."@
}

/// Reply of the path endpoints, whether the two path segments were bound by
/// position or by name.
pub fn path_extractor(user_id: u32, info: &str) -> (r: String)
    ensures
        r@ == user_info(user_id as nat, info@),
{
    let mut out = String::new();
    out.append("User_id: ");
    push_decimal(&mut out, user_id as u64);
    out.append(", info: ");
    out.append(info);
    out.append(".");
    out
}

/// The reply of the query, JSON and form endpoints for user `username` with
/// identifier `id`.
pub open spec fn welcome(id: nat, username: Seq<char>) -> Seq<char> {
    "Welcome "@ + decimal(id) + ": "@ + username + "!"@
}

/// Reply of the query, JSON and form endpoints.
pub fn welcome_extractor(id: u32, username: &str) -> (r: String)
    ensures
        r@ == welcome(id as nat, username@),
{
    let mut out = String::new();
    out.append("Welcome ");
    push_decimal(&mut out, id as u64);
    out.append(": ");
    out.append(username);
    out.append("!");
    out
}

} // verus!
