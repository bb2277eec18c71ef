use vstd::prelude::*;
use vstd::string::*;

use crate::credential::LoginRequest;

verus! {

/// serde_json's error type, carried through as an opaque value.
#[verifier::external_type_specification]
#[verifier::external_body]
pub struct ExJsonError(serde_json::Error);

/// The JSON string literal that serde_json writes for `s`: the characters
/// of `s` between double quotes, with quotes, backslashes and control
/// characters escaped.
pub uninterp spec fn json_quoted(s: Seq<char>) -> Seq<char>;

/// Relies on serde_json::to_string applied to a `str`: it serialises the
/// string with serde_json's string escaper. Serialising a `str` into the
/// in-memory buffer that `to_string` uses has no failing path, so the result
/// is always `Ok`.
#[verifier::external_body]
fn quote(s: &str) -> (r: Result<String, serde_json::Error>)
    ensures
        r is Ok,
        r is Ok ==> r->Ok_0@ == json_quoted(s@),
{
    serde_json::to_string(s)
}

pub open spec fn username_key() -> Seq<char> {
    seq!['u', 's', 'e', 'r', 'n', 'a', 'm', 'e']
}

pub open spec fn password_key() -> Seq<char> {
    seq!['p', 'a', 's', 's', 'w', 'o', 'r', 'd']
}

/// The compact JSON object holding the two fields of a credential record,
/// `username` first, as serde_json writes a struct: each key and each value
/// a quoted string, `:` after each key, `,` between the members.
pub open spec fn login_json(username: Seq<char>, password: Seq<char>) -> Seq<char> {
    seq!['{'] + json_quoted(username_key()) + seq![':'] + json_quoted(username) + seq![',']
        + json_quoted(password_key()) + seq![':'] + json_quoted(password) + seq!['}']
}

fn quoted(s: &str) -> (r: String)
    ensures
        r@ == json_quoted(s@),
{
    match quote(s) {
        Ok(t) => t,
        Err(_) => String::new(),
    }
}

/// The JSON text of a credential record.
pub fn encode_login(req: &LoginRequest) -> (r: String)
    ensures
        r@ == login_json(req.username@, req.password@),
{
    proof {
        reveal_strlit("{");
        reveal_strlit(":");
        reveal_strlit(",");
        reveal_strlit("}");
        reveal_strlit("username");
        reveal_strlit("password");
    }
    assert("username"@ =~= username_key());
    assert("password"@ =~= password_key());
    let mut out = String::from_str("{");
    out.append(quoted("username").as_str());
    out.append(":");
    out.append(quoted(req.username.as_str()).as_str());
    out.append(",");
    out.append(quoted("password").as_str());
    out.append(":");
    out.append(quoted(req.password.as_str()).as_str());
    out.append("}");
    assert(out@ =~= login_json(req.username@, req.password@));
    out
}

} // verus!
