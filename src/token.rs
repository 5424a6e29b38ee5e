//! Personal access tokens: what a new token may do, how long it lives, and
//! the JSON body that asks for one.
use vstd::prelude::*;
use vstd::string::StringExecFns;

verus! {

/// What a new token may do.
#[derive(Clone, Copy, Debug, PartialEq, Eq, Structural)]
pub enum Scope {
    Everything,
    /// Cannot be used to create further tokens.
    Regular,
}

/// The wire text of a scope.
pub open spec fn scope_text(s: Scope) -> Seq<char> {
    match s {
        Scope::Everything => "everything"@,
        Scope::Regular => "regular"@,
    }
}

impl Scope {
    pub fn as_str(&self) -> (r: &'static str)
        ensures
            r@ == scope_text(*self),
    {
        match self {
            Scope::Everything => "everything",
            Scope::Regular => "regular",
        }
    }
}

/// How long a new token lives: 30, 60, 90 or 180 days.
#[derive(Clone, Copy, Debug, PartialEq, Eq, Structural)]
pub enum Expiration {
    Day30,
    Day60,
    Day90,
    Day180,
}

/// The wire text of a lifetime: its length in seconds.
pub open spec fn expiration_text(e: Expiration) -> Seq<char> {
    match e {
        Expiration::Day30 => "2592000"@,
        Expiration::Day60 => "5184000"@,
        Expiration::Day90 => "7776000"@,
        Expiration::Day180 => "15552000"@,
    }
}

impl Expiration {
    pub fn as_str(&self) -> (r: &'static str)
        ensures
            r@ == expiration_text(*self),
    {
        match self {
            Expiration::Day30 => "2592000",
            Expiration::Day60 => "5184000",
            Expiration::Day90 => "7776000",
            Expiration::Day180 => "15552000",
        }
    }
}

/// Text that a JSON string literal holds as it is: no quote, no backslash,
/// no control character.
pub open spec fn is_plain_json_text(s: Seq<char>) -> bool {
    forall|i: int|
        0 <= i < s.len() ==> {
            let c = #[trigger] s[i];
            c != '"' && c != '\\' && (c as u32) >= 0x20
        }
}

/// `s` between double quotes.
pub open spec fn quoted(s: Seq<char>) -> Seq<char> {
    seq!['"'] + s + seq!['"']
}

/// The JSON string literal that serde_json writes for `s`.
pub uninterp spec fn json_string_of(s: Seq<char>) -> Seq<char>;

/// Relies on `serde_json::to_string` on a `str`: it writes one JSON string
/// literal, escaping only quotes, backslashes and control characters, and
/// cannot fail since it writes into memory.
#[verifier::external_body]
fn json_string(s: &str) -> (r: Option<String>)
    ensures
        r is Some,
        r.unwrap()@ == json_string_of(s@),
        is_plain_json_text(s@) ==> r.unwrap()@ == quoted(s@),
{
    serde_json::to_string(s).ok()
}

/// A request for a new token.
pub struct PostTokenReq {
    pub scope: Scope,
    pub expiration: Expiration,
}

/// The JSON object with the string members `scope` and `expiration`, in that order.
pub open spec fn token_body_text(scope: Scope, expiration: Expiration) -> Seq<char> {
    "{"@ + quoted("scope"@) + ":"@ + quoted(scope_text(scope)) + ","@
        + quoted("expiration"@) + ":"@ + quoted(expiration_text(expiration)) + "}"@
}

fn append_json_string(out: &mut String, s: &str)
    requires
        is_plain_json_text(s@),
    ensures
        final(out)@ == old(out)@ + quoted(s@),
{
    match json_string(s) {
        Some(t) => out.append(t.as_str()),
        None => {},
    }
}

impl PostTokenReq {
    /// The JSON body of the request.
    pub fn json_body(&self) -> (r: String)
        ensures
            r@ == token_body_text(self.scope, self.expiration),
    {
        proof {
            reveal_strlit("scope");
            reveal_strlit("expiration");
            reveal_strlit("everything");
            reveal_strlit("regular");
            reveal_strlit("2592000");
            reveal_strlit("5184000");
            reveal_strlit("7776000");
            reveal_strlit("15552000");
        }
        let scope = self.scope.as_str();
        let expiration = self.expiration.as_str();
        assert(is_plain_json_text(scope@));
        assert(is_plain_json_text(expiration@));
        let mut out = String::new();
        out.append("{");
        append_json_string(&mut out, "scope");
        out.append(":");
        append_json_string(&mut out, scope);
        out.append(",");
        append_json_string(&mut out, "expiration");
        out.append(":");
        append_json_string(&mut out, expiration);
        out.append("}");
        out
    }
}

} // verus!
