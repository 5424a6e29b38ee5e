use v2ex::{Expiration, PostTokenReq, Scope};

#[test]
fn scope_wire_text() {
    assert_eq!(Scope::Everything.as_str(), "everything");
    assert_eq!(Scope::Regular.as_str(), "regular");
}

#[test]
fn expiration_wire_text() {
    assert_eq!(Expiration::Day30.as_str(), "2592000");
    assert_eq!(Expiration::Day60.as_str(), "5184000");
    assert_eq!(Expiration::Day90.as_str(), "7776000");
    assert_eq!(Expiration::Day180.as_str(), "15552000");
}

#[test]
fn regular_thirty_day_body() {
    let req = PostTokenReq { scope: Scope::Regular, expiration: Expiration::Day30 };
    assert_eq!(req.json_body(), r#"{"scope":"regular","expiration":"2592000"}"#);
}

#[test]
fn everything_half_year_body() {
    let req = PostTokenReq { scope: Scope::Everything, expiration: Expiration::Day180 };
    assert_eq!(req.json_body(), r#"{"scope":"everything","expiration":"15552000"}"#);
}
