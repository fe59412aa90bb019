use vpn_core::SessionClaims;

#[test]
fn claims_issued_at_expire_a_year_later() {
    let c = SessionClaims::issued_at(42, "alice", 1_700_000_000);
    assert_eq!(c.iat, 1_700_000_000);
    assert_eq!(c.exp, 1_731_536_000);
    assert_eq!(c.identifier, 42);
    assert_eq!(c.username, "alice");
}

#[test]
fn claims_issued_now() {
    let c = SessionClaims::new(7, "bob");
    assert_eq!(c.exp - c.iat, 365 * 24 * 60 * 60);
    assert!(c.iat > 1_600_000_000);
    assert_eq!(c.identifier, 7);
    assert_eq!(c.username, "bob");
}
