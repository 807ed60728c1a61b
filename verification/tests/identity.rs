use remote_cockpit::auth::{parse_role, role_from_claims, role_str, token_claims, Claims};
use remote_cockpit::session::{ClientRole, DeviceId, SessionId};

#[test]
fn session_id_text_is_hyphenated_lowercase_uuid() {
    let id = SessionId(0xa1a2a3a4b1b2c1c2d1d2d3d4d5d6d7d8);
    assert_eq!(id.to_text(), "a1a2a3a4-b1b2-c1c2-d1d2-d3d4d5d6d7d8");
    assert_eq!(SessionId(0).to_text(), "00000000-0000-0000-0000-000000000000");
    assert_eq!(SessionId(u128::MAX).to_text(), "ffffffff-ffff-ffff-ffff-ffffffffffff");
}

#[test]
fn fresh_session_ids_differ_and_are_version_4() {
    let a = SessionId::new();
    let b = SessionId::new();
    assert_ne!(a, b);
    assert_eq!((a.0 >> 76) & 0xF, 4);
    assert_eq!((a.0 >> 62) & 0x3, 2);
    assert_eq!((b.0 >> 76) & 0xF, 4);
    assert_eq!((b.0 >> 62) & 0x3, 2);
    assert_eq!(a.to_text().len(), 36);
    assert_eq!(&a.to_text()[14..15], "4");
}

#[test]
fn device_id_keeps_its_text() {
    let d = DeviceId::new("dev-ws".to_string());
    assert_eq!(d.as_str(), "dev-ws");
}

fn claims(role: &str) -> Claims {
    Claims { device_id: "dev-ws".into(), role: role.into(), exp: 0 }
}

#[test]
fn role_from_claims_maps_known_roles() {
    assert_eq!(role_from_claims(&claims("desktop")).unwrap(), ClientRole::Desktop);
    assert_eq!(role_from_claims(&claims("phone")).unwrap(), ClientRole::Phone);
}

#[test]
fn role_from_claims_rejects_unknown_role() {
    let err = role_from_claims(&claims("admin")).unwrap_err();
    assert_eq!(err.role, "admin");
    assert_eq!(err.message(), "unknown role in token: admin");
    let cased = role_from_claims(&claims("Desktop")).unwrap_err();
    assert_eq!(cased.message(), "unknown role in token: Desktop");
    assert!(role_from_claims(&claims("Phone")).is_err());
    assert!(role_from_claims(&claims("")).is_err());
}

#[test]
fn parse_role_accepts_names_and_explains_errors() {
    assert_eq!(parse_role("desktop"), Ok(ClientRole::Desktop));
    assert_eq!(parse_role("phone"), Ok(ClientRole::Phone));
    assert_eq!(parse_role("tablet"), Err("role must be 'desktop' or 'phone', got tablet".to_string()));
}

#[test]
fn role_names_round_trip() {
    for role in [ClientRole::Desktop, ClientRole::Phone] {
        assert_eq!(parse_role(role_str(role)), Ok(role));
    }
}

#[test]
fn issued_claims_last_a_day_and_name_the_role() {
    let c = token_claims("dev-ws", ClientRole::Phone, 1_700_000_000);
    assert_eq!(c.device_id, "dev-ws");
    assert_eq!(c.role, "phone");
    assert_eq!(c.exp, 1_700_086_400);
    assert_eq!(role_from_claims(&c).unwrap(), ClientRole::Phone);
}
