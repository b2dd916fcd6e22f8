use algolia::request::VirtualKeyRestrictions;
use algolia::ApiKey;

#[test]
fn virtual_key_known_vector() {
    let parent_key = ApiKey("Example Key".to_owned());
    let virtual_key = parent_key.generate_virtual_key(&Default::default());
    assert_eq!(
        virtual_key.0,
        "MDBlNTFhZmY1Y2IxM2Q4NDk3OWM2ZGQ0YTEzODAyODE4NDE4ZThjM2U4Mjg1YjNiZGY1YjIxNGM2N2JmODE0Y3VzZXJUb2tlbj0="
    );
}

#[test]
fn virtual_key_is_deterministic() {
    let parent_key = ApiKey("parent".to_owned());
    let restrictions = VirtualKeyRestrictions {
        user_token: Some("user one".to_owned()),
        valid_until: Some(1_700_000_000),
    };
    let first = parent_key.generate_virtual_key(&restrictions);
    let second = parent_key.generate_virtual_key(&restrictions);
    assert_eq!(first.0, second.0);
}

#[test]
fn virtual_key_depends_on_restrictions() {
    let parent_key = ApiKey("parent".to_owned());
    let a = parent_key.generate_virtual_key(&VirtualKeyRestrictions {
        user_token: Some("a".to_owned()),
        valid_until: None,
    });
    let b = parent_key.generate_virtual_key(&VirtualKeyRestrictions {
        user_token: Some("b".to_owned()),
        valid_until: None,
    });
    assert_ne!(a.0, b.0);
}

#[test]
fn empty_restrictions_sign_substituted_payload() {
    let empty = VirtualKeyRestrictions {
        user_token: None,
        valid_until: None,
    };
    assert_eq!(empty.canonical_encoding(), "");
    assert_eq!(empty.signed_payload(), "userToken=");
}

#[test]
fn canonical_encoding_orders_and_escapes_fields() {
    let both = VirtualKeyRestrictions {
        user_token: Some("user name/1".to_owned()),
        valid_until: Some(1_700_000_000),
    };
    assert_eq!(
        both.canonical_encoding(),
        "userToken=user+name%2F1&validUntil=1700000000"
    );
    let token_only = VirtualKeyRestrictions {
        user_token: Some("abc".to_owned()),
        valid_until: None,
    };
    assert_eq!(token_only.canonical_encoding(), "userToken=abc");
    let expiry_only = VirtualKeyRestrictions {
        user_token: None,
        valid_until: Some(-12),
    };
    assert_eq!(expiry_only.canonical_encoding(), "validUntil=-12");
}

#[test]
fn canonical_encoding_percent_encodes_utf8() {
    let restrictions = VirtualKeyRestrictions {
        user_token: Some("héllo*-._~".to_owned()),
        valid_until: None,
    };
    assert_eq!(
        restrictions.canonical_encoding(),
        "userToken=h%C3%A9llo*-._%7E"
    );
}
