use algolia::host::Host;
use algolia::RefAppId;

#[test]
fn resolve_primary_without_slot() {
    let app_id = RefAppId::new("TENANT");
    assert_eq!(Host::new(app_id).resolve(), "TENANT.algolia.net");
    assert_eq!(
        Host::with_backup(app_id, None).resolve(),
        "TENANT.algolia.net"
    );
}

#[test]
fn resolve_slot_zero_is_primary() {
    let app_id = RefAppId::new("TENANT");
    assert_eq!(
        Host::with_backup(app_id, Some(0)).resolve(),
        "TENANT.algolia.net"
    );
}

#[test]
fn resolve_backup_slot_two() {
    let app_id = RefAppId::new("TENANT");
    let resolved = Host::with_backup(app_id, Some(2)).resolve();
    assert_eq!(resolved, "TENANT-2.algolia.net");
    assert!(resolved.ends_with("-2.algolia.net"));
}

#[test]
fn resolve_dsn_host() {
    let app_id = RefAppId::new("TENANT");
    assert_eq!(
        Host::with_dsn(app_id, true).resolve(),
        "TENANT-dsn.algolia.net"
    );
    assert_eq!(
        Host::with_dsn(app_id, false).resolve(),
        "TENANT.algolia.net"
    );
}

#[test]
fn resolve_larger_slot_numbers() {
    let app_id = RefAppId::new("x");
    assert_eq!(
        Host::with_backup(app_id, Some(13)).resolve(),
        "x-13.algolia.net"
    );
}
