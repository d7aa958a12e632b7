use systemd_client::unit::{decode_active_state, decode_load_state, decode_unit, decode_units};
use systemd_client::unit_file::{decode_enablement_status, decode_unit_file, decode_unit_files};
use systemd_client::{EnablementStatus, UnitActiveState, UnitLoadState};
use zbus::zvariant::OwnedObjectPath;

#[test]
fn load_state_literals_decode_to_named_variants() {
    assert!(matches!(decode_load_state("stub".to_string()), UnitLoadState::Stub));
    assert!(matches!(decode_load_state("loaded".to_string()), UnitLoadState::Loaded));
    assert!(matches!(decode_load_state("not-found".to_string()), UnitLoadState::NotLoaded));
    assert!(matches!(decode_load_state("bad-setting".to_string()), UnitLoadState::BadSetting));
    assert!(matches!(decode_load_state("error".to_string()), UnitLoadState::Error));
    assert!(matches!(decode_load_state("merged".to_string()), UnitLoadState::Merged));
    assert!(matches!(decode_load_state("masked".to_string()), UnitLoadState::Masked));
}

#[test]
fn load_state_unknown_decodes_to_other_unchanged() {
    assert!(matches!(decode_load_state("bogus".to_string()), UnitLoadState::Other(s) if s == "bogus"));
    assert!(matches!(decode_load_state("".to_string()), UnitLoadState::Other(s) if s.is_empty()));
    // the match is case-sensitive
    assert!(matches!(decode_load_state("Masked".to_string()), UnitLoadState::Other(s) if s == "Masked"));
}

#[test]
fn active_state_literals_decode_to_named_variants() {
    assert!(matches!(decode_active_state("active".to_string()), UnitActiveState::Active));
    assert!(matches!(decode_active_state("reloading".to_string()), UnitActiveState::Reloading));
    assert!(matches!(decode_active_state("inactive".to_string()), UnitActiveState::Inactive));
    assert!(matches!(decode_active_state("failed".to_string()), UnitActiveState::Failed));
    assert!(matches!(decode_active_state("activating".to_string()), UnitActiveState::Activating));
    assert!(matches!(decode_active_state("deactivating".to_string()), UnitActiveState::Deactivating));
    assert!(matches!(decode_active_state("maintenance".to_string()), UnitActiveState::Maintenance));
}

#[test]
fn active_state_unknown_decodes_to_other_unchanged() {
    assert!(matches!(decode_active_state("bogus".to_string()), UnitActiveState::Other(s) if s == "bogus"));
    assert!(matches!(decode_active_state("ACTIVE".to_string()), UnitActiveState::Other(s) if s == "ACTIVE"));
}

#[test]
fn enablement_status_literals_decode_to_named_variants() {
    assert!(matches!(decode_enablement_status("alias".to_string()), EnablementStatus::Alias));
    assert!(matches!(decode_enablement_status("disabled".to_string()), EnablementStatus::Disabled));
    assert!(matches!(decode_enablement_status("enabled".to_string()), EnablementStatus::Enabled));
    assert!(matches!(
        decode_enablement_status("enabled-runtime".to_string()),
        EnablementStatus::EnabledRuntime
    ));
    assert!(matches!(decode_enablement_status("generated".to_string()), EnablementStatus::Generated));
    assert!(matches!(decode_enablement_status("static".to_string()), EnablementStatus::Static));
    assert!(matches!(decode_enablement_status("transient".to_string()), EnablementStatus::Transient));
}

#[test]
fn enablement_status_unknown_decodes_to_other_unchanged() {
    assert!(matches!(decode_enablement_status("bogus".to_string()), EnablementStatus::Other(s) if s == "bogus"));
    assert!(matches!(decode_enablement_status("Enabled".to_string()), EnablementStatus::Other(s) if s == "Enabled"));
}

#[test]
fn unit_decodes_absent_sentinels_to_none() {
    let path1 = OwnedObjectPath::try_from("/org/freedesktop/systemd1/unit/a_2eservice").unwrap();
    let path2 = OwnedObjectPath::try_from("/org/freedesktop/systemd1/job/0").unwrap();
    let unit = decode_unit((
        "a.service".to_string(),
        "A unit".to_string(),
        "loaded".to_string(),
        "active".to_string(),
        "running".to_string(),
        "".to_string(),
        path1.clone(),
        0,
        "".to_string(),
        path2.clone(),
    ));
    assert_eq!(unit.name, "a.service");
    assert_eq!(unit.description, "A unit");
    assert!(matches!(unit.load_state, UnitLoadState::Loaded));
    assert!(matches!(unit.active_state, UnitActiveState::Active));
    assert_eq!(unit.sub_state, "running");
    assert_eq!(unit.followed_unit, None);
    assert_eq!(unit.object_path.as_str(), path1.as_str());
    assert_eq!(unit.queued_job_id, None);
    assert_eq!(unit.job_type, "");
    assert_eq!(unit.job_object_path.as_str(), path2.as_str());
}

#[test]
fn unit_decodes_present_job_and_followed_unit_to_some() {
    let path1 = OwnedObjectPath::try_from("/org/freedesktop/systemd1/unit/a_2eservice").unwrap();
    let path2 = OwnedObjectPath::try_from("/org/freedesktop/systemd1/job/5").unwrap();
    let unit = decode_unit((
        "a.service".to_string(),
        "A unit".to_string(),
        "loaded".to_string(),
        "active".to_string(),
        "running".to_string(),
        "b.service".to_string(),
        path1,
        5,
        "start".to_string(),
        path2,
    ));
    assert_eq!(unit.followed_unit.as_deref(), Some("b.service"));
    assert_eq!(unit.queued_job_id, Some(5));
    assert_eq!(unit.job_type, "start");
}

#[test]
fn unit_file_decodes_path_and_status() {
    let f = decode_unit_file(("/lib/systemd/system/a.service".to_string(), "enabled".to_string()));
    assert_eq!(f.path, "/lib/systemd/system/a.service");
    assert!(matches!(f.enablement_status, EnablementStatus::Enabled));
}

#[test]
fn decode_units_preserves_order_and_cardinality() {
    let p = OwnedObjectPath::try_from("/org/freedesktop/systemd1/unit/x").unwrap();
    let raw = vec![
        (
            "c.service".to_string(),
            "".to_string(),
            "loaded".to_string(),
            "active".to_string(),
            "running".to_string(),
            "".to_string(),
            p.clone(),
            0,
            "".to_string(),
            p.clone(),
        ),
        (
            "a.service".to_string(),
            "".to_string(),
            "masked".to_string(),
            "failed".to_string(),
            "failed".to_string(),
            "".to_string(),
            p.clone(),
            0,
            "".to_string(),
            p.clone(),
        ),
        (
            "b.service".to_string(),
            "".to_string(),
            "weird".to_string(),
            "inactive".to_string(),
            "dead".to_string(),
            "".to_string(),
            p.clone(),
            0,
            "".to_string(),
            p.clone(),
        ),
    ];
    let units = decode_units(raw);
    assert_eq!(units.len(), 3);
    assert_eq!(units[0].name, "c.service");
    assert_eq!(units[1].name, "a.service");
    assert_eq!(units[2].name, "b.service");
    assert!(matches!(units[1].load_state, UnitLoadState::Masked));
    assert!(matches!(&units[2].load_state, UnitLoadState::Other(s) if s == "weird"));
}

#[test]
fn decode_unit_files_preserves_order_and_cardinality() {
    let raw = vec![
        ("/x/b.service".to_string(), "enabled".to_string()),
        ("/x/a.service".to_string(), "masked".to_string()),
    ];
    let files = decode_unit_files(raw);
    assert_eq!(files.len(), 2);
    assert_eq!(files[0].path, "/x/b.service");
    assert_eq!(files[1].path, "/x/a.service");
    assert!(matches!(files[0].enablement_status, EnablementStatus::Enabled));
    assert!(matches!(&files[1].enablement_status, EnablementStatus::Other(s) if s == "masked"));
}

#[test]
fn decoding_the_same_reply_twice_gives_identical_records() {
    let p = OwnedObjectPath::try_from("/org/freedesktop/systemd1/unit/x").unwrap();
    let record = (
        "a.service".to_string(),
        "A unit".to_string(),
        "loaded".to_string(),
        "active".to_string(),
        "running".to_string(),
        "".to_string(),
        p.clone(),
        0,
        "".to_string(),
        p.clone(),
    );
    let once = decode_units(vec![record.clone()]);
    let twice = decode_units(vec![record]);
    assert_eq!(once.len(), twice.len());
    assert_eq!(once[0].name, twice[0].name);
    assert_eq!(once[0].description, twice[0].description);
    assert_eq!(once[0].sub_state, twice[0].sub_state);
    assert_eq!(once[0].followed_unit, twice[0].followed_unit);
    assert_eq!(once[0].queued_job_id, twice[0].queued_job_id);
    assert!(matches!(once[0].load_state, UnitLoadState::Loaded));
    assert!(matches!(twice[0].load_state, UnitLoadState::Loaded));
}
