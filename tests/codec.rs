use asusd_policy::codec::{decode, encode, ENCODED_LEN};
use asusd_policy::policy::{CpuEpp, FirmwareAttribute, PolicyStore, ThrottlePolicy};

#[test]
fn store_round_trip() {
    let mut s = PolicyStore::new();
    s.charge_control_end_threshold = 65;
    s.base_charge_control_end_threshold = 80;
    s.throttle_policy_on_battery = ThrottlePolicy::Balanced;
    s.throttle_quiet_epp = CpuEpp::Default;
    s.last_power_plugged = true;
    s.record_tuning(ThrottlePolicy::Performance, FirmwareAttribute::PptPl1Spl, -7);
    s.record_tuning(ThrottlePolicy::Quiet, FirmwareAttribute::DgpuTgp, 100_000);
    s.record_setting(FirmwareAttribute::BootSound, 1);
    let bytes = encode(&s);
    assert_eq!(bytes.len(), ENCODED_LEN);
    let back = decode(&bytes).unwrap();
    assert!(back.same_as(&s));
    assert_eq!(back.tunings_performance.get(FirmwareAttribute::PptPl1Spl), Some(-7));
    assert_eq!(back.armoury_settings.get(FirmwareAttribute::BootSound), Some(1));
}

#[test]
fn store_bytes_layout() {
    let s = PolicyStore::new();
    let bytes = encode(&s);
    assert_eq!(&bytes[..11], &[100, 0, 1, 2, 1, 1, 1, 4, 3, 1, 0]);
    assert!(bytes[11..].iter().all(|b| *b == 0));
    let mut s = PolicyStore::new();
    s.record_setting(FirmwareAttribute::ApuMem, 0x01020304);
    let bytes = encode(&s);
    assert_eq!(&bytes[11..16], &[1, 4, 3, 2, 1]);
}

#[test]
fn malformed_bytes_are_refused() {
    let good = encode(&PolicyStore::new());
    assert!(decode(&good[..490].to_vec()).is_none());
    let mut bad = good.clone();
    bad[0] = 19;
    assert!(decode(&bad).is_none());
    let mut bad = good.clone();
    bad[2] = 3;
    assert!(decode(&bad).is_none());
    let mut bad = good.clone();
    bad[4] = 2;
    assert!(decode(&bad).is_none());
    // a power limit among the plain settings
    let mut bad = good.clone();
    bad[11 + 5 * 3] = 1;
    assert!(decode(&bad).is_none());
    // a plain setting among the tunings
    let mut bad = good.clone();
    bad[11 + 120] = 1;
    assert!(decode(&bad).is_none());
    let mut ok = good.clone();
    ok[11 + 120 + 5 * 3] = 1;
    ok[11 + 120 + 5 * 3 + 1] = 42;
    let s = decode(&ok).unwrap();
    assert_eq!(s.tunings_balanced.get(FirmwareAttribute::PptPl1Spl), Some(42));
}
