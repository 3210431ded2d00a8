use asusd_policy::anime::{
    get_anime_type, pkt_for_enable_animation, pkt_for_flush, pkt_for_set_awake_enabled,
    pkt_for_set_boot, pkt_for_set_brightness, pkts_for_init, AnimeType, PACKET_SIZE,
};
use asusd_policy::gfx::{GfxCtrlAction, GfxError, GfxVendors};

#[test]
fn init_packets() {
    let p = pkts_for_init();
    assert_eq!(p[0][0], 0x5e);
    assert_eq!(&p[0][1..15], "ASUS Tech.Inc.".as_bytes());
    assert!(p[0][15..].iter().all(|b| *b == 0));
    assert_eq!(&p[1][..3], &[0x5e, 0xc2, 0]);
    assert_eq!(p[1].len(), PACKET_SIZE);
}

#[test]
fn setting_packets() {
    assert_eq!(&pkt_for_flush()[..4], &[0x5e, 0xc0, 0x03, 0]);
    assert_eq!(&pkt_for_set_boot(true)[..4], &[0x5e, 0xc3, 0x01, 0x00]);
    assert_eq!(&pkt_for_set_boot(false)[..4], &[0x5e, 0xc3, 0x01, 0x80]);
    assert_eq!(&pkt_for_set_brightness(true)[..4], &[0x5e, 0xc0, 0x04, 0x03]);
    assert_eq!(&pkt_for_set_brightness(false)[..4], &[0x5e, 0xc0, 0x04, 0x00]);
    assert_eq!(&pkt_for_set_awake_enabled(true)[..4], &[0x5e, 0xc3, 0x01, 0x80]);
    assert_eq!(&pkt_for_set_awake_enabled(false)[..4], &[0x5e, 0xc3, 0x01, 0x00]);
    let p = pkt_for_enable_animation();
    assert_eq!(&p[..4], &[0x5e, 0xc4, 0x01, 0x80]);
    assert!(p[4..].iter().all(|b| *b == 0));
}

#[test]
fn anime_type_by_board() {
    assert_eq!(get_anime_type("GA401IV"), AnimeType::GA401);
    assert_eq!(get_anime_type("ROG GA401QM"), AnimeType::GA401);
    assert_eq!(get_anime_type("GA402RJ"), AnimeType::GA402);
    assert_eq!(get_anime_type("GU604VY"), AnimeType::GU604);
    assert_eq!(get_anime_type("GA401"), AnimeType::Unknown);
    assert_eq!(get_anime_type(""), AnimeType::Unknown);
}

#[test]
fn vendor_names() {
    assert_eq!(GfxVendors::parse("NVIDIA"), Ok(GfxVendors::Nvidia));
    assert_eq!(GfxVendors::parse("Hybrid\n"), Ok(GfxVendors::Hybrid));
    assert_eq!("integrated".parse::<GfxVendors>(), Ok(GfxVendors::Integrated));
    assert_eq!(GfxVendors::parse("Compute"), Ok(GfxVendors::Compute));
    assert_eq!(GfxVendors::parse("vfio"), Err(GfxError::ParseVendor));
    assert_eq!(GfxVendors::from_lowercase("NVIDIA"), Err(GfxError::ParseVendor));
    assert_eq!(GfxVendors::Hybrid.as_str(), "hybrid");
}

#[test]
fn action_names() {
    assert_eq!(GfxCtrlAction::parse("RestartX"), Ok(GfxCtrlAction::RestartX));
    assert_eq!(GfxCtrlAction::parse("REBOOT"), Ok(GfxCtrlAction::Reboot));
    assert_eq!(GfxCtrlAction::parse("none"), Ok(GfxCtrlAction::NoAction));
    assert_eq!(GfxCtrlAction::parse("logout"), Err(GfxError::ParseVendor));
    assert_eq!(GfxCtrlAction::NoAction.as_str(), "none");
}
