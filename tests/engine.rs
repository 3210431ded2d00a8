use asusd_policy::attribute::{AsusArmouryAttribute, AttrField, AttributeDescriptor};
use asusd_policy::engine::{
    check_and_set_epp, Capabilities, CtrlPlatform, EppStep, HalOp, PolicyError, Properties,
};
use asusd_policy::policy::{CpuEpp, FirmwareAttribute, PolicyStore, ThrottlePolicy};

fn full_caps() -> Capabilities {
    Capabilities { charge_control_end_threshold: true, throttle_thermal_policy: true }
}

fn ctrl() -> CtrlPlatform {
    CtrlPlatform::new(PolicyStore::new(), full_caps())
}

/// A stand-in for the hardware: the last value written to each control.
#[derive(Clone, Debug, PartialEq)]
struct Hw {
    charge: u8,
    throttle: ThrottlePolicy,
    epp: CpuEpp,
    attrs: Vec<(FirmwareAttribute, i32)>,
    writes: usize,
}

impl Hw {
    fn new() -> Hw {
        Hw { charge: 60, throttle: ThrottlePolicy::Balanced, epp: CpuEpp::Default, attrs: vec![], writes: 0 }
    }

    fn apply(&mut self, ops: &[HalOp]) {
        for op in ops {
            match *op {
                HalOp::SetChargeLimit(v) => self.charge = v,
                HalOp::SetEpp(e) => self.epp = e,
                HalOp::SetThrottlePolicy(p) => self.throttle = p,
                HalOp::SetAttribute(a, v) => {
                    self.attrs.retain(|(b, _)| *b != a);
                    self.attrs.push((a, v));
                }
                HalOp::RunPowerCommand(_) => continue,
            }
            self.writes += 1;
        }
    }
}

fn descriptor(name: FirmwareAttribute, default: Option<i32>) -> AttributeDescriptor {
    AttributeDescriptor {
        name,
        default_value: default,
        min_value: Some(5),
        max_value: Some(250),
        scalar_increment: None,
        possible_values: None,
    }
}

#[test]
fn charge_limit_set_then_get() {
    for v in 20u8..=100 {
        let mut c = ctrl();
        let mut hw = Hw::new();
        let op = c.plan_charge_control_end_threshold(v).unwrap();
        assert_eq!(op, HalOp::SetChargeLimit(v));
        hw.apply(&[op]);
        assert_eq!(c.set_charge_control_end_threshold(v, true), Ok(()));
        assert_eq!(c.config.charge_control_end_threshold, v);
        assert_eq!(c.charge_control_end_threshold(Some(hw.charge)), Ok(v));
    }
}

#[test]
fn charge_limit_out_of_range_is_refused() {
    let c = ctrl();
    for v in [0u8, 19, 101, 255] {
        assert_eq!(c.plan_charge_control_end_threshold(v), Err(PolicyError::InvalidArgument));
    }
    assert_eq!(c.config.charge_control_end_threshold, 100);
}

#[test]
fn charge_limit_unsupported_and_failed_write() {
    let caps = Capabilities { charge_control_end_threshold: false, throttle_thermal_policy: true };
    let c = CtrlPlatform::new(PolicyStore::new(), caps);
    assert_eq!(c.plan_charge_control_end_threshold(80), Err(PolicyError::Unsupported));
    assert_eq!(c.charge_control_end_threshold(Some(80)), Err(PolicyError::Unsupported));

    let mut c = ctrl();
    let before = c.config.duplicate();
    assert_eq!(c.set_charge_control_end_threshold(80, false), Err(PolicyError::HardwareIo));
    assert!(c.config.same_as(&before));
    assert_eq!(c.charge_control_end_threshold(None), Err(PolicyError::HardwareIo));
}

#[test]
fn reload_twice_is_the_same() {
    let mut c = ctrl();
    c.config.record_tuning(ThrottlePolicy::Performance, FirmwareAttribute::PptPl1Spl, 45);
    let attrs = vec![FirmwareAttribute::PptPl1Spl, FirmwareAttribute::BootSound];
    let mut hw = Hw::new();
    let ops1 = c.reload(Some(true), Some(hw.throttle), &attrs);
    assert_eq!(
        ops1,
        vec![
            HalOp::SetChargeLimit(100),
            HalOp::SetEpp(CpuEpp::Performance),
            HalOp::SetThrottlePolicy(ThrottlePolicy::Performance),
            HalOp::SetAttribute(FirmwareAttribute::PptPl1Spl, 45),
            HalOp::RunPowerCommand(true),
        ]
    );
    hw.apply(&ops1);
    let store1 = c.config.duplicate();
    let hw1 = hw.clone();
    let ops2 = c.reload(Some(true), Some(hw.throttle), &attrs);
    assert_eq!(ops1, ops2);
    hw.apply(&ops2);
    assert!(c.config.same_as(&store1));
    assert_eq!(hw.charge, hw1.charge);
    assert_eq!(hw.throttle, hw1.throttle);
    assert_eq!(hw.epp, hw1.epp);
    assert_eq!(hw.attrs, hw1.attrs);
}

#[test]
fn reload_without_policy_change_keeps_active_tunings() {
    let mut c = ctrl();
    c.set_change_throttle_policy_on_battery(false);
    c.config.record_tuning(ThrottlePolicy::Quiet, FirmwareAttribute::PptFppt, 30);
    let attrs = vec![FirmwareAttribute::PptFppt];
    let ops = c.reload(Some(false), Some(ThrottlePolicy::Quiet), &attrs);
    assert_eq!(
        ops,
        vec![
            HalOp::SetChargeLimit(100),
            HalOp::SetAttribute(FirmwareAttribute::PptFppt, 30),
            HalOp::RunPowerCommand(false),
        ]
    );
    assert!(!c.config.last_power_plugged);
}

#[test]
fn next_policy_cycles() {
    let c = ctrl();
    let mut hw = Hw::new();
    let mut seen = vec![];
    for _ in 0..3 {
        let ops = c.next_throttle_thermal_policy(Some(hw.throttle)).unwrap();
        hw.apply(&ops);
        seen.push(hw.throttle);
    }
    assert_eq!(seen, vec![ThrottlePolicy::Performance, ThrottlePolicy::Quiet, ThrottlePolicy::Balanced]);
    assert_eq!(ThrottlePolicy::Quiet.next(), ThrottlePolicy::Balanced);
}

#[test]
fn next_policy_sets_epp_before_policy() {
    let c = ctrl();
    let ops = c.next_throttle_thermal_policy(Some(ThrottlePolicy::Performance)).unwrap();
    assert_eq!(ops, vec![HalOp::SetEpp(CpuEpp::Power), HalOp::SetThrottlePolicy(ThrottlePolicy::Quiet)]);
    assert_eq!(c.next_throttle_thermal_policy(None), Err(PolicyError::HardwareIo));
    let caps = Capabilities { charge_control_end_threshold: true, throttle_thermal_policy: false };
    let c = CtrlPlatform::new(PolicyStore::new(), caps);
    assert_eq!(
        c.next_throttle_thermal_policy(Some(ThrottlePolicy::Balanced)),
        Err(PolicyError::Unsupported)
    );
}

#[test]
fn one_shot_then_unplug_restores_limit() {
    let mut c = ctrl();
    c.set_charge_control_end_threshold(70, true).unwrap();
    c.on_power_source_changed(true);
    let mut hw = Hw::new();
    hw.apply(&[HalOp::SetChargeLimit(70)]);
    let op = c.plan_one_shot_full_charge().unwrap();
    assert_eq!(op, Some(HalOp::SetChargeLimit(100)));
    hw.apply(&[op.unwrap()]);
    c.one_shot_full_charge(true).unwrap();
    assert_eq!(c.config.charge_control_end_threshold, 100);
    assert_eq!(c.config.base_charge_control_end_threshold, 70);
    let ops = c.on_power_source_changed(false);
    assert_eq!(ops.last(), Some(&HalOp::SetChargeLimit(70)));
    hw.apply(&ops);
    assert_eq!(hw.charge, 70);
    assert_eq!(c.config.charge_control_end_threshold, 70);
    assert_eq!(c.config.base_charge_control_end_threshold, 0);
}

#[test]
fn one_shot_at_full_is_no_op() {
    let mut c = ctrl();
    assert_eq!(c.plan_one_shot_full_charge(), Ok(None));
    assert_eq!(c.one_shot_full_charge(true), Ok(()));
    assert_eq!(c.config.base_charge_control_end_threshold, 0);
    c.set_charge_control_end_threshold(60, true).unwrap();
    assert_eq!(c.one_shot_full_charge(false), Err(PolicyError::HardwareIo));
    assert_eq!(c.config.charge_control_end_threshold, 60);
}

#[test]
fn power_change_same_source_is_ignored() {
    let mut c = ctrl();
    assert!(c.on_power_source_changed(false).is_empty());
    let ops = c.on_power_source_changed(true);
    assert_eq!(
        ops,
        vec![
            HalOp::SetEpp(CpuEpp::Performance),
            HalOp::SetThrottlePolicy(ThrottlePolicy::Performance),
            HalOp::RunPowerCommand(true),
        ]
    );
    assert!(c.config.last_power_plugged);
    c.set_change_throttle_policy_on_battery(false);
    assert_eq!(c.on_power_source_changed(false), vec![HalOp::RunPowerCommand(false)]);
}

#[test]
fn suspend_and_shutdown() {
    let mut c = ctrl();
    c.set_charge_control_end_threshold(80, true).unwrap();
    assert!(c.on_suspend(true).is_empty());
    assert_eq!(c.on_suspend(false), vec![HalOp::SetChargeLimit(80)]);
    assert!(c.on_shutdown().is_empty());
    c.one_shot_full_charge(true).unwrap();
    assert_eq!(c.on_shutdown(), vec![HalOp::SetChargeLimit(80)]);
    assert_eq!(c.config.charge_control_end_threshold, 80);
    assert_eq!(c.config.base_charge_control_end_threshold, 0);
}

#[test]
fn external_edit_of_ac_policy_writes_once() {
    let mut c = ctrl();
    c.set_throttle_policy_linked_epp(false);
    let mut candidate = c.config.duplicate();
    candidate.throttle_policy_on_ac = ThrottlePolicy::Quiet;
    let attrs = vec![FirmwareAttribute::PptPl1Spl, FirmwareAttribute::BootSound];
    let expected = candidate.duplicate();
    let mut hw = Hw::new();
    let ops = c.on_external_config_changed(candidate, Some(ThrottlePolicy::Balanced), &attrs);
    hw.apply(&ops);
    assert_eq!(hw.writes, 1);
    assert_eq!(ops, vec![HalOp::SetThrottlePolicy(ThrottlePolicy::Quiet)]);
    assert!(c.config.same_as(&expected));
}

#[test]
fn external_edit_applies_changed_fields() {
    let mut c = ctrl();
    let mut candidate = c.config.duplicate();
    candidate.charge_control_end_threshold = 60;
    candidate.throttle_balanced_epp = CpuEpp::BalancePerformance;
    candidate.record_setting(FirmwareAttribute::BootSound, 1);
    candidate.record_tuning(ThrottlePolicy::Balanced, FirmwareAttribute::PptPl1Spl, 40);
    candidate.record_tuning(ThrottlePolicy::Quiet, FirmwareAttribute::PptPl1Spl, 20);
    let attrs = vec![FirmwareAttribute::PptPl1Spl, FirmwareAttribute::BootSound];
    let ops = c.on_external_config_changed(candidate, Some(ThrottlePolicy::Balanced), &attrs);
    assert_eq!(
        ops,
        vec![
            HalOp::SetChargeLimit(60),
            HalOp::SetEpp(CpuEpp::BalancePerformance),
            HalOp::SetAttribute(FirmwareAttribute::PptPl1Spl, 40),
            HalOp::SetAttribute(FirmwareAttribute::BootSound, 1),
        ]
    );
    let same = c.config.duplicate();
    assert!(c.on_external_config_changed(same, Some(ThrottlePolicy::Balanced), &attrs).is_empty());
}

#[test]
fn interleaved_charge_and_power_keep_store_valid() {
    for first_charge in [true, false] {
        let mut c = ctrl();
        c.one_shot_full_charge(true).unwrap();
        c.set_charge_control_end_threshold(50, true).unwrap();
        c.one_shot_full_charge(true).unwrap();
        c.on_power_source_changed(true);
        if first_charge {
            c.set_charge_control_end_threshold(80, true).unwrap();
            c.on_power_source_changed(false);
        } else {
            c.on_power_source_changed(false);
            c.set_charge_control_end_threshold(80, true).unwrap();
        }
        let s = &c.config;
        assert_eq!(s.charge_control_end_threshold, 80);
        let base = s.base_charge_control_end_threshold;
        assert!(base == 0 || (20..=100).contains(&base));
    }
}

#[test]
fn power_limit_attribute_goes_to_active_profile() {
    let attr = AsusArmouryAttribute::new(descriptor(FirmwareAttribute::PptPl2Sppt, Some(80)));
    let mut store = PolicyStore::new();
    assert_eq!(attr.plan_current_value(90), Ok(HalOp::SetAttribute(FirmwareAttribute::PptPl2Sppt, 90)));
    assert_eq!(attr.set_current_value(&mut store, 90, true, Some(ThrottlePolicy::Performance)), Ok(()));
    assert_eq!(store.tunings_performance.get(FirmwareAttribute::PptPl2Sppt), Some(90));
    assert_eq!(store.tunings_balanced.get(FirmwareAttribute::PptPl2Sppt), None);
    assert!(store.armoury_settings.same_as(&PolicyStore::new().armoury_settings));
}

#[test]
fn generic_attribute_goes_to_settings() {
    let attr = AsusArmouryAttribute::new(descriptor(FirmwareAttribute::PanelOverdrive, None));
    let mut store = PolicyStore::new();
    assert_eq!(attr.set_current_value(&mut store, 1, true, Some(ThrottlePolicy::Performance)), Ok(()));
    assert_eq!(store.armoury_settings.get(FirmwareAttribute::PanelOverdrive), Some(1));
    let empty = PolicyStore::new();
    assert!(store.tunings_performance.same_as(&empty.tunings_performance));
    assert!(store.tunings_balanced.same_as(&empty.tunings_balanced));
    assert!(store.tunings_quiet.same_as(&empty.tunings_quiet));
}

#[test]
fn attribute_write_failures_leave_store() {
    let attr = AsusArmouryAttribute::new(descriptor(FirmwareAttribute::PptPl1Spl, Some(80)));
    let mut store = PolicyStore::new();
    assert_eq!(attr.set_current_value(&mut store, 90, false, Some(ThrottlePolicy::Quiet)), Err(PolicyError::HardwareIo));
    assert_eq!(attr.set_current_value(&mut store, 90, true, None), Err(PolicyError::HardwareIo));
    assert!(store.same_as(&PolicyStore::new()));
    assert_eq!(attr.plan_current_value(4), Err(PolicyError::InvalidArgument));
    assert_eq!(attr.plan_current_value(251), Err(PolicyError::InvalidArgument));
}

#[test]
fn attribute_descriptor_fields() {
    let attr = AsusArmouryAttribute::new(descriptor(FirmwareAttribute::PptPl1Spl, Some(80)));
    assert_eq!(attr.default_value(), Some(80));
    assert_eq!(attr.scalar_increment(), None);
    assert_eq!(attr.possible_values(), Vec::<i32>::new());
    assert_eq!(attr.available_attrs(Some(3)), vec!["default_value", "min_value", "max_value", "current_value"]);
    assert_eq!(attr.available_fields(None), vec![AttrField::DefaultValue, AttrField::MinValue, AttrField::MaxValue]);
    assert_eq!(attr.current_value(None), Err(PolicyError::Unsupported));
    assert_eq!(attr.current_value(Some(-1)), Ok(-1));
    let mut d = descriptor(FirmwareAttribute::GpuMuxMode, None);
    d.possible_values = Some(vec![0, 1]);
    assert_eq!(AsusArmouryAttribute::new(d).possible_values(), vec![0, 1]);
}

#[test]
fn attribute_reload_uses_active_tuning() {
    let attr = AsusArmouryAttribute::new(descriptor(FirmwareAttribute::NvTempTarget, Some(87)));
    let mut store = PolicyStore::new();
    store.record_tuning(ThrottlePolicy::Quiet, FirmwareAttribute::NvTempTarget, 75);
    assert_eq!(attr.reload(&store, ThrottlePolicy::Quiet), Some(HalOp::SetAttribute(FirmwareAttribute::NvTempTarget, 75)));
    assert_eq!(attr.reload(&store, ThrottlePolicy::Balanced), None);
}

#[test]
fn policy_switch_applies_tunings_or_defaults() {
    let mut c = ctrl();
    c.config.record_tuning(ThrottlePolicy::Quiet, FirmwareAttribute::PptPl1Spl, 25);
    let attrs = vec![
        descriptor(FirmwareAttribute::PptPl1Spl, Some(80)),
        descriptor(FirmwareAttribute::PptPl2Sppt, Some(90)),
        descriptor(FirmwareAttribute::PptFppt, None),
        descriptor(FirmwareAttribute::BootSound, Some(1)),
    ];
    let ops = c.on_throttle_policy_changed(ThrottlePolicy::Quiet, &attrs);
    assert_eq!(
        ops,
        vec![
            HalOp::SetEpp(CpuEpp::Power),
            HalOp::SetAttribute(FirmwareAttribute::PptPl1Spl, 25),
            HalOp::SetAttribute(FirmwareAttribute::PptPl2Sppt, 90),
        ]
    );
}

#[test]
fn policy_setters_write_through() {
    let mut c = ctrl();
    let ops = c.set_throttle_thermal_policy(ThrottlePolicy::Quiet).unwrap();
    assert_eq!(ops, vec![HalOp::SetEpp(CpuEpp::Power), HalOp::SetThrottlePolicy(ThrottlePolicy::Quiet)]);
    assert_eq!(c.set_throttle_policy_on_ac(ThrottlePolicy::Quiet, false), Err(PolicyError::HardwareIo));
    assert_eq!(c.config.throttle_policy_on_ac, ThrottlePolicy::Performance);
    assert_eq!(c.set_throttle_policy_on_ac(ThrottlePolicy::Quiet, true), Ok(()));
    assert_eq!(c.config.throttle_policy_on_ac, ThrottlePolicy::Quiet);
    assert_eq!(c.set_throttle_policy_on_battery(ThrottlePolicy::Balanced, true), Ok(()));
    assert_eq!(c.config.throttle_policy_on_battery, ThrottlePolicy::Balanced);
    assert_eq!(c.throttle_thermal_policy(Some(ThrottlePolicy::Quiet)), Ok(ThrottlePolicy::Quiet));
    let ops = c.set_epp_for(ThrottlePolicy::Quiet, CpuEpp::BalancePower, Some(ThrottlePolicy::Quiet));
    assert_eq!(ops, vec![HalOp::SetEpp(CpuEpp::BalancePower)]);
    assert!(c.set_epp_for(ThrottlePolicy::Balanced, CpuEpp::Power, Some(ThrottlePolicy::Quiet)).is_empty());
    assert_eq!(c.config.throttle_balanced_epp, CpuEpp::Power);
}

#[test]
fn epp_step_follows_offered_preferences() {
    let offered = vec![CpuEpp::Default, CpuEpp::Power];
    assert_eq!(check_and_set_epp(CpuEpp::Power, &offered, false), EppStep::SetEpp(CpuEpp::Power));
    assert_eq!(check_and_set_epp(CpuEpp::Performance, &offered, false), EppStep::SetPowersaveGovernor);
    assert_eq!(check_and_set_epp(CpuEpp::Performance, &offered, true), EppStep::Nothing);
    assert_eq!(check_and_set_epp(CpuEpp::Power, &vec![], true), EppStep::Nothing);
}

#[test]
fn supported_properties_follow_capabilities() {
    assert_eq!(
        ctrl().supported_properties(),
        vec![Properties::ChargeControlEndThreshold, Properties::ThrottlePolicy]
    );
    let caps = Capabilities { charge_control_end_threshold: false, throttle_thermal_policy: true };
    assert_eq!(CtrlPlatform::new(PolicyStore::new(), caps).supported_properties(), vec![Properties::ThrottlePolicy]);
    let none = Capabilities { charge_control_end_threshold: false, throttle_thermal_policy: false };
    assert!(CtrlPlatform::new(PolicyStore::new(), none).supported_properties().is_empty());
}

#[test]
fn named_epp_setters() {
    let mut c = ctrl();
    assert_eq!(c.set_throttle_quiet_epp(CpuEpp::Default, Some(ThrottlePolicy::Quiet)), vec![HalOp::SetEpp(CpuEpp::Default)]);
    assert_eq!(c.config.throttle_quiet_epp, CpuEpp::Default);
    assert!(c.set_throttle_performance_epp(CpuEpp::BalancePerformance, None).is_empty());
    assert_eq!(c.config.throttle_performance_epp, CpuEpp::BalancePerformance);
    c.set_throttle_policy_linked_epp(false);
    assert!(c.set_throttle_balanced_epp(CpuEpp::Power, Some(ThrottlePolicy::Balanced)).is_empty());
    assert_eq!(c.config.throttle_balanced_epp, CpuEpp::Power);
}
