//! The data that the daemon persists: throttle policies, energy
//! preferences, firmware attribute names and the policy store itself.
use vstd::prelude::*;

verus! {

/// Number of firmware attributes that the store can hold a value for.
pub const ATTR_COUNT: usize = 24;

/// A named thermal/performance profile of the platform firmware.
#[derive(Debug, Clone, Copy, PartialEq, Eq, Structural)]
pub enum ThrottlePolicy {
    Balanced,
    Performance,
    Quiet,
}

impl ThrottlePolicy {
    /// The fixed cycle `Balanced -> Performance -> Quiet -> Balanced`.
    pub open spec fn spec_next(self) -> ThrottlePolicy {
        match self {
            ThrottlePolicy::Balanced => ThrottlePolicy::Performance,
            ThrottlePolicy::Performance => ThrottlePolicy::Quiet,
            ThrottlePolicy::Quiet => ThrottlePolicy::Balanced,
        }
    }

    pub fn next(self) -> (r: ThrottlePolicy)
        ensures
            r == self.spec_next(),
    {
        match self {
            ThrottlePolicy::Balanced => ThrottlePolicy::Performance,
            ThrottlePolicy::Performance => ThrottlePolicy::Quiet,
            ThrottlePolicy::Quiet => ThrottlePolicy::Balanced,
        }
    }

    /// The number the firmware uses for this policy.
    pub open spec fn spec_code(self) -> u8 {
        match self {
            ThrottlePolicy::Balanced => 0,
            ThrottlePolicy::Performance => 1,
            ThrottlePolicy::Quiet => 2,
        }
    }

    pub fn code(self) -> (r: u8)
        ensures
            r == self.spec_code(),
    {
        match self {
            ThrottlePolicy::Balanced => 0,
            ThrottlePolicy::Performance => 1,
            ThrottlePolicy::Quiet => 2,
        }
    }

    pub open spec fn spec_from_code(c: u8) -> Option<ThrottlePolicy> {
        if c == 0 {
            Some(ThrottlePolicy::Balanced)
        } else if c == 1 {
            Some(ThrottlePolicy::Performance)
        } else if c == 2 {
            Some(ThrottlePolicy::Quiet)
        } else {
            None
        }
    }

    /// The policy for a firmware number, if it names one.
    pub fn from_code(c: u8) -> (r: Option<ThrottlePolicy>)
        ensures
            r == Self::spec_from_code(c),
    {
        if c == 0 {
            Some(ThrottlePolicy::Balanced)
        } else if c == 1 {
            Some(ThrottlePolicy::Performance)
        } else if c == 2 {
            Some(ThrottlePolicy::Quiet)
        } else {
            None
        }
    }
}

/// CPU energy-performance preference.
#[derive(Debug, Clone, Copy, PartialEq, Eq, Structural)]
pub enum CpuEpp {
    Default,
    Performance,
    BalancePerformance,
    BalancePower,
    Power,
}

impl CpuEpp {
    pub open spec fn spec_code(self) -> u8 {
        match self {
            CpuEpp::Default => 0,
            CpuEpp::Performance => 1,
            CpuEpp::BalancePerformance => 2,
            CpuEpp::BalancePower => 3,
            CpuEpp::Power => 4,
        }
    }

    pub fn code(self) -> (r: u8)
        ensures
            r == self.spec_code(),
    {
        match self {
            CpuEpp::Default => 0,
            CpuEpp::Performance => 1,
            CpuEpp::BalancePerformance => 2,
            CpuEpp::BalancePower => 3,
            CpuEpp::Power => 4,
        }
    }

    pub open spec fn spec_from_code(c: u8) -> Option<CpuEpp> {
        if c == 0 {
            Some(CpuEpp::Default)
        } else if c == 1 {
            Some(CpuEpp::Performance)
        } else if c == 2 {
            Some(CpuEpp::BalancePerformance)
        } else if c == 3 {
            Some(CpuEpp::BalancePower)
        } else if c == 4 {
            Some(CpuEpp::Power)
        } else {
            None
        }
    }

    pub fn from_code(c: u8) -> (r: Option<CpuEpp>)
        ensures
            r == Self::spec_from_code(c),
    {
        if c == 0 {
            Some(CpuEpp::Default)
        } else if c == 1 {
            Some(CpuEpp::Performance)
        } else if c == 2 {
            Some(CpuEpp::BalancePerformance)
        } else if c == 3 {
            Some(CpuEpp::BalancePower)
        } else if c == 4 {
            Some(CpuEpp::Power)
        } else {
            None
        }
    }
}

/// A firmware attribute that the platform may expose.
#[derive(Debug, Clone, Copy, PartialEq, Eq, Structural)]
pub enum FirmwareAttribute {
    ApuMem,
    CoresPerformance,
    CoresEfficiency,
    PptPl1Spl,
    PptPl2Sppt,
    PptPl3Fppt,
    PptFppt,
    PptApuSppt,
    PptPlatformSppt,
    NvDynamicBoost,
    NvTempTarget,
    DgpuBaseTgp,
    DgpuTgp,
    ChargeMode,
    BootSound,
    McuPowersave,
    PanelOverdrive,
    PanelHdMode,
    EgpuConnected,
    EgpuEnable,
    DgpuDisable,
    GpuMuxMode,
    MiniLedMode,
    PendingReboot,
}

impl FirmwareAttribute {
    /// The slot of this attribute in an [`AttrTable`].
    pub open spec fn spec_index(self) -> nat {
        match self {
            FirmwareAttribute::ApuMem => 0,
            FirmwareAttribute::CoresPerformance => 1,
            FirmwareAttribute::CoresEfficiency => 2,
            FirmwareAttribute::PptPl1Spl => 3,
            FirmwareAttribute::PptPl2Sppt => 4,
            FirmwareAttribute::PptPl3Fppt => 5,
            FirmwareAttribute::PptFppt => 6,
            FirmwareAttribute::PptApuSppt => 7,
            FirmwareAttribute::PptPlatformSppt => 8,
            FirmwareAttribute::NvDynamicBoost => 9,
            FirmwareAttribute::NvTempTarget => 10,
            FirmwareAttribute::DgpuBaseTgp => 11,
            FirmwareAttribute::DgpuTgp => 12,
            FirmwareAttribute::ChargeMode => 13,
            FirmwareAttribute::BootSound => 14,
            FirmwareAttribute::McuPowersave => 15,
            FirmwareAttribute::PanelOverdrive => 16,
            FirmwareAttribute::PanelHdMode => 17,
            FirmwareAttribute::EgpuConnected => 18,
            FirmwareAttribute::EgpuEnable => 19,
            FirmwareAttribute::DgpuDisable => 20,
            FirmwareAttribute::GpuMuxMode => 21,
            FirmwareAttribute::MiniLedMode => 22,
            FirmwareAttribute::PendingReboot => 23,
        }
    }

    pub fn index(self) -> (r: usize)
        ensures
            r == self.spec_index(),
            r < ATTR_COUNT,
    {
        match self {
            FirmwareAttribute::ApuMem => 0,
            FirmwareAttribute::CoresPerformance => 1,
            FirmwareAttribute::CoresEfficiency => 2,
            FirmwareAttribute::PptPl1Spl => 3,
            FirmwareAttribute::PptPl2Sppt => 4,
            FirmwareAttribute::PptPl3Fppt => 5,
            FirmwareAttribute::PptFppt => 6,
            FirmwareAttribute::PptApuSppt => 7,
            FirmwareAttribute::PptPlatformSppt => 8,
            FirmwareAttribute::NvDynamicBoost => 9,
            FirmwareAttribute::NvTempTarget => 10,
            FirmwareAttribute::DgpuBaseTgp => 11,
            FirmwareAttribute::DgpuTgp => 12,
            FirmwareAttribute::ChargeMode => 13,
            FirmwareAttribute::BootSound => 14,
            FirmwareAttribute::McuPowersave => 15,
            FirmwareAttribute::PanelOverdrive => 16,
            FirmwareAttribute::PanelHdMode => 17,
            FirmwareAttribute::EgpuConnected => 18,
            FirmwareAttribute::EgpuEnable => 19,
            FirmwareAttribute::DgpuDisable => 20,
            FirmwareAttribute::GpuMuxMode => 21,
            FirmwareAttribute::MiniLedMode => 22,
            FirmwareAttribute::PendingReboot => 23,
        }
    }

    pub open spec fn spec_from_index(i: nat) -> FirmwareAttribute {
        if i == 0 {
            FirmwareAttribute::ApuMem
        } else if i == 1 {
            FirmwareAttribute::CoresPerformance
        } else if i == 2 {
            FirmwareAttribute::CoresEfficiency
        } else if i == 3 {
            FirmwareAttribute::PptPl1Spl
        } else if i == 4 {
            FirmwareAttribute::PptPl2Sppt
        } else if i == 5 {
            FirmwareAttribute::PptPl3Fppt
        } else if i == 6 {
            FirmwareAttribute::PptFppt
        } else if i == 7 {
            FirmwareAttribute::PptApuSppt
        } else if i == 8 {
            FirmwareAttribute::PptPlatformSppt
        } else if i == 9 {
            FirmwareAttribute::NvDynamicBoost
        } else if i == 10 {
            FirmwareAttribute::NvTempTarget
        } else if i == 11 {
            FirmwareAttribute::DgpuBaseTgp
        } else if i == 12 {
            FirmwareAttribute::DgpuTgp
        } else if i == 13 {
            FirmwareAttribute::ChargeMode
        } else if i == 14 {
            FirmwareAttribute::BootSound
        } else if i == 15 {
            FirmwareAttribute::McuPowersave
        } else if i == 16 {
            FirmwareAttribute::PanelOverdrive
        } else if i == 17 {
            FirmwareAttribute::PanelHdMode
        } else if i == 18 {
            FirmwareAttribute::EgpuConnected
        } else if i == 19 {
            FirmwareAttribute::EgpuEnable
        } else if i == 20 {
            FirmwareAttribute::DgpuDisable
        } else if i == 21 {
            FirmwareAttribute::GpuMuxMode
        } else if i == 22 {
            FirmwareAttribute::MiniLedMode
        } else {
            FirmwareAttribute::PendingReboot
        }
    }

    /// The attribute in slot `i`.
    pub fn from_index(i: usize) -> (r: FirmwareAttribute)
        requires
            i < ATTR_COUNT,
        ensures
            r == Self::spec_from_index(i as nat),
            r.spec_index() == i,
    {
        if i == 0 {
            FirmwareAttribute::ApuMem
        } else if i == 1 {
            FirmwareAttribute::CoresPerformance
        } else if i == 2 {
            FirmwareAttribute::CoresEfficiency
        } else if i == 3 {
            FirmwareAttribute::PptPl1Spl
        } else if i == 4 {
            FirmwareAttribute::PptPl2Sppt
        } else if i == 5 {
            FirmwareAttribute::PptPl3Fppt
        } else if i == 6 {
            FirmwareAttribute::PptFppt
        } else if i == 7 {
            FirmwareAttribute::PptApuSppt
        } else if i == 8 {
            FirmwareAttribute::PptPlatformSppt
        } else if i == 9 {
            FirmwareAttribute::NvDynamicBoost
        } else if i == 10 {
            FirmwareAttribute::NvTempTarget
        } else if i == 11 {
            FirmwareAttribute::DgpuBaseTgp
        } else if i == 12 {
            FirmwareAttribute::DgpuTgp
        } else if i == 13 {
            FirmwareAttribute::ChargeMode
        } else if i == 14 {
            FirmwareAttribute::BootSound
        } else if i == 15 {
            FirmwareAttribute::McuPowersave
        } else if i == 16 {
            FirmwareAttribute::PanelOverdrive
        } else if i == 17 {
            FirmwareAttribute::PanelHdMode
        } else if i == 18 {
            FirmwareAttribute::EgpuConnected
        } else if i == 19 {
            FirmwareAttribute::EgpuEnable
        } else if i == 20 {
            FirmwareAttribute::DgpuDisable
        } else if i == 21 {
            FirmwareAttribute::GpuMuxMode
        } else if i == 22 {
            FirmwareAttribute::MiniLedMode
        } else {
            FirmwareAttribute::PendingReboot
        }
    }

    /// Power-limit attributes: their value is kept per throttle policy.
    pub open spec fn spec_is_ppt(self) -> bool {
        match self {
            FirmwareAttribute::PptPl1Spl
            | FirmwareAttribute::PptPl2Sppt
            | FirmwareAttribute::PptPl3Fppt
            | FirmwareAttribute::PptFppt
            | FirmwareAttribute::PptApuSppt
            | FirmwareAttribute::PptPlatformSppt
            | FirmwareAttribute::NvDynamicBoost
            | FirmwareAttribute::NvTempTarget
            | FirmwareAttribute::DgpuBaseTgp
            | FirmwareAttribute::DgpuTgp => true,
            _ => false,
        }
    }

    pub fn is_ppt(self) -> (r: bool)
        ensures
            r == self.spec_is_ppt(),
    {
        match self {
            FirmwareAttribute::PptPl1Spl
            | FirmwareAttribute::PptPl2Sppt
            | FirmwareAttribute::PptPl3Fppt
            | FirmwareAttribute::PptFppt
            | FirmwareAttribute::PptApuSppt
            | FirmwareAttribute::PptPlatformSppt
            | FirmwareAttribute::NvDynamicBoost
            | FirmwareAttribute::NvTempTarget
            | FirmwareAttribute::DgpuBaseTgp
            | FirmwareAttribute::DgpuTgp => true,
            _ => false,
        }
    }

    /// The name under which the firmware lists this attribute.
    pub open spec fn spec_name(self) -> Seq<char> {
        match self {
            FirmwareAttribute::ApuMem => "apu_mem"@,
            FirmwareAttribute::CoresPerformance => "cores_performance"@,
            FirmwareAttribute::CoresEfficiency => "cores_efficiency"@,
            FirmwareAttribute::PptPl1Spl => "ppt_pl1_spl"@,
            FirmwareAttribute::PptPl2Sppt => "ppt_pl2_sppt"@,
            FirmwareAttribute::PptPl3Fppt => "ppt_pl3_fppt"@,
            FirmwareAttribute::PptFppt => "ppt_fppt"@,
            FirmwareAttribute::PptApuSppt => "ppt_apu_sppt"@,
            FirmwareAttribute::PptPlatformSppt => "ppt_platform_sppt"@,
            FirmwareAttribute::NvDynamicBoost => "nv_dynamic_boost"@,
            FirmwareAttribute::NvTempTarget => "nv_temp_target"@,
            FirmwareAttribute::DgpuBaseTgp => "dgpu_base_tgp"@,
            FirmwareAttribute::DgpuTgp => "dgpu_tgp"@,
            FirmwareAttribute::ChargeMode => "charge_mode"@,
            FirmwareAttribute::BootSound => "boot_sound"@,
            FirmwareAttribute::McuPowersave => "mcu_powersave"@,
            FirmwareAttribute::PanelOverdrive => "panel_overdrive"@,
            FirmwareAttribute::PanelHdMode => "panel_hd_mode"@,
            FirmwareAttribute::EgpuConnected => "egpu_connected"@,
            FirmwareAttribute::EgpuEnable => "egpu_enable"@,
            FirmwareAttribute::DgpuDisable => "dgpu_disable"@,
            FirmwareAttribute::GpuMuxMode => "gpu_mux_mode"@,
            FirmwareAttribute::MiniLedMode => "mini_led_mode"@,
            FirmwareAttribute::PendingReboot => "pending_reboot"@,
        }
    }

    pub fn name(self) -> (r: &'static str)
        ensures
            r@ == self.spec_name(),
    {
        match self {
            FirmwareAttribute::ApuMem => "apu_mem",
            FirmwareAttribute::CoresPerformance => "cores_performance",
            FirmwareAttribute::CoresEfficiency => "cores_efficiency",
            FirmwareAttribute::PptPl1Spl => "ppt_pl1_spl",
            FirmwareAttribute::PptPl2Sppt => "ppt_pl2_sppt",
            FirmwareAttribute::PptPl3Fppt => "ppt_pl3_fppt",
            FirmwareAttribute::PptFppt => "ppt_fppt",
            FirmwareAttribute::PptApuSppt => "ppt_apu_sppt",
            FirmwareAttribute::PptPlatformSppt => "ppt_platform_sppt",
            FirmwareAttribute::NvDynamicBoost => "nv_dynamic_boost",
            FirmwareAttribute::NvTempTarget => "nv_temp_target",
            FirmwareAttribute::DgpuBaseTgp => "dgpu_base_tgp",
            FirmwareAttribute::DgpuTgp => "dgpu_tgp",
            FirmwareAttribute::ChargeMode => "charge_mode",
            FirmwareAttribute::BootSound => "boot_sound",
            FirmwareAttribute::McuPowersave => "mcu_powersave",
            FirmwareAttribute::PanelOverdrive => "panel_overdrive",
            FirmwareAttribute::PanelHdMode => "panel_hd_mode",
            FirmwareAttribute::EgpuConnected => "egpu_connected",
            FirmwareAttribute::EgpuEnable => "egpu_enable",
            FirmwareAttribute::DgpuDisable => "dgpu_disable",
            FirmwareAttribute::GpuMuxMode => "gpu_mux_mode",
            FirmwareAttribute::MiniLedMode => "mini_led_mode",
            FirmwareAttribute::PendingReboot => "pending_reboot",
        }
    }
}

/// A value for some of the firmware attributes, at most one each.
#[derive(Debug, Clone)]
pub struct AttrTable {
    slots: Vec<Option<i32>>,
}

impl View for AttrTable {
    type V = Map<FirmwareAttribute, i32>;

    closed spec fn view(&self) -> Map<FirmwareAttribute, i32> {
        Map::new(
            |a: FirmwareAttribute| self.slots@[a.spec_index() as int] is Some,
            |a: FirmwareAttribute| self.slots@[a.spec_index() as int]->Some_0,
        )
    }
}

/// Every slot belongs to exactly one attribute.
pub proof fn lemma_index_bijective()
    ensures
        forall|a: FirmwareAttribute| #[trigger] a.spec_index() < ATTR_COUNT,
        forall|a: FirmwareAttribute|
            FirmwareAttribute::spec_from_index(#[trigger] a.spec_index()) == a,
        forall|i: nat|
            i < ATTR_COUNT ==> (#[trigger] FirmwareAttribute::spec_from_index(i)).spec_index()
                == i,
{
    assert forall|a: FirmwareAttribute|
        FirmwareAttribute::spec_from_index(#[trigger] a.spec_index()) == a by {
        match a {
            _ => {},
        }
    }
}

impl AttrTable {
    pub closed spec fn wf(&self) -> bool {
        self.slots@.len() == ATTR_COUNT
    }

    /// A table with no values.
    pub fn new() -> (r: AttrTable)
        ensures
            r.wf(),
            r@ == Map::<FirmwareAttribute, i32>::empty(),
    {
        let mut slots: Vec<Option<i32>> = Vec::new();
        let mut i: usize = 0;
        while i < ATTR_COUNT
            invariant
                i <= ATTR_COUNT,
                slots@.len() == i,
                forall|j: int| 0 <= j < i ==> slots@[j] is None,
            decreases ATTR_COUNT - i,
        {
            slots.push(None);
            i = i + 1;
        }
        let r = AttrTable { slots };
        proof {
            lemma_index_bijective();
        }
        assert(r@ =~= Map::<FirmwareAttribute, i32>::empty());
        r
    }

    /// The value held for `a`.
    pub fn get(&self, a: FirmwareAttribute) -> (r: Option<i32>)
        requires
            self.wf(),
        ensures
            r == (if self@.contains_key(a) {
                Some(self@[a])
            } else {
                None
            }),
    {
        proof {
            lemma_index_bijective();
        }
        self.slots[a.index()]
    }

    /// Holds `v` for `a`, replacing any earlier value.
    pub fn set(&mut self, a: FirmwareAttribute, v: i32)
        requires
            old(self).wf(),
        ensures
            final(self).wf(),
            final(self)@ == old(self)@.insert(a, v),
    {
        proof {
            lemma_index_bijective();
        }
        let ghost before = self.slots@;
        self.slots.set(a.index(), Some(v));
        proof {
            assert forall|b: FirmwareAttribute| b.spec_index() == a.spec_index() implies b == a by {
                assert(FirmwareAttribute::spec_from_index(b.spec_index()) == b);
            }
        }
        assert(self@ =~= old(self)@.insert(a, v));
    }

    /// A second table holding the same values.
    pub fn duplicate(&self) -> (r: AttrTable)
        requires
            self.wf(),
        ensures
            r.wf(),
            r@ == self@,
    {
        let mut slots: Vec<Option<i32>> = Vec::new();
        let mut i: usize = 0;
        while i < ATTR_COUNT
            invariant
                self.wf(),
                i <= ATTR_COUNT,
                slots@ == self.slots@.take(i as int),
            decreases ATTR_COUNT - i,
        {
            slots.push(self.slots[i]);
            i = i + 1;
            assert(slots@ =~= self.slots@.take(i as int));
        }
        assert(slots@ =~= self.slots@);
        AttrTable { slots }
    }

    /// Whether both tables hold the same values.
    pub fn same_as(&self, other: &AttrTable) -> (r: bool)
        requires
            self.wf(),
            other.wf(),
        ensures
            r == (self@ == other@),
    {
        proof {
            lemma_index_bijective();
        }
        let mut i: usize = 0;
        while i < ATTR_COUNT
            invariant
                self.wf(),
                other.wf(),
                i <= ATTR_COUNT,
                forall|j: int| 0 <= j < i ==> self.slots@[j] == other.slots@[j],
            decreases ATTR_COUNT - i,
        {
            let same = match (self.slots[i], other.slots[i]) {
                (Some(x), Some(y)) => x == y,
                (None, None) => true,
                _ => false,
            };
            if !same {
                proof {
                    let a = FirmwareAttribute::spec_from_index(i as nat);
                    assert(a.spec_index() == i);
                    if self@ == other@ {
                        assert(self@.contains_key(a) == other@.contains_key(a));
                        if self@.contains_key(a) {
                            assert(self@[a] == other@[a]);
                        }
                        assert(self.slots@[i as int] == other.slots@[i as int]);
                    }
                }
                return false;
            }
            i = i + 1;
        }
        assert(self@ =~= other@);
        true
    }
}

/// What a [`PolicyStore`] holds, with its attribute tables as maps.
pub struct StoreModel {
    pub charge_control_end_threshold: u8,
    pub base_charge_control_end_threshold: u8,
    pub throttle_policy_on_ac: ThrottlePolicy,
    pub throttle_policy_on_battery: ThrottlePolicy,
    pub change_throttle_policy_on_ac: bool,
    pub change_throttle_policy_on_battery: bool,
    pub throttle_policy_linked_epp: bool,
    pub throttle_quiet_epp: CpuEpp,
    pub throttle_balanced_epp: CpuEpp,
    pub throttle_performance_epp: CpuEpp,
    pub last_power_plugged: bool,
    pub armoury_settings: Map<FirmwareAttribute, i32>,
    pub tunings_balanced: Map<FirmwareAttribute, i32>,
    pub tunings_performance: Map<FirmwareAttribute, i32>,
    pub tunings_quiet: Map<FirmwareAttribute, i32>,
}

/// A charge limit that the battery controller accepts.
pub open spec fn valid_charge_limit(v: u8) -> bool {
    20 <= v <= 100
}

impl StoreModel {
    /// The energy preference configured for policy `p`.
    pub open spec fn epp_for(self, p: ThrottlePolicy) -> CpuEpp {
        match p {
            ThrottlePolicy::Balanced => self.throttle_balanced_epp,
            ThrottlePolicy::Performance => self.throttle_performance_epp,
            ThrottlePolicy::Quiet => self.throttle_quiet_epp,
        }
    }

    /// The power-limit tunings kept for policy `p`.
    pub open spec fn tunings(self, p: ThrottlePolicy) -> Map<FirmwareAttribute, i32> {
        match p {
            ThrottlePolicy::Balanced => self.tunings_balanced,
            ThrottlePolicy::Performance => self.tunings_performance,
            ThrottlePolicy::Quiet => self.tunings_quiet,
        }
    }

    /// Whether a power-source change to `plugged` may change the throttle policy.
    pub open spec fn change_policy_on(self, plugged: bool) -> bool {
        if plugged {
            self.change_throttle_policy_on_ac
        } else {
            self.change_throttle_policy_on_battery
        }
    }

    /// The throttle policy configured for the power source `plugged`.
    pub open spec fn policy_on(self, plugged: bool) -> ThrottlePolicy {
        if plugged {
            self.throttle_policy_on_ac
        } else {
            self.throttle_policy_on_battery
        }
    }

    /// The invariant of the store.
    pub open spec fn valid(self) -> bool {
        &&& valid_charge_limit(self.charge_control_end_threshold)
        &&& (self.base_charge_control_end_threshold == 0 || valid_charge_limit(
            self.base_charge_control_end_threshold,
        ))
        &&& forall|a: FirmwareAttribute| #[trigger]
            self.armoury_settings.contains_key(a) ==> !a.spec_is_ppt()
        &&& forall|a: FirmwareAttribute| #[trigger]
            self.tunings_balanced.contains_key(a) ==> a.spec_is_ppt()
        &&& forall|a: FirmwareAttribute| #[trigger]
            self.tunings_performance.contains_key(a) ==> a.spec_is_ppt()
        &&& forall|a: FirmwareAttribute| #[trigger]
            self.tunings_quiet.contains_key(a) ==> a.spec_is_ppt()
    }

    /// The store that a fresh install starts from.
    pub open spec fn initial() -> StoreModel {
        StoreModel {
            charge_control_end_threshold: 100,
            base_charge_control_end_threshold: 0,
            throttle_policy_on_ac: ThrottlePolicy::Performance,
            throttle_policy_on_battery: ThrottlePolicy::Quiet,
            change_throttle_policy_on_ac: true,
            change_throttle_policy_on_battery: true,
            throttle_policy_linked_epp: true,
            throttle_quiet_epp: CpuEpp::Power,
            throttle_balanced_epp: CpuEpp::BalancePower,
            throttle_performance_epp: CpuEpp::Performance,
            last_power_plugged: false,
            armoury_settings: Map::empty(),
            tunings_balanced: Map::empty(),
            tunings_performance: Map::empty(),
            tunings_quiet: Map::empty(),
        }
    }
}

/// The user's hardware policy: the single record that the daemon persists.
#[derive(Debug)]
pub struct PolicyStore {
    pub charge_control_end_threshold: u8,
    /// The user's own limit while a one-shot full charge is in effect; 0 otherwise.
    pub base_charge_control_end_threshold: u8,
    pub throttle_policy_on_ac: ThrottlePolicy,
    pub throttle_policy_on_battery: ThrottlePolicy,
    pub change_throttle_policy_on_ac: bool,
    pub change_throttle_policy_on_battery: bool,
    pub throttle_policy_linked_epp: bool,
    pub throttle_quiet_epp: CpuEpp,
    pub throttle_balanced_epp: CpuEpp,
    pub throttle_performance_epp: CpuEpp,
    pub last_power_plugged: bool,
    /// Values of the attributes that are not power limits.
    pub armoury_settings: AttrTable,
    pub tunings_balanced: AttrTable,
    pub tunings_performance: AttrTable,
    pub tunings_quiet: AttrTable,
}

impl View for PolicyStore {
    type V = StoreModel;

    open spec fn view(&self) -> StoreModel {
        StoreModel {
            charge_control_end_threshold: self.charge_control_end_threshold,
            base_charge_control_end_threshold: self.base_charge_control_end_threshold,
            throttle_policy_on_ac: self.throttle_policy_on_ac,
            throttle_policy_on_battery: self.throttle_policy_on_battery,
            change_throttle_policy_on_ac: self.change_throttle_policy_on_ac,
            change_throttle_policy_on_battery: self.change_throttle_policy_on_battery,
            throttle_policy_linked_epp: self.throttle_policy_linked_epp,
            throttle_quiet_epp: self.throttle_quiet_epp,
            throttle_balanced_epp: self.throttle_balanced_epp,
            throttle_performance_epp: self.throttle_performance_epp,
            last_power_plugged: self.last_power_plugged,
            armoury_settings: self.armoury_settings@,
            tunings_balanced: self.tunings_balanced@,
            tunings_performance: self.tunings_performance@,
            tunings_quiet: self.tunings_quiet@,
        }
    }
}

impl PolicyStore {
    pub open spec fn wf(&self) -> bool {
        &&& self.armoury_settings.wf()
        &&& self.tunings_balanced.wf()
        &&& self.tunings_performance.wf()
        &&& self.tunings_quiet.wf()
        &&& self@.valid()
    }

    /// The store that a fresh install starts from.
    pub fn new() -> (r: PolicyStore)
        ensures
            r.wf(),
            r@ == StoreModel::initial(),
    {
        PolicyStore {
            charge_control_end_threshold: 100,
            base_charge_control_end_threshold: 0,
            throttle_policy_on_ac: ThrottlePolicy::Performance,
            throttle_policy_on_battery: ThrottlePolicy::Quiet,
            change_throttle_policy_on_ac: true,
            change_throttle_policy_on_battery: true,
            throttle_policy_linked_epp: true,
            throttle_quiet_epp: CpuEpp::Power,
            throttle_balanced_epp: CpuEpp::BalancePower,
            throttle_performance_epp: CpuEpp::Performance,
            last_power_plugged: false,
            armoury_settings: AttrTable::new(),
            tunings_balanced: AttrTable::new(),
            tunings_performance: AttrTable::new(),
            tunings_quiet: AttrTable::new(),
        }
    }

    /// A second store holding the same policy.
    pub fn duplicate(&self) -> (r: PolicyStore)
        requires
            self.wf(),
        ensures
            r.wf(),
            r@ == self@,
    {
        PolicyStore {
            charge_control_end_threshold: self.charge_control_end_threshold,
            base_charge_control_end_threshold: self.base_charge_control_end_threshold,
            throttle_policy_on_ac: self.throttle_policy_on_ac,
            throttle_policy_on_battery: self.throttle_policy_on_battery,
            change_throttle_policy_on_ac: self.change_throttle_policy_on_ac,
            change_throttle_policy_on_battery: self.change_throttle_policy_on_battery,
            throttle_policy_linked_epp: self.throttle_policy_linked_epp,
            throttle_quiet_epp: self.throttle_quiet_epp,
            throttle_balanced_epp: self.throttle_balanced_epp,
            throttle_performance_epp: self.throttle_performance_epp,
            last_power_plugged: self.last_power_plugged,
            armoury_settings: self.armoury_settings.duplicate(),
            tunings_balanced: self.tunings_balanced.duplicate(),
            tunings_performance: self.tunings_performance.duplicate(),
            tunings_quiet: self.tunings_quiet.duplicate(),
        }
    }

    /// Whether both stores hold the same policy.
    pub fn same_as(&self, other: &PolicyStore) -> (r: bool)
        requires
            self.wf(),
            other.wf(),
        ensures
            r == (self@ == other@),
    {
        self.charge_control_end_threshold == other.charge_control_end_threshold
            && self.base_charge_control_end_threshold == other.base_charge_control_end_threshold
            && self.throttle_policy_on_ac == other.throttle_policy_on_ac
            && self.throttle_policy_on_battery == other.throttle_policy_on_battery
            && self.change_throttle_policy_on_ac == other.change_throttle_policy_on_ac
            && self.change_throttle_policy_on_battery == other.change_throttle_policy_on_battery
            && self.throttle_policy_linked_epp == other.throttle_policy_linked_epp
            && self.throttle_quiet_epp == other.throttle_quiet_epp
            && self.throttle_balanced_epp == other.throttle_balanced_epp
            && self.throttle_performance_epp == other.throttle_performance_epp
            && self.last_power_plugged == other.last_power_plugged
            && self.armoury_settings.same_as(&other.armoury_settings)
            && self.tunings_balanced.same_as(&other.tunings_balanced)
            && self.tunings_performance.same_as(&other.tunings_performance)
            && self.tunings_quiet.same_as(&other.tunings_quiet)
    }

    /// The energy preference configured for policy `p`.
    pub fn epp_for(&self, p: ThrottlePolicy) -> (r: CpuEpp)
        ensures
            r == self@.epp_for(p),
    {
        match p {
            ThrottlePolicy::Balanced => self.throttle_balanced_epp,
            ThrottlePolicy::Performance => self.throttle_performance_epp,
            ThrottlePolicy::Quiet => self.throttle_quiet_epp,
        }
    }

    /// Keeps `v` as the tuning of power-limit attribute `a` under policy `p`.
    pub fn record_tuning(&mut self, p: ThrottlePolicy, a: FirmwareAttribute, v: i32)
        requires
            old(self).wf(),
            a.spec_is_ppt(),
        ensures
            final(self).wf(),
            final(self)@ == (match p {
                ThrottlePolicy::Balanced => StoreModel {
                    tunings_balanced: old(self)@.tunings_balanced.insert(a, v),
                    ..old(self)@
                },
                ThrottlePolicy::Performance => StoreModel {
                    tunings_performance: old(self)@.tunings_performance.insert(a, v),
                    ..old(self)@
                },
                ThrottlePolicy::Quiet => StoreModel {
                    tunings_quiet: old(self)@.tunings_quiet.insert(a, v),
                    ..old(self)@
                },
            }),
    {
        match p {
            ThrottlePolicy::Balanced => self.tunings_balanced.set(a, v),
            ThrottlePolicy::Performance => self.tunings_performance.set(a, v),
            ThrottlePolicy::Quiet => self.tunings_quiet.set(a, v),
        }
    }

    /// Keeps `v` as the setting of attribute `a`, which is no power limit.
    pub fn record_setting(&mut self, a: FirmwareAttribute, v: i32)
        requires
            old(self).wf(),
            !a.spec_is_ppt(),
        ensures
            final(self).wf(),
            final(self)@ == (StoreModel {
                armoury_settings: old(self)@.armoury_settings.insert(a, v),
                ..old(self)@
            }),
    {
        self.armoury_settings.set(a, v);
    }

    /// The power-limit tunings kept for policy `p`.
    pub fn tunings(&self, p: ThrottlePolicy) -> (r: &AttrTable)
        requires
            self.wf(),
        ensures
            r.wf(),
            r@ == self@.tunings(p),
    {
        match p {
            ThrottlePolicy::Balanced => &self.tunings_balanced,
            ThrottlePolicy::Performance => &self.tunings_performance,
            ThrottlePolicy::Quiet => &self.tunings_quiet,
        }
    }
}

} // verus!
