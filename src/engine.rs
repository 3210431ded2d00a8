//! The reconciliation engine: for every request and event it decides the
//! new policy store and the hardware writes to perform, in order.
//!
//! Requests that a client makes (setting a property) write hardware before
//! they change the store: the caller performs the planned write and reports
//! whether it succeeded. Background events (power source, suspend, reload,
//! an edited configuration file) commit their store change at once and hand
//! back writes whose failures are only logged.
use vstd::prelude::*;
use crate::attribute::AttributeDescriptor;
use crate::policy::{
    AttrTable, CpuEpp, FirmwareAttribute, PolicyStore, StoreModel, ThrottlePolicy,
    valid_charge_limit,
};

verus! {

/// One write to the platform, as the hardware layer performs it.
#[derive(Debug, Clone, Copy, PartialEq, Eq, Structural)]
pub enum HalOp {
    SetChargeLimit(u8),
    SetEpp(CpuEpp),
    SetThrottlePolicy(ThrottlePolicy),
    SetAttribute(FirmwareAttribute, i32),
    /// Run the command configured for the power source (`true`: on AC).
    RunPowerCommand(bool),
}

/// Why a request failed.
#[derive(Debug, Clone, Copy, PartialEq, Eq, Structural)]
pub enum PolicyError {
    /// The machine lacks the hardware capability.
    Unsupported,
    /// The value lies outside the property's domain.
    InvalidArgument,
    /// The hardware call failed although the capability is present.
    HardwareIo,
    /// The persisted store could not be read or written.
    ConfigIo,
    /// A persisted or external value is malformed.
    Parse,
}

/// Which platform controls this machine offers.
#[derive(Debug, Clone, Copy, PartialEq, Eq, Structural)]
pub struct Capabilities {
    pub charge_control_end_threshold: bool,
    pub throttle_thermal_policy: bool,
}

/// The platform properties that a machine may or may not control.
#[derive(Debug, Clone, Copy, PartialEq, Eq, Structural)]
pub enum Properties {
    ChargeControlEndThreshold,
    ThrottlePolicy,
}

/// How the hardware layer applies an energy preference.
#[derive(Debug, Clone, Copy, PartialEq, Eq, Structural)]
pub enum EppStep {
    /// The CPU offers the preference: write it.
    SetEpp(CpuEpp),
    /// The preference is not offered under the current governor: switch to
    /// the powersave governor first.
    SetPowersaveGovernor,
    /// Nothing can be done.
    Nothing,
}

/// The step for preference `epp` given the preferences the CPU offers.
pub open spec fn epp_step(epp: CpuEpp, available: Seq<CpuEpp>, powersave: bool) -> EppStep {
    if available.contains(epp) {
        EppStep::SetEpp(epp)
    } else if !powersave {
        EppStep::SetPowersaveGovernor
    } else {
        EppStep::Nothing
    }
}

/// Decides how to apply preference `epp`: `available` lists the
/// preferences the CPU offers and `governor_is_powersave` tells whether the
/// powersave governor is in use.
pub fn check_and_set_epp(epp: CpuEpp, available: &Vec<CpuEpp>, governor_is_powersave: bool) -> (r: EppStep)
    ensures
        r == epp_step(epp, available@, governor_is_powersave),
{
    let mut i: usize = 0;
    while i < available.len()
        invariant
            i <= available@.len(),
            forall|j: int| 0 <= j < i ==> available@[j] != epp,
        decreases available@.len() - i,
    {
        if available[i] == epp {
            return EppStep::SetEpp(epp);
        }
        i = i + 1;
    }
    if !governor_is_powersave {
        EppStep::SetPowersaveGovernor
    } else {
        EppStep::Nothing
    }
}

/// The properties that a machine with `caps` controls, in a fixed order.
pub open spec fn supported(caps: Capabilities) -> Seq<Properties> {
    (if caps.charge_control_end_threshold {
        seq![Properties::ChargeControlEndThreshold]
    } else {
        Seq::empty()
    }) + (if caps.throttle_thermal_policy {
        seq![Properties::ThrottlePolicy]
    } else {
        Seq::empty()
    })
}

/// The store with `e` as the energy preference of policy `p`.
pub open spec fn with_epp(m: StoreModel, p: ThrottlePolicy, e: CpuEpp) -> StoreModel {
    match p {
        ThrottlePolicy::Balanced => StoreModel { throttle_balanced_epp: e, ..m },
        ThrottlePolicy::Performance => StoreModel { throttle_performance_epp: e, ..m },
        ThrottlePolicy::Quiet => StoreModel { throttle_quiet_epp: e, ..m },
    }
}

/// Writes that move the platform to throttle policy `p`: the energy
/// preference first (when linked), then the policy itself.
pub open spec fn policy_ops(m: StoreModel, p: ThrottlePolicy) -> Seq<HalOp> {
    if m.throttle_policy_linked_epp {
        seq![HalOp::SetEpp(m.epp_for(p)), HalOp::SetThrottlePolicy(p)]
    } else {
        seq![HalOp::SetThrottlePolicy(p)]
    }
}

/// The writes that `f` asks for, attribute by attribute, in order.
pub open spec fn collect_ops<A>(attrs: Seq<A>, f: spec_fn(A) -> Option<HalOp>) -> Seq<HalOp>
    decreases attrs.len(),
{
    if attrs.len() == 0 {
        Seq::empty()
    } else {
        let rest = collect_ops(attrs.drop_last(), f);
        match f(attrs.last()) {
            Some(op) => rest.push(op),
            None => rest,
        }
    }
}

/// On a switch to a policy with tunings `t`: each power-limit attribute
/// takes its tuning, or else its default value.
pub open spec fn profile_switch_op(t: Map<FirmwareAttribute, i32>) -> spec_fn(AttributeDescriptor) -> Option<HalOp> {
    |d: AttributeDescriptor|
        if !d.name.spec_is_ppt() {
            None
        } else if t.contains_key(d.name) {
            Some(HalOp::SetAttribute(d.name, t[d.name]))
        } else {
            match d.default_value {
                Some(v) => Some(HalOp::SetAttribute(d.name, v)),
                None => None,
            }
        }
}

/// Writes the tuning held for `a`, if any.
pub open spec fn tuning_op(t: Map<FirmwareAttribute, i32>) -> spec_fn(FirmwareAttribute) -> Option<HalOp> {
    |a: FirmwareAttribute|
        if t.contains_key(a) {
            Some(HalOp::SetAttribute(a, t[a]))
        } else {
            None
        }
}

/// The charge-limit write that undoes a one-shot full charge.
pub open spec fn restore_ops(caps: Capabilities, m: StoreModel) -> Seq<HalOp> {
    if m.base_charge_control_end_threshold != 0 && caps.charge_control_end_threshold {
        seq![HalOp::SetChargeLimit(m.base_charge_control_end_threshold)]
    } else {
        Seq::empty()
    }
}

/// The store once a one-shot full charge has been undone.
pub open spec fn restored(m: StoreModel) -> StoreModel {
    if m.base_charge_control_end_threshold != 0 {
        StoreModel {
            charge_control_end_threshold: m.base_charge_control_end_threshold,
            base_charge_control_end_threshold: 0,
            ..m
        }
    } else {
        m
    }
}

/// The answer to a request to set the charge limit to `limit`.
pub open spec fn charge_limit_request(caps: Capabilities, limit: u8) -> Result<HalOp, PolicyError> {
    if !valid_charge_limit(limit) {
        Err(PolicyError::InvalidArgument)
    } else if !caps.charge_control_end_threshold {
        Err(PolicyError::Unsupported)
    } else {
        Ok(HalOp::SetChargeLimit(limit))
    }
}

/// The store once the charge limit `limit` has been written to hardware:
/// it is the user's own limit, and any one-shot full charge has ended.
pub open spec fn with_charge_limit(m: StoreModel, limit: u8) -> StoreModel {
    StoreModel { charge_control_end_threshold: limit, base_charge_control_end_threshold: 0, ..m }
}

/// The store after a one-shot full charge whose write succeeded.
pub open spec fn after_one_shot(m: StoreModel) -> StoreModel {
    if m.charge_control_end_threshold == 100 {
        m
    } else {
        StoreModel {
            charge_control_end_threshold: 100,
            base_charge_control_end_threshold: m.charge_control_end_threshold,
            ..m
        }
    }
}

/// Writes on a change of power source to `plugged` (nothing if it is no change).
pub open spec fn power_change_ops(caps: Capabilities, m: StoreModel, plugged: bool) -> Seq<HalOp> {
    if plugged == m.last_power_plugged {
        Seq::empty()
    } else {
        let policy = if caps.throttle_thermal_policy && m.change_policy_on(plugged) {
            policy_ops(m, m.policy_on(plugged))
        } else {
            Seq::empty()
        };
        let restore = if !plugged {
            restore_ops(caps, m)
        } else {
            Seq::empty()
        };
        policy.push(HalOp::RunPowerCommand(plugged)) + restore
    }
}

/// The store after a change of power source to `plugged`.
pub open spec fn after_power_change(m: StoreModel, plugged: bool) -> StoreModel {
    if plugged == m.last_power_plugged {
        m
    } else {
        let n = StoreModel { last_power_plugged: plugged, ..m };
        if !plugged {
            restored(n)
        } else {
            n
        }
    }
}

/// The throttle policy that `reload` leaves active, where known.
pub open spec fn reload_policy(
    caps: Capabilities,
    m: StoreModel,
    plugged: Option<bool>,
    active: Option<ThrottlePolicy>,
) -> Option<ThrottlePolicy> {
    match plugged {
        Some(p) => if caps.throttle_thermal_policy && m.change_policy_on(p) {
            Some(m.policy_on(p))
        } else {
            active
        },
        None => active,
    }
}

/// Writes that re-apply the whole store: charge limit, throttle policy,
/// then the tunings of the policy left active, then the power-source command.
pub open spec fn reload_ops(
    caps: Capabilities,
    m: StoreModel,
    plugged: Option<bool>,
    active: Option<ThrottlePolicy>,
    attrs: Seq<FirmwareAttribute>,
) -> Seq<HalOp> {
    let charge = if caps.charge_control_end_threshold {
        seq![HalOp::SetChargeLimit(m.charge_control_end_threshold)]
    } else {
        Seq::empty()
    };
    let policy = match plugged {
        Some(p) => if caps.throttle_thermal_policy && m.change_policy_on(p) {
            policy_ops(m, m.policy_on(p))
        } else {
            Seq::empty()
        },
        None => Seq::empty(),
    };
    let tunings = match reload_policy(caps, m, plugged, active) {
        Some(p) => collect_ops(attrs, tuning_op(m.tunings(p))),
        None => Seq::empty(),
    };
    let command = match plugged {
        Some(p) => seq![HalOp::RunPowerCommand(p)],
        None => Seq::empty(),
    };
    charge + policy + tunings + command
}

/// The store after `reload`: only the observed power source is recorded.
pub open spec fn after_reload(m: StoreModel, plugged: Option<bool>) -> StoreModel {
    match plugged {
        Some(p) => StoreModel { last_power_plugged: p, ..m },
        None => m,
    }
}

/// Writes for an attribute whose persisted value differs between `old` and `new`.
pub open spec fn attr_diff_op(
    old: StoreModel,
    new: StoreModel,
    active: Option<ThrottlePolicy>,
) -> spec_fn(FirmwareAttribute) -> Option<HalOp> {
    |a: FirmwareAttribute|
        if a.spec_is_ppt() {
            match active {
                Some(p) => if new.tunings(p).contains_key(a) && !(old.tunings(p).contains_key(a)
                    && old.tunings(p)[a] == new.tunings(p)[a]) {
                    Some(HalOp::SetAttribute(a, new.tunings(p)[a]))
                } else {
                    None
                },
                None => None,
            }
        } else if new.armoury_settings.contains_key(a) && !(old.armoury_settings.contains_key(a)
            && old.armoury_settings[a] == new.armoury_settings[a]) {
            Some(HalOp::SetAttribute(a, new.armoury_settings[a]))
        } else {
            None
        }
}

/// Writes that bring hardware in line with an externally edited store `new`,
/// for the fields that differ from `old` and that the machine supports.
pub open spec fn external_change_ops(
    caps: Capabilities,
    old: StoreModel,
    new: StoreModel,
    active: Option<ThrottlePolicy>,
    attrs: Seq<FirmwareAttribute>,
) -> Seq<HalOp> {
    if old == new {
        Seq::empty()
    } else {
        let charge = if caps.charge_control_end_threshold && old.charge_control_end_threshold
            != new.charge_control_end_threshold {
            seq![HalOp::SetChargeLimit(new.charge_control_end_threshold)]
        } else {
            Seq::empty()
        };
        let on_ac = if caps.throttle_thermal_policy && old.throttle_policy_on_ac
            != new.throttle_policy_on_ac {
            policy_ops(new, new.throttle_policy_on_ac)
        } else {
            Seq::empty()
        };
        let on_battery = if caps.throttle_thermal_policy && old.throttle_policy_on_battery
            != new.throttle_policy_on_battery {
            policy_ops(new, new.throttle_policy_on_battery)
        } else {
            Seq::empty()
        };
        let epp = match active {
            Some(p) => if new.throttle_policy_linked_epp && (!old.throttle_policy_linked_epp
                || old.epp_for(p) != new.epp_for(p)) {
                seq![HalOp::SetEpp(new.epp_for(p))]
            } else {
                Seq::empty()
            },
            None => Seq::empty(),
        };
        charge + on_ac + on_battery + epp + collect_ops(attrs, attr_diff_op(old, new, active))
    }
}

/// The platform controller: the policy store and the machine's capabilities.
pub struct CtrlPlatform {
    pub config: PolicyStore,
    pub caps: Capabilities,
}

impl CtrlPlatform {
    pub open spec fn wf(&self) -> bool {
        self.config.wf()
    }

    pub fn new(config: PolicyStore, caps: Capabilities) -> (r: CtrlPlatform)
        requires
            config.wf(),
        ensures
            r.wf(),
            r.config@ == config@,
            r.caps == caps,
    {
        CtrlPlatform { config, caps }
    }

    /// Reads the charge limit: the hardware's value where the machine has one.
    /// `read` is what the hardware reported (`None`: the read failed).
    pub fn charge_control_end_threshold(&self, read: Option<u8>) -> (r: Result<u8, PolicyError>)
        ensures
            r == (if !self.caps.charge_control_end_threshold {
                Err(PolicyError::Unsupported)
            } else {
                match read {
                    Some(v) => Ok(v),
                    None => Err(PolicyError::HardwareIo),
                }
            }),
    {
        if !self.caps.charge_control_end_threshold {
            return Err(PolicyError::Unsupported);
        }
        match read {
            Some(v) => Ok(v),
            None => Err(PolicyError::HardwareIo),
        }
    }

    /// Checks a request to set the charge limit and gives the write it needs.
    pub fn plan_charge_control_end_threshold(&self, limit: u8) -> (r: Result<HalOp, PolicyError>)
        ensures
            r == charge_limit_request(self.caps, limit),
    {
        if limit < 20 || limit > 100 {
            Err(PolicyError::InvalidArgument)
        } else if !self.caps.charge_control_end_threshold {
            Err(PolicyError::Unsupported)
        } else {
            Ok(HalOp::SetChargeLimit(limit))
        }
    }

    /// Records the charge limit `limit` once its write has been attempted;
    /// `written` tells whether the hardware accepted it.
    pub fn set_charge_control_end_threshold(&mut self, limit: u8, written: bool) -> (r: Result<
        (),
        PolicyError,
    >)
        requires
            old(self).wf(),
            charge_limit_request(old(self).caps, limit) is Ok,
        ensures
            final(self).wf(),
            final(self).caps == old(self).caps,
            written ==> r is Ok && final(self).config@ == with_charge_limit(old(self).config@, limit),
            !written ==> r == Err::<(), PolicyError>(PolicyError::HardwareIo) && final(self).config@
                == old(self).config@,
    {
        if !written {
            return Err(PolicyError::HardwareIo);
        }
        self.config.charge_control_end_threshold = limit;
        self.config.base_charge_control_end_threshold = 0;
        Ok(())
    }

    /// Reads the throttle policy from what the hardware reported.
    pub fn throttle_thermal_policy(&self, read: Option<ThrottlePolicy>) -> (r: Result<
        ThrottlePolicy,
        PolicyError,
    >)
        ensures
            r == (if !self.caps.throttle_thermal_policy {
                Err(PolicyError::Unsupported)
            } else {
                match read {
                    Some(v) => Ok(v),
                    None => Err(PolicyError::HardwareIo),
                }
            }),
    {
        if !self.caps.throttle_thermal_policy {
            return Err(PolicyError::Unsupported);
        }
        match read {
            Some(v) => Ok(v),
            None => Err(PolicyError::HardwareIo),
        }
    }

    /// The writes that switch the platform to `policy`.
    pub fn set_throttle_thermal_policy(&self, policy: ThrottlePolicy) -> (r: Result<
        Vec<HalOp>,
        PolicyError,
    >)
        ensures
            !self.caps.throttle_thermal_policy ==> r == Err::<Vec<HalOp>, PolicyError>(
                PolicyError::Unsupported,
            ),
            self.caps.throttle_thermal_policy ==> r is Ok && r->Ok_0@ == policy_ops(
                self.config@,
                policy,
            ),
    {
        if !self.caps.throttle_thermal_policy {
            return Err(PolicyError::Unsupported);
        }
        let mut ops: Vec<HalOp> = Vec::new();
        self.push_policy_ops(policy, &mut ops);
        assert(ops@ =~= policy_ops(self.config@, policy));
        Ok(ops)
    }

    /// The writes that advance the platform from `current` (as read from
    /// hardware) to the next policy of the cycle.
    pub fn next_throttle_thermal_policy(&self, current: Option<ThrottlePolicy>) -> (r: Result<
        Vec<HalOp>,
        PolicyError,
    >)
        ensures
            !self.caps.throttle_thermal_policy ==> r == Err::<Vec<HalOp>, PolicyError>(
                PolicyError::Unsupported,
            ),
            self.caps.throttle_thermal_policy && current is None ==> r == Err::<
                Vec<HalOp>,
                PolicyError,
            >(PolicyError::HardwareIo),
            self.caps.throttle_thermal_policy && current is Some ==> r is Ok && r->Ok_0@
                == policy_ops(self.config@, current->Some_0.spec_next()),
    {
        if !self.caps.throttle_thermal_policy {
            return Err(PolicyError::Unsupported);
        }
        match current {
            Some(c) => self.set_throttle_thermal_policy(c.next()),
            None => Err(PolicyError::HardwareIo),
        }
    }

    /// Records the policy for the power source `plugged` once the writes of
    /// `set_throttle_thermal_policy(policy)` have been attempted; `written`
    /// tells whether the policy write succeeded.
    pub fn set_throttle_policy_on(&mut self, plugged: bool, policy: ThrottlePolicy, written: bool) -> (r:
        Result<(), PolicyError>)
        requires
            old(self).wf(),
        ensures
            final(self).wf(),
            final(self).caps == old(self).caps,
            !old(self).caps.throttle_thermal_policy ==> r == Err::<(), PolicyError>(
                PolicyError::Unsupported,
            ) && final(self).config@ == old(self).config@,
            old(self).caps.throttle_thermal_policy && !written ==> r == Err::<(), PolicyError>(
                PolicyError::HardwareIo,
            ) && final(self).config@ == old(self).config@,
            old(self).caps.throttle_thermal_policy && written ==> r is Ok && final(self).config@
                == (if plugged {
                StoreModel { throttle_policy_on_ac: policy, ..old(self).config@ }
            } else {
                StoreModel { throttle_policy_on_battery: policy, ..old(self).config@ }
            }),
    {
        if !self.caps.throttle_thermal_policy {
            return Err(PolicyError::Unsupported);
        }
        if !written {
            return Err(PolicyError::HardwareIo);
        }
        if plugged {
            self.config.throttle_policy_on_ac = policy;
        } else {
            self.config.throttle_policy_on_battery = policy;
        }
        Ok(())
    }

    /// Records the policy to use on AC power; see [`Self::set_throttle_policy_on`].
    pub fn set_throttle_policy_on_ac(&mut self, policy: ThrottlePolicy, written: bool) -> (r: Result<
        (),
        PolicyError,
    >)
        requires
            old(self).wf(),
        ensures
            final(self).wf(),
            final(self).caps == old(self).caps,
            r is Ok <==> old(self).caps.throttle_thermal_policy && written,
            r is Ok ==> final(self).config@ == (StoreModel {
                throttle_policy_on_ac: policy,
                ..old(self).config@
            }),
            r is Err ==> final(self).config@ == old(self).config@,
    {
        self.set_throttle_policy_on(true, policy, written)
    }

    /// Records the policy to use on battery; see [`Self::set_throttle_policy_on`].
    pub fn set_throttle_policy_on_battery(&mut self, policy: ThrottlePolicy, written: bool) -> (r:
        Result<(), PolicyError>)
        requires
            old(self).wf(),
        ensures
            final(self).wf(),
            final(self).caps == old(self).caps,
            r is Ok <==> old(self).caps.throttle_thermal_policy && written,
            r is Ok ==> final(self).config@ == (StoreModel {
                throttle_policy_on_battery: policy,
                ..old(self).config@
            }),
            r is Err ==> final(self).config@ == old(self).config@,
    {
        self.set_throttle_policy_on(false, policy, written)
    }

    pub fn set_throttle_policy_linked_epp(&mut self, linked: bool)
        requires
            old(self).wf(),
        ensures
            final(self).wf(),
            final(self).caps == old(self).caps,
            final(self).config@ == (StoreModel {
                throttle_policy_linked_epp: linked,
                ..old(self).config@
            }),
    {
        self.config.throttle_policy_linked_epp = linked;
    }

    pub fn set_change_throttle_policy_on_ac(&mut self, change: bool)
        requires
            old(self).wf(),
        ensures
            final(self).wf(),
            final(self).caps == old(self).caps,
            final(self).config@ == (StoreModel {
                change_throttle_policy_on_ac: change,
                ..old(self).config@
            }),
    {
        self.config.change_throttle_policy_on_ac = change;
    }

    pub fn set_change_throttle_policy_on_battery(&mut self, change: bool)
        requires
            old(self).wf(),
        ensures
            final(self).wf(),
            final(self).caps == old(self).caps,
            final(self).config@ == (StoreModel {
                change_throttle_policy_on_battery: change,
                ..old(self).config@
            }),
    {
        self.config.change_throttle_policy_on_battery = change;
    }

    /// Sets the energy preference of `policy`. Where EPP follows the throttle
    /// policy and `policy` is the one `active` on the hardware, the new
    /// preference is also written.
    pub fn set_epp_for(&mut self, policy: ThrottlePolicy, epp: CpuEpp, active: Option<ThrottlePolicy>) -> (ops: Vec<HalOp>)
        requires
            old(self).wf(),
        ensures
            final(self).wf(),
            final(self).caps == old(self).caps,
            final(self).config@ == with_epp(old(self).config@, policy, epp),
            ops@ == (if old(self).config.throttle_policy_linked_epp && active == Some(policy) {
                seq![HalOp::SetEpp(epp)]
            } else {
                Seq::empty()
            }),
    {
        match policy {
            ThrottlePolicy::Balanced => self.config.throttle_balanced_epp = epp,
            ThrottlePolicy::Performance => self.config.throttle_performance_epp = epp,
            ThrottlePolicy::Quiet => self.config.throttle_quiet_epp = epp,
        }
        let mut ops: Vec<HalOp> = Vec::new();
        let is_active = match active {
            Some(a) => a == policy,
            None => false,
        };
        if self.config.throttle_policy_linked_epp && is_active {
            ops.push(HalOp::SetEpp(epp));
        }
        assert(ops@ =~= (if old(self).config.throttle_policy_linked_epp && active == Some(policy) {
            seq![HalOp::SetEpp(epp)]
        } else {
            Seq::empty()
        }));
        ops
    }

    /// Sets the energy preference of the quiet policy; see [`Self::set_epp_for`].
    pub fn set_throttle_quiet_epp(&mut self, epp: CpuEpp, active: Option<ThrottlePolicy>) -> (ops: Vec<HalOp>)
        requires
            old(self).wf(),
        ensures
            final(self).wf(),
            final(self).caps == old(self).caps,
            final(self).config@ == with_epp(old(self).config@, ThrottlePolicy::Quiet, epp),
            ops@ == (if old(self).config.throttle_policy_linked_epp && active == Some(ThrottlePolicy::Quiet) {
                seq![HalOp::SetEpp(epp)]
            } else {
                Seq::empty()
            }),
    {
        self.set_epp_for(ThrottlePolicy::Quiet, epp, active)
    }

    /// Sets the energy preference of the balanced policy; see [`Self::set_epp_for`].
    pub fn set_throttle_balanced_epp(&mut self, epp: CpuEpp, active: Option<ThrottlePolicy>) -> (ops: Vec<HalOp>)
        requires
            old(self).wf(),
        ensures
            final(self).wf(),
            final(self).caps == old(self).caps,
            final(self).config@ == with_epp(old(self).config@, ThrottlePolicy::Balanced, epp),
            ops@ == (if old(self).config.throttle_policy_linked_epp && active == Some(ThrottlePolicy::Balanced) {
                seq![HalOp::SetEpp(epp)]
            } else {
                Seq::empty()
            }),
    {
        self.set_epp_for(ThrottlePolicy::Balanced, epp, active)
    }

    /// Sets the energy preference of the performance policy; see [`Self::set_epp_for`].
    pub fn set_throttle_performance_epp(&mut self, epp: CpuEpp, active: Option<ThrottlePolicy>) -> (ops: Vec<HalOp>)
        requires
            old(self).wf(),
        ensures
            final(self).wf(),
            final(self).caps == old(self).caps,
            final(self).config@ == with_epp(old(self).config@, ThrottlePolicy::Performance, epp),
            ops@ == (if old(self).config.throttle_policy_linked_epp && active == Some(ThrottlePolicy::Performance) {
                seq![HalOp::SetEpp(epp)]
            } else {
                Seq::empty()
            }),
    {
        self.set_epp_for(ThrottlePolicy::Performance, epp, active)
    }

    /// The properties that this machine controls.
    pub fn supported_properties(&self) -> (r: Vec<Properties>)
        ensures
            r@ == supported(self.caps),
    {
        let mut r: Vec<Properties> = Vec::new();
        if self.caps.charge_control_end_threshold {
            r.push(Properties::ChargeControlEndThreshold);
        }
        if self.caps.throttle_thermal_policy {
            r.push(Properties::ThrottlePolicy);
        }
        assert(r@ =~= supported(self.caps));
        r
    }

    /// Checks a request for a one-shot full charge and gives the write it
    /// needs (`None` when the limit is already 100).
    pub fn plan_one_shot_full_charge(&self) -> (r: Result<Option<HalOp>, PolicyError>)
        ensures
            r == (if !self.caps.charge_control_end_threshold {
                Err(PolicyError::Unsupported)
            } else if self.config.charge_control_end_threshold == 100 {
                Ok(None)
            } else {
                Ok(Some(HalOp::SetChargeLimit(100)))
            }),
    {
        if !self.caps.charge_control_end_threshold {
            Err(PolicyError::Unsupported)
        } else if self.config.charge_control_end_threshold == 100 {
            Ok(None)
        } else {
            Ok(Some(HalOp::SetChargeLimit(100)))
        }
    }

    /// Records a one-shot full charge once its write has been attempted: the
    /// current limit is remembered and the limit becomes 100.
    pub fn one_shot_full_charge(&mut self, written: bool) -> (r: Result<(), PolicyError>)
        requires
            old(self).wf(),
            old(self).caps.charge_control_end_threshold,
        ensures
            final(self).wf(),
            final(self).caps == old(self).caps,
            old(self).config.charge_control_end_threshold == 100 ==> r is Ok && final(self).config@
                == old(self).config@,
            old(self).config.charge_control_end_threshold != 100 && !written ==> r == Err::<
                (),
                PolicyError,
            >(PolicyError::HardwareIo) && final(self).config@ == old(self).config@,
            old(self).config.charge_control_end_threshold != 100 && written ==> r is Ok
                && final(self).config@ == after_one_shot(old(self).config@),
    {
        if self.config.charge_control_end_threshold == 100 {
            return Ok(());
        }
        if !written {
            return Err(PolicyError::HardwareIo);
        }
        self.config.base_charge_control_end_threshold = self.config.charge_control_end_threshold;
        self.config.charge_control_end_threshold = 100;
        Ok(())
    }

    /// Undoes a one-shot full charge in the store and gives the write for it.
    fn restore_charge_limit(&mut self, ops: &mut Vec<HalOp>)
        requires
            old(self).wf(),
        ensures
            final(self).wf(),
            final(self).caps == old(self).caps,
            final(self).config@ == restored(old(self).config@),
            final(ops)@ == old(ops)@ + restore_ops(old(self).caps, old(self).config@),
    {
        let base = self.config.base_charge_control_end_threshold;
        if base != 0 {
            if self.caps.charge_control_end_threshold {
                ops.push(HalOp::SetChargeLimit(base));
            }
            self.config.charge_control_end_threshold = base;
            self.config.base_charge_control_end_threshold = 0;
        }
        assert(final(ops)@ =~= old(ops)@ + restore_ops(old(self).caps, old(self).config@));
    }

    /// Reacts to the power source becoming `plugged` (`true`: on AC).
    pub fn on_power_source_changed(&mut self, plugged: bool) -> (ops: Vec<HalOp>)
        requires
            old(self).wf(),
        ensures
            final(self).wf(),
            final(self).caps == old(self).caps,
            final(self).config@ == after_power_change(old(self).config@, plugged),
            ops@ == power_change_ops(old(self).caps, old(self).config@, plugged),
    {
        let mut ops: Vec<HalOp> = Vec::new();
        if plugged == self.config.last_power_plugged {
            return ops;
        }
        let change = if plugged {
            self.config.change_throttle_policy_on_ac
        } else {
            self.config.change_throttle_policy_on_battery
        };
        if self.caps.throttle_thermal_policy && change {
            let policy = if plugged {
                self.config.throttle_policy_on_ac
            } else {
                self.config.throttle_policy_on_battery
            };
            self.push_policy_ops(policy, &mut ops);
        }
        ops.push(HalOp::RunPowerCommand(plugged));
        self.config.last_power_plugged = plugged;
        if !plugged {
            self.restore_charge_limit(&mut ops);
        }
        assert(ops@ =~= power_change_ops(old(self).caps, old(self).config@, plugged));
        ops
    }

    /// Reacts to the machine entering (`true`) or leaving suspend: on
    /// leaving, the charge limit is written again.
    pub fn on_suspend(&self, entering: bool) -> (ops: Vec<HalOp>)
        ensures
            ops@ == (if !entering && self.caps.charge_control_end_threshold {
                seq![HalOp::SetChargeLimit(self.config.charge_control_end_threshold)]
            } else {
                Seq::empty()
            }),
    {
        let mut ops: Vec<HalOp> = Vec::new();
        if !entering && self.caps.charge_control_end_threshold {
            ops.push(HalOp::SetChargeLimit(self.config.charge_control_end_threshold));
        }
        assert(ops@ =~= (if !entering && self.caps.charge_control_end_threshold {
            seq![HalOp::SetChargeLimit(self.config.charge_control_end_threshold)]
        } else {
            Seq::empty()
        }));
        ops
    }

    /// Before the process exits: ends any one-shot full charge so that the
    /// next boot starts from the user's own limit.
    pub fn on_shutdown(&mut self) -> (ops: Vec<HalOp>)
        requires
            old(self).wf(),
        ensures
            final(self).wf(),
            final(self).caps == old(self).caps,
            final(self).config@ == restored(old(self).config@),
            ops@ == restore_ops(old(self).caps, old(self).config@),
    {
        let mut ops: Vec<HalOp> = Vec::new();
        self.restore_charge_limit(&mut ops);
        assert(ops@ =~= restore_ops(old(self).caps, old(self).config@));
        ops
    }

    /// Re-applies the whole store to hardware, at startup and after resume.
    /// `plugged` is the power source read from hardware, `active` the
    /// throttle policy read from hardware, and `attrs` the attributes that
    /// the machine exposes (`None`: the read failed).
    #[verifier::rlimit(40)]
    pub fn reload(
        &mut self,
        plugged: Option<bool>,
        active: Option<ThrottlePolicy>,
        attrs: &Vec<FirmwareAttribute>,
    ) -> (ops: Vec<HalOp>)
        requires
            old(self).wf(),
        ensures
            final(self).wf(),
            final(self).caps == old(self).caps,
            final(self).config@ == after_reload(old(self).config@, plugged),
            ops@ == reload_ops(old(self).caps, old(self).config@, plugged, active, attrs@),
    {
        let ghost m = self.config@;
        let mut ops: Vec<HalOp> = Vec::new();
        if self.caps.charge_control_end_threshold {
            ops.push(HalOp::SetChargeLimit(self.config.charge_control_end_threshold));
        }
        let mut now_active = active;
        match plugged {
            Some(p) => {
                let change = if p {
                    self.config.change_throttle_policy_on_ac
                } else {
                    self.config.change_throttle_policy_on_battery
                };
                if self.caps.throttle_thermal_policy && change {
                    let policy = if p {
                        self.config.throttle_policy_on_ac
                    } else {
                        self.config.throttle_policy_on_battery
                    };
                    self.push_policy_ops(policy, &mut ops);
                    now_active = Some(policy);
                }
            },
            None => {},
        }
        assert(now_active == reload_policy(self.caps, m, plugged, active));
        match now_active {
            Some(p) => push_tuning_ops(self.config.tunings(p), attrs, &mut ops),
            None => {},
        }
        match plugged {
            Some(p) => {
                ops.push(HalOp::RunPowerCommand(p));
                self.config.last_power_plugged = p;
            },
            None => {},
        }
        assert(ops@ =~= reload_ops(old(self).caps, m, plugged, active, attrs@));
        ops
    }

    /// Reacts to the hardware's throttle policy having changed to `policy`
    /// (by a request or by the firmware): the linked energy preference, then
    /// the power-limit tunings of that policy for the attributes `attrs`.
    pub fn on_throttle_policy_changed(&self, policy: ThrottlePolicy, attrs: &Vec<AttributeDescriptor>) -> (ops: Vec<HalOp>)
        requires
            self.wf(),
        ensures
            ops@ == (if self.config.throttle_policy_linked_epp {
                seq![HalOp::SetEpp(self.config@.epp_for(policy))]
            } else {
                Seq::empty()
            }) + collect_ops(attrs@, profile_switch_op(self.config@.tunings(policy))),
    {
        let mut ops: Vec<HalOp> = Vec::new();
        if self.config.throttle_policy_linked_epp {
            ops.push(HalOp::SetEpp(self.config.epp_for(policy)));
        }
        let ghost start = ops@;
        let t = self.config.tunings(policy);
        let ghost f = profile_switch_op(t@);
        let mut i: usize = 0;
        while i < attrs.len()
            invariant
                t.wf(),
                f == profile_switch_op(t@),
                i <= attrs@.len(),
                ops@ == start + collect_ops(attrs@.take(i as int), f),
            decreases attrs@.len() - i,
        {
            let d = &attrs[i];
            assert(attrs@.take(i + 1).drop_last() =~= attrs@.take(i as int));
            if d.name.is_ppt() {
                match t.get(d.name) {
                    Some(v) => ops.push(HalOp::SetAttribute(d.name, v)),
                    None => match d.default_value {
                        Some(v) => ops.push(HalOp::SetAttribute(d.name, v)),
                        None => {},
                    },
                }
            }
            i = i + 1;
            assert(ops@ =~= start + collect_ops(attrs@.take(i as int), f));
        }
        assert(attrs@.take(attrs@.len() as int) =~= attrs@);
        ops
    }

    /// Takes in a store that was edited outside the daemon. Fields that
    /// differ and that the machine supports are written to hardware as a
    /// request would write them; then `candidate` becomes the store.
    /// `active` is the throttle policy read from hardware and `attrs` the
    /// attributes the machine exposes.
    pub fn on_external_config_changed(
        &mut self,
        candidate: PolicyStore,
        active: Option<ThrottlePolicy>,
        attrs: &Vec<FirmwareAttribute>,
    ) -> (ops: Vec<HalOp>)
        requires
            old(self).wf(),
            candidate.wf(),
        ensures
            final(self).wf(),
            final(self).caps == old(self).caps,
            final(self).config@ == candidate@,
            ops@ == external_change_ops(old(self).caps, old(self).config@, candidate@, active, attrs@),
    {
        let mut ops: Vec<HalOp> = Vec::new();
        if self.config.same_as(&candidate) {
            assert(ops@ =~= external_change_ops(self.caps, self.config@, candidate@, active, attrs@));
            self.config = candidate;
            return ops;
        }
        let caps = self.caps;
        let old_cfg = &self.config;
        let new_cfg = &candidate;
        if caps.charge_control_end_threshold && old_cfg.charge_control_end_threshold
            != new_cfg.charge_control_end_threshold {
            ops.push(HalOp::SetChargeLimit(new_cfg.charge_control_end_threshold));
        }
        let next = CtrlPlatform { config: candidate, caps };
        if caps.throttle_thermal_policy && self.config.throttle_policy_on_ac
            != next.config.throttle_policy_on_ac {
            next.push_policy_ops(next.config.throttle_policy_on_ac, &mut ops);
        }
        if caps.throttle_thermal_policy && self.config.throttle_policy_on_battery
            != next.config.throttle_policy_on_battery {
            next.push_policy_ops(next.config.throttle_policy_on_battery, &mut ops);
        }
        match active {
            Some(p) => {
                if next.config.throttle_policy_linked_epp && (!self.config.throttle_policy_linked_epp
                    || self.config.epp_for(p) != next.config.epp_for(p)) {
                    ops.push(HalOp::SetEpp(next.config.epp_for(p)));
                }
            },
            None => {},
        }
        push_attr_diff_ops(&self.config, &next.config, active, attrs, &mut ops);
        assert(ops@ =~= external_change_ops(old(self).caps, old(self).config@, next.config@, active, attrs@));
        self.config = next.config;
        ops
    }

    /// Appends the writes that move the platform to policy `p`.
    fn push_policy_ops(&self, p: ThrottlePolicy, ops: &mut Vec<HalOp>)
        ensures
            final(ops)@ == old(ops)@ + policy_ops(self.config@, p),
    {
        if self.config.throttle_policy_linked_epp {
            ops.push(HalOp::SetEpp(self.config.epp_for(p)));
        }
        ops.push(HalOp::SetThrottlePolicy(p));
        assert(final(ops)@ =~= old(ops)@ + policy_ops(self.config@, p));
    }
}

/// The write for attribute `a` when the store changes from `old_cfg` to `new_cfg`.
fn attr_diff(old_cfg: &PolicyStore, new_cfg: &PolicyStore, active: Option<ThrottlePolicy>, a: FirmwareAttribute) -> (r: Option<HalOp>)
    requires
        old_cfg.wf(),
        new_cfg.wf(),
    ensures
        r == (attr_diff_op(old_cfg@, new_cfg@, active))(a),
{
    let (new_v, old_v) = if a.is_ppt() {
        match active {
            Some(p) => (new_cfg.tunings(p).get(a), old_cfg.tunings(p).get(a)),
            None => (None, None),
        }
    } else {
        (new_cfg.armoury_settings.get(a), old_cfg.armoury_settings.get(a))
    };
    match new_v {
        Some(v) => {
            let same = match old_v {
                Some(w) => w == v,
                None => false,
            };
            if same {
                None
            } else {
                Some(HalOp::SetAttribute(a, v))
            }
        },
        None => None,
    }
}

/// Appends the writes for the attributes of `attrs` whose values differ.
fn push_attr_diff_ops(
    old_cfg: &PolicyStore,
    new_cfg: &PolicyStore,
    active: Option<ThrottlePolicy>,
    attrs: &Vec<FirmwareAttribute>,
    ops: &mut Vec<HalOp>,
)
    requires
        old_cfg.wf(),
        new_cfg.wf(),
    ensures
        final(ops)@ == old(ops)@ + collect_ops(attrs@, attr_diff_op(old_cfg@, new_cfg@, active)),
{
    let ghost start = ops@;
    let ghost f = attr_diff_op(old_cfg@, new_cfg@, active);
    let mut i: usize = 0;
    while i < attrs.len()
        invariant
            old_cfg.wf(),
            new_cfg.wf(),
            f == attr_diff_op(old_cfg@, new_cfg@, active),
            i <= attrs@.len(),
            ops@ == start + collect_ops(attrs@.take(i as int), f),
        decreases attrs@.len() - i,
    {
        let a = attrs[i];
        assert(attrs@.take(i + 1).drop_last() =~= attrs@.take(i as int));
        match attr_diff(old_cfg, new_cfg, active, a) {
            Some(op) => ops.push(op),
            None => {},
        }
        i = i + 1;
        assert(ops@ =~= start + collect_ops(attrs@.take(i as int), f));
    }
    assert(attrs@.take(attrs@.len() as int) =~= attrs@);
}

/// Appends the tuning writes of `t` for each attribute of `attrs`.
fn push_tuning_ops(t: &AttrTable, attrs: &Vec<FirmwareAttribute>, ops: &mut Vec<HalOp>)
    requires
        t.wf(),
    ensures
        final(ops)@ == old(ops)@ + collect_ops(attrs@, tuning_op(t@)),
{
    let ghost start = ops@;
    let mut i: usize = 0;
    while i < attrs.len()
        invariant
            t.wf(),
            i <= attrs@.len(),
            ops@ == start + collect_ops(attrs@.take(i as int), tuning_op(t@)),
        decreases attrs@.len() - i,
    {
        let a = attrs[i];
        assert(attrs@.take(i + 1).drop_last() =~= attrs@.take(i as int));
        match t.get(a) {
            Some(v) => {
                ops.push(HalOp::SetAttribute(a, v));
            },
            None => {},
        }
        i = i + 1;
        assert(ops@ =~= start + collect_ops(attrs@.take(i as int), tuning_op(t@)));
    }
    assert(attrs@.take(attrs@.len() as int) =~= attrs@);
}

} // verus!
