//! Properties of the engine as a whole, over a model of the hardware that
//! the planned writes act on.
use vstd::prelude::*;
use crate::attribute::with_attribute;
use crate::engine::{
    after_one_shot, after_power_change, after_reload, attr_diff_op, charge_limit_request,
    collect_ops, external_change_ops, policy_ops, power_change_ops, reload_ops, restore_ops,
    restored, tuning_op,
    with_charge_limit, Capabilities, HalOp, PolicyError,
};
use crate::policy::{CpuEpp, FirmwareAttribute, StoreModel, ThrottlePolicy, valid_charge_limit};

verus! {

/// The hardware state that the platform writes act on.
pub struct HardwareModel {
    pub charge_limit: u8,
    pub throttle: ThrottlePolicy,
    pub epp: CpuEpp,
    pub attributes: Map<FirmwareAttribute, i32>,
}

/// The hardware after one write.
pub open spec fn apply_op(h: HardwareModel, op: HalOp) -> HardwareModel {
    match op {
        HalOp::SetChargeLimit(v) => HardwareModel { charge_limit: v, ..h },
        HalOp::SetEpp(e) => HardwareModel { epp: e, ..h },
        HalOp::SetThrottlePolicy(p) => HardwareModel { throttle: p, ..h },
        HalOp::SetAttribute(a, v) => HardwareModel { attributes: h.attributes.insert(a, v), ..h },
        HalOp::RunPowerCommand(_) => h,
    }
}

/// The hardware after a list of writes, performed in order.
pub open spec fn apply_ops(h: HardwareModel, ops: Seq<HalOp>) -> HardwareModel
    decreases ops.len(),
{
    if ops.len() == 0 {
        h
    } else {
        apply_op(apply_ops(h, ops.drop_last()), ops.last())
    }
}

/// Performing `a` then `b` is performing `a + b`.
pub proof fn lemma_apply_concat(h: HardwareModel, a: Seq<HalOp>, b: Seq<HalOp>)
    ensures
        apply_ops(h, a + b) == apply_ops(apply_ops(h, a), b),
    decreases b.len(),
{
    if b.len() == 0 {
        assert(a + b =~= a);
    } else {
        assert((a + b).drop_last() =~= a + b.drop_last());
        lemma_apply_concat(h, a, b.drop_last());
    }
}

/// A charge limit request: a valid limit is written, and the hardware then
/// reports it; any other limit is refused as invalid and nothing is written.
pub proof fn law_charge_limit_round_trip(caps: Capabilities, h: HardwareModel, v: u8)
    requires
        caps.charge_control_end_threshold,
    ensures
        valid_charge_limit(v) ==> charge_limit_request(caps, v) == Ok::<HalOp, PolicyError>(
            HalOp::SetChargeLimit(v),
        ) && apply_op(h, HalOp::SetChargeLimit(v)).charge_limit == v,
        !valid_charge_limit(v) ==> charge_limit_request(caps, v) == Err::<HalOp, PolicyError>(
            PolicyError::InvalidArgument,
        ),
{
}

/// The throttle policy the hardware holds after a request for the next one,
/// starting from `h`.
pub open spec fn after_next_policy(m: StoreModel, h: HardwareModel) -> HardwareModel {
    apply_ops(h, policy_ops(m, h.throttle.spec_next()))
}

/// Requests for the next policy step through `Balanced -> Performance ->
/// Quiet -> Balanced`, and three of them come back to the start.
pub proof fn law_next_policy_cycles(m: StoreModel, h: HardwareModel)
    ensures
        after_next_policy(m, h).throttle == h.throttle.spec_next(),
        after_next_policy(m, after_next_policy(m, after_next_policy(m, h))).throttle
            == h.throttle,
        ThrottlePolicy::Balanced.spec_next() == ThrottlePolicy::Performance,
        ThrottlePolicy::Performance.spec_next() == ThrottlePolicy::Quiet,
        ThrottlePolicy::Quiet.spec_next() == ThrottlePolicy::Balanced,
{
    assert forall|g: HardwareModel| #[trigger] after_next_policy(m, g).throttle
        == g.throttle.spec_next() by {
        let ops = policy_ops(m, g.throttle.spec_next());
        assert(ops.drop_last().drop_last().len() == 0 || ops.drop_last().len() == 0);
        if m.throttle_policy_linked_epp {
            assert(ops.drop_last().drop_last().len() == 0);
        } else {
            assert(ops.drop_last().len() == 0);
        }
    }
    let h1 = after_next_policy(m, h);
    let h2 = after_next_policy(m, h1);
    assert(after_next_policy(m, h2).throttle == h2.throttle.spec_next());
}

/// A one-shot full charge followed by unplugging brings back the limit that
/// was in effect before the one-shot, in the store and on the hardware.
pub proof fn law_one_shot_then_unplug(caps: Capabilities, m: StoreModel, h: HardwareModel)
    requires
        m.valid(),
        caps.charge_control_end_threshold,
        m.charge_control_end_threshold != 100,
        m.last_power_plugged,
    ensures
        after_power_change(after_one_shot(m), false).charge_control_end_threshold
            == m.charge_control_end_threshold,
        after_power_change(after_one_shot(m), false).base_charge_control_end_threshold == 0,
        apply_ops(
            apply_op(h, HalOp::SetChargeLimit(100)),
            power_change_ops(caps, after_one_shot(m), false),
        ).charge_limit == m.charge_control_end_threshold,
{
    let m1 = after_one_shot(m);
    let policy = if caps.throttle_thermal_policy && m1.change_policy_on(false) {
        policy_ops(m1, m1.policy_on(false))
    } else {
        Seq::empty()
    };
    let restore = restore_ops(caps, m1);
    assert(power_change_ops(caps, m1, false) == policy.push(HalOp::RunPowerCommand(false))
        + restore);
    lemma_apply_concat(
        apply_op(h, HalOp::SetChargeLimit(100)),
        policy.push(HalOp::RunPowerCommand(false)),
        restore,
    );
    assert(restore.drop_last().len() == 0);
}

/// An edit of the stored file that changes only the policy for AC power
/// leads to exactly the writes that set that policy: one write where the
/// energy preference is not linked to the policy.
pub proof fn law_external_edit_of_ac_policy(
    caps: Capabilities,
    old: StoreModel,
    p: ThrottlePolicy,
    active: Option<ThrottlePolicy>,
    attrs: Seq<FirmwareAttribute>,
)
    requires
        caps.throttle_thermal_policy,
        p != old.throttle_policy_on_ac,
    ensures
        external_change_ops(caps, old, StoreModel { throttle_policy_on_ac: p, ..old }, active, attrs)
            == policy_ops(old, p),
        !old.throttle_policy_linked_epp ==> external_change_ops(
            caps,
            old,
            StoreModel { throttle_policy_on_ac: p, ..old },
            active,
            attrs,
        ) == seq![HalOp::SetThrottlePolicy(p)],
{
    let new = StoreModel { throttle_policy_on_ac: p, ..old };
    assert(old != new);
    lemma_collect_none(attrs, attr_diff_op(old, new, active));
    assert(policy_ops(new, p) == policy_ops(old, p));
    assert(external_change_ops(caps, old, new, active, attrs) =~= policy_ops(old, p));
}

/// Where `f` yields no write, collecting over any list yields none.
pub proof fn lemma_collect_none<A>(xs: Seq<A>, f: spec_fn(A) -> Option<HalOp>)
    requires
        forall|x: A| #[trigger] f(x) is None,
    ensures
        collect_ops(xs, f) == Seq::<HalOp>::empty(),
    decreases xs.len(),
{
    if xs.len() > 0 {
        lemma_collect_none(xs.drop_last(), f);
    }
}

/// Every change of the store keeps its invariant, so requests and events
/// that the lock serialises in either order leave a valid store; for
/// instance a charge limit of 80 set before or after a power-source change.
pub proof fn law_transitions_keep_invariant(
    m: StoreModel,
    limit: u8,
    plugged: bool,
    reading: Option<bool>,
    a: FirmwareAttribute,
    v: i32,
    active: ThrottlePolicy,
)
    requires
        m.valid(),
    ensures
        valid_charge_limit(limit) ==> with_charge_limit(m, limit).valid(),
        after_power_change(m, plugged).valid(),
        after_reload(m, reading).valid(),
        after_one_shot(m).valid(),
        restored(m).valid(),
        with_attribute(m, a, v, active).valid(),
        with_charge_limit(after_power_change(m, plugged), 80).valid(),
        after_power_change(with_charge_limit(m, 80), plugged).valid(),
{
    let m1 = with_attribute(m, a, v, active);
    assert forall|b: FirmwareAttribute| #[trigger] m1.armoury_settings.contains_key(b)
        implies !b.spec_is_ppt() by {
        if b != a {
            assert(m.armoury_settings.contains_key(b));
        }
    }
    assert forall|b: FirmwareAttribute| #[trigger] m1.tunings_balanced.contains_key(b)
        implies b.spec_is_ppt() by {
        if b != a {
            assert(m.tunings_balanced.contains_key(b));
        }
    }
    assert forall|b: FirmwareAttribute| #[trigger] m1.tunings_performance.contains_key(b)
        implies b.spec_is_ppt() by {
        if b != a {
            assert(m.tunings_performance.contains_key(b));
        }
    }
    assert forall|b: FirmwareAttribute| #[trigger] m1.tunings_quiet.contains_key(b)
        implies b.spec_is_ppt() by {
        if b != a {
            assert(m.tunings_quiet.contains_key(b));
        }
    }
}

/// Setting a power-limit attribute while `Performance` is active keeps the
/// value among that policy's tunings and leaves the settings alone; setting
/// any other attribute keeps it among the settings and leaves the tunings alone.
pub proof fn law_attribute_classification(m: StoreModel, a: FirmwareAttribute, v: i32)
    ensures
        a.spec_is_ppt() ==> with_attribute(m, a, v, ThrottlePolicy::Performance).tunings(
            ThrottlePolicy::Performance,
        ) == m.tunings(ThrottlePolicy::Performance).insert(a, v) && with_attribute(
            m,
            a,
            v,
            ThrottlePolicy::Performance,
        ).armoury_settings == m.armoury_settings,
        !a.spec_is_ppt() ==> with_attribute(m, a, v, ThrottlePolicy::Performance).armoury_settings
            == m.armoury_settings.insert(a, v) && with_attribute(
            m,
            a,
            v,
            ThrottlePolicy::Performance,
        ).tunings_balanced == m.tunings_balanced && with_attribute(
            m,
            a,
            v,
            ThrottlePolicy::Performance,
        ).tunings_performance == m.tunings_performance && with_attribute(
            m,
            a,
            v,
            ThrottlePolicy::Performance,
        ).tunings_quiet == m.tunings_quiet,
{
}

/// The last charge limit that `ops` write, if any.
pub open spec fn last_charge(ops: Seq<HalOp>) -> Option<u8>
    decreases ops.len(),
{
    if ops.len() == 0 {
        None
    } else {
        match ops.last() {
            HalOp::SetChargeLimit(v) => Some(v),
            _ => last_charge(ops.drop_last()),
        }
    }
}

/// The last energy preference that `ops` write, if any.
pub open spec fn last_epp(ops: Seq<HalOp>) -> Option<CpuEpp>
    decreases ops.len(),
{
    if ops.len() == 0 {
        None
    } else {
        match ops.last() {
            HalOp::SetEpp(e) => Some(e),
            _ => last_epp(ops.drop_last()),
        }
    }
}

/// The last throttle policy that `ops` write, if any.
pub open spec fn last_throttle(ops: Seq<HalOp>) -> Option<ThrottlePolicy>
    decreases ops.len(),
{
    if ops.len() == 0 {
        None
    } else {
        match ops.last() {
            HalOp::SetThrottlePolicy(p) => Some(p),
            _ => last_throttle(ops.drop_last()),
        }
    }
}

/// The last value that `ops` write to each attribute.
pub open spec fn attr_writes(ops: Seq<HalOp>) -> Map<FirmwareAttribute, i32>
    decreases ops.len(),
{
    if ops.len() == 0 {
        Map::empty()
    } else {
        match ops.last() {
            HalOp::SetAttribute(a, v) => attr_writes(ops.drop_last()).insert(a, v),
            _ => attr_writes(ops.drop_last()),
        }
    }
}

/// The hardware after `ops`: the last write to each setting wins.
pub open spec fn last_writes_over(h: HardwareModel, ops: Seq<HalOp>) -> HardwareModel {
    HardwareModel {
        charge_limit: match last_charge(ops) {
            Some(v) => v,
            None => h.charge_limit,
        },
        throttle: match last_throttle(ops) {
            Some(p) => p,
            None => h.throttle,
        },
        epp: match last_epp(ops) {
            Some(e) => e,
            None => h.epp,
        },
        attributes: h.attributes.union_prefer_right(attr_writes(ops)),
    }
}

pub proof fn lemma_apply_is_last_writes(h: HardwareModel, ops: Seq<HalOp>)
    ensures
        apply_ops(h, ops) == last_writes_over(h, ops),
    decreases ops.len(),
{
    if ops.len() == 0 {
        assert(h.attributes.union_prefer_right(Map::empty()) =~= h.attributes);
    } else {
        lemma_apply_is_last_writes(h, ops.drop_last());
        let prev = last_writes_over(h, ops.drop_last());
        match ops.last() {
            HalOp::SetAttribute(a, v) => {
                assert(prev.attributes.insert(a, v) =~= h.attributes.union_prefer_right(
                    attr_writes(ops.drop_last()).insert(a, v),
                ));
            },
            _ => {},
        }
    }
}

/// Performing the same writes twice leaves the hardware as once does.
pub proof fn lemma_apply_twice(h: HardwareModel, ops: Seq<HalOp>)
    ensures
        apply_ops(apply_ops(h, ops), ops) == apply_ops(h, ops),
{
    lemma_apply_is_last_writes(h, ops);
    lemma_apply_is_last_writes(apply_ops(h, ops), ops);
    let w = attr_writes(ops);
    assert(h.attributes.union_prefer_right(w).union_prefer_right(w) =~= h.attributes.union_prefer_right(w));
}

/// Whether no write of `ops` sets the throttle policy.
pub open spec fn keeps_throttle(ops: Seq<HalOp>) -> bool {
    forall|i: int| 0 <= i < ops.len() ==> !(#[trigger] ops[i] is SetThrottlePolicy)
}

pub proof fn lemma_keeps_throttle(ops: Seq<HalOp>)
    requires
        keeps_throttle(ops),
    ensures
        last_throttle(ops) is None,
    decreases ops.len(),
{
    if ops.len() > 0 {
        assert(ops.last() == ops[ops.len() - 1]);
        lemma_keeps_throttle(ops.drop_last());
    }
}

pub proof fn lemma_tunings_keep_throttle(attrs: Seq<FirmwareAttribute>, t: Map<FirmwareAttribute, i32>)
    ensures
        keeps_throttle(collect_ops(attrs, tuning_op(t))),
    decreases attrs.len(),
{
    if attrs.len() > 0 {
        lemma_tunings_keep_throttle(attrs.drop_last(), t);
    }
}

/// Reloading twice with nothing changed in between: the second reload
/// finds the store as the first left it, plans the same writes, and leaves
/// the hardware as the first one did. The throttle policy is read from the
/// hardware before each reload.
pub proof fn law_reload_idempotent(
    caps: Capabilities,
    m: StoreModel,
    h: HardwareModel,
    plugged: Option<bool>,
    attrs: Seq<FirmwareAttribute>,
)
    requires
        m.valid(),
    ensures
        after_reload(after_reload(m, plugged), plugged) == after_reload(m, plugged),
        reload_ops(
            caps,
            after_reload(m, plugged),
            plugged,
            Some(apply_ops(h, reload_ops(caps, m, plugged, Some(h.throttle), attrs)).throttle),
            attrs,
        ) == reload_ops(caps, m, plugged, Some(h.throttle), attrs),
        apply_ops(
            apply_ops(h, reload_ops(caps, m, plugged, Some(h.throttle), attrs)),
            reload_ops(caps, m, plugged, Some(h.throttle), attrs),
        ) == apply_ops(h, reload_ops(caps, m, plugged, Some(h.throttle), attrs)),
{
    let ops1 = reload_ops(caps, m, plugged, Some(h.throttle), attrs);
    let h1 = apply_ops(h, ops1);
    let m1 = after_reload(m, plugged);
    lemma_apply_twice(h, ops1);
    let gate = match plugged {
        Some(p) => caps.throttle_thermal_policy && m.change_policy_on(p),
        None => false,
    };
    if !gate {
        let active = Some(h.throttle);
        match active {
            Some(p) => lemma_tunings_keep_throttle(attrs, m.tunings(p)),
            None => {},
        }
        assert(keeps_throttle(ops1));
        lemma_keeps_throttle(ops1);
        lemma_apply_is_last_writes(h, ops1);
        assert(h1.throttle == h.throttle);
    }
    assert(reload_ops(caps, m1, plugged, Some(h1.throttle), attrs) =~= ops1);
}

} // verus!
