//! The persisted form of the policy store: a fixed-size record of bytes.
//!
//! Layout: eleven header bytes (charge limit, base charge limit, policy on
//! AC, policy on battery, the two change flags, the EPP link flag, the three
//! energy preferences, last power source), then four attribute tables
//! (settings, then the balanced, performance and quiet tunings). A table
//! has one five-byte slot per attribute: a presence byte (0 or 1) and the
//! value as four little-endian bytes (zero when absent).
use vstd::prelude::*;
use vstd::bytes::{spec_u32_from_le_bytes, spec_u32_to_le_bytes, u32_from_le_bytes, u32_to_le_bytes, lemma_auto_spec_u32_to_from_le_bytes};
use crate::policy::{
    lemma_index_bijective, AttrTable, CpuEpp, FirmwareAttribute, PolicyStore, StoreModel,
    ThrottlePolicy, ATTR_COUNT, valid_charge_limit,
};

verus! {

pub const HEADER_LEN: usize = 11;

pub const SLOT_LEN: usize = 5;

pub const TABLE_LEN: usize = 120;

/// Length of every encoded store.
pub const ENCODED_LEN: usize = 491;

pub open spec fn bool_byte(b: bool) -> u8 {
    if b {
        1
    } else {
        0
    }
}

pub open spec fn header_bytes(m: StoreModel) -> Seq<u8> {
    seq![
        m.charge_control_end_threshold,
        m.base_charge_control_end_threshold,
        m.throttle_policy_on_ac.spec_code(),
        m.throttle_policy_on_battery.spec_code(),
        bool_byte(m.change_throttle_policy_on_ac),
        bool_byte(m.change_throttle_policy_on_battery),
        bool_byte(m.throttle_policy_linked_epp),
        m.throttle_quiet_epp.spec_code(),
        m.throttle_balanced_epp.spec_code(),
        m.throttle_performance_epp.spec_code(),
        bool_byte(m.last_power_plugged),
    ]
}

/// The slot of attribute `a` in a table holding `t`.
pub open spec fn slot_bytes(t: Map<FirmwareAttribute, i32>, a: FirmwareAttribute) -> Seq<u8> {
    if t.contains_key(a) {
        seq![1u8] + spec_u32_to_le_bytes(t[a] as u32)
    } else {
        seq![0u8, 0u8, 0u8, 0u8, 0u8]
    }
}

/// The first `n` slots of a table holding `t`.
pub open spec fn table_prefix(t: Map<FirmwareAttribute, i32>, n: nat) -> Seq<u8>
    decreases n,
{
    if n == 0 {
        Seq::empty()
    } else {
        table_prefix(t, (n - 1) as nat) + slot_bytes(
            t,
            FirmwareAttribute::spec_from_index((n - 1) as nat),
        )
    }
}

pub open spec fn table_bytes(t: Map<FirmwareAttribute, i32>) -> Seq<u8> {
    table_prefix(t, ATTR_COUNT as nat)
}

/// The bytes that store `m` is persisted as.
pub open spec fn encoded(m: StoreModel) -> Seq<u8> {
    header_bytes(m) + table_bytes(m.armoury_settings) + table_bytes(m.tunings_balanced)
        + table_bytes(m.tunings_performance) + table_bytes(m.tunings_quiet)
}

pub open spec fn byte_bool(b: u8) -> Option<bool> {
    if b == 0 {
        Some(false)
    } else if b == 1 {
        Some(true)
    } else {
        None
    }
}

/// The value in the slot that starts at `at`.
pub open spec fn slot_value(b: Seq<u8>, at: int) -> i32 {
    spec_u32_from_le_bytes(b.subrange(at + 1, at + 5)) as i32
}

/// The table whose slots start at `off`.
pub open spec fn table_from(b: Seq<u8>, off: int) -> Map<FirmwareAttribute, i32> {
    Map::new(
        |a: FirmwareAttribute| b[off + 5 * a.spec_index()] == 1,
        |a: FirmwareAttribute| slot_value(b, off + 5 * a.spec_index()),
    )
}

/// Whether the table at `off` has only presence bytes 0 and 1, and holds
/// only power limits (`ppt`) or only other attributes (`!ppt`).
pub open spec fn table_ok(b: Seq<u8>, off: int, ppt: bool) -> bool {
    forall|i: nat|
        i < ATTR_COUNT ==> {
            let flag = #[trigger] b[off + 5 * i];
            &&& (flag == 0 || flag == 1)
            &&& (flag == 1 ==> FirmwareAttribute::spec_from_index(i).spec_is_ppt() == ppt)
        }
}

pub open spec fn table_offset(k: int) -> int {
    HEADER_LEN + k * TABLE_LEN
}

/// The store that bytes `b` hold, if they hold a valid one.
pub open spec fn decoded(b: Seq<u8>) -> Option<StoreModel> {
    if b.len() != ENCODED_LEN {
        None
    } else {
        let on_ac = ThrottlePolicy::spec_from_code(b[2]);
        let on_battery = ThrottlePolicy::spec_from_code(b[3]);
        let change_ac = byte_bool(b[4]);
        let change_battery = byte_bool(b[5]);
        let linked = byte_bool(b[6]);
        let quiet = CpuEpp::spec_from_code(b[7]);
        let balanced = CpuEpp::spec_from_code(b[8]);
        let performance = CpuEpp::spec_from_code(b[9]);
        let last = byte_bool(b[10]);
        if valid_charge_limit(b[0]) && (b[1] == 0 || valid_charge_limit(b[1])) && on_ac is Some
            && on_battery is Some && change_ac is Some && change_battery is Some && linked is Some
            && quiet is Some && balanced is Some && performance is Some && last is Some
            && table_ok(b, table_offset(0), false) && table_ok(b, table_offset(1), true)
            && table_ok(b, table_offset(2), true) && table_ok(b, table_offset(3), true) {
            Some(
                StoreModel {
                    charge_control_end_threshold: b[0],
                    base_charge_control_end_threshold: b[1],
                    throttle_policy_on_ac: on_ac->Some_0,
                    throttle_policy_on_battery: on_battery->Some_0,
                    change_throttle_policy_on_ac: change_ac->Some_0,
                    change_throttle_policy_on_battery: change_battery->Some_0,
                    throttle_policy_linked_epp: linked->Some_0,
                    throttle_quiet_epp: quiet->Some_0,
                    throttle_balanced_epp: balanced->Some_0,
                    throttle_performance_epp: performance->Some_0,
                    last_power_plugged: last->Some_0,
                    armoury_settings: table_from(b, table_offset(0)),
                    tunings_balanced: table_from(b, table_offset(1)),
                    tunings_performance: table_from(b, table_offset(2)),
                    tunings_quiet: table_from(b, table_offset(3)),
                },
            )
        } else {
            None
        }
    }
}

proof fn lemma_i32_u32(v: i32)
    ensures
        (v as u32) as i32 == v,
{
    assert((v as u32) as i32 == v) by (bit_vector);
}

/// Where each slot lies in a table prefix.
proof fn lemma_table_prefix(t: Map<FirmwareAttribute, i32>, n: nat)
    ensures
        table_prefix(t, n).len() == 5 * n,
        forall|i: nat, j: int|
            i < n && 0 <= j < 5 ==> #[trigger] table_prefix(t, n)[5 * i + j] == slot_bytes(
                t,
                FirmwareAttribute::spec_from_index(i),
            )[j],
    decreases n,
{
    lemma_auto_spec_u32_to_from_le_bytes();
    if n > 0 {
        lemma_table_prefix(t, (n - 1) as nat);
    }
}

/// A table's bytes, placed at `off`, decode to that table.
proof fn lemma_table_decodes(e: Seq<u8>, off: int, t: Map<FirmwareAttribute, i32>, ppt: bool)
    requires
        0 <= off,
        off + TABLE_LEN <= e.len(),
        e.subrange(off, off + TABLE_LEN) == table_bytes(t),
        forall|a: FirmwareAttribute| #[trigger] t.contains_key(a) ==> a.spec_is_ppt() == ppt,
    ensures
        table_ok(e, off, ppt),
        table_from(e, off) == t,
{
    lemma_table_prefix(t, ATTR_COUNT as nat);
    lemma_index_bijective();
    lemma_auto_spec_u32_to_from_le_bytes();
    let tb = table_bytes(t);
    assert forall|i: nat, j: int| i < ATTR_COUNT && 0 <= j < 5 implies e[off + 5 * i + j]
        == #[trigger] slot_bytes(t, FirmwareAttribute::spec_from_index(i))[j] by {
        assert(e[off + 5 * i + j] == tb[5 * i + j]);
    }
    assert forall|i: nat| i < ATTR_COUNT implies {
        let flag = #[trigger] e[off + 5 * i];
        &&& (flag == 0 || flag == 1)
        &&& (flag == 1 ==> FirmwareAttribute::spec_from_index(i).spec_is_ppt() == ppt)
    } by {
        assert(e[off + 5 * i + 0] == slot_bytes(t, FirmwareAttribute::spec_from_index(i))[0]);
    }
    assert forall|a: FirmwareAttribute| #[trigger] table_from(e, off).contains_key(a) == t.contains_key(a)
        && (t.contains_key(a) ==> table_from(e, off)[a] == t[a]) by {
        let i = a.spec_index();
        assert(FirmwareAttribute::spec_from_index(i) == a);
        let at = off + 5 * i;
        assert(e[at + 0] == slot_bytes(t, a)[0]);
        if t.contains_key(a) {
            let bytes = spec_u32_to_le_bytes(t[a] as u32);
            assert forall|j: int| 0 <= j < 4 implies #[trigger] e.subrange(at + 1, at + 5)[j]
                == bytes[j] by {
                assert(e[at + (j + 1)] == slot_bytes(t, a)[j + 1]);
            }
            assert(e.subrange(at + 1, at + 5) =~= bytes);
            lemma_i32_u32(t[a]);
        }
    }
    assert(table_from(e, off) =~= t);
}

/// Decoding the bytes of a valid store gives that store back.
pub proof fn law_round_trip(m: StoreModel)
    requires
        m.valid(),
    ensures
        encoded(m).len() == ENCODED_LEN,
        decoded(encoded(m)) == Some(m),
{
    lemma_table_prefix(m.armoury_settings, ATTR_COUNT as nat);
    lemma_table_prefix(m.tunings_balanced, ATTR_COUNT as nat);
    lemma_table_prefix(m.tunings_performance, ATTR_COUNT as nat);
    lemma_table_prefix(m.tunings_quiet, ATTR_COUNT as nat);
    let e = encoded(m);
    let h = header_bytes(m);
    let t0 = table_bytes(m.armoury_settings);
    let t1 = table_bytes(m.tunings_balanced);
    let t2 = table_bytes(m.tunings_performance);
    let t3 = table_bytes(m.tunings_quiet);
    assert(e.len() == ENCODED_LEN);
    assert(e.subrange(table_offset(0), table_offset(0) + TABLE_LEN) =~= t0);
    assert(e.subrange(table_offset(1), table_offset(1) + TABLE_LEN) =~= t1);
    assert(e.subrange(table_offset(2), table_offset(2) + TABLE_LEN) =~= t2);
    assert(e.subrange(table_offset(3), table_offset(3) + TABLE_LEN) =~= t3);
    lemma_table_decodes(e, table_offset(0), m.armoury_settings, false);
    lemma_table_decodes(e, table_offset(1), m.tunings_balanced, true);
    lemma_table_decodes(e, table_offset(2), m.tunings_performance, true);
    lemma_table_decodes(e, table_offset(3), m.tunings_quiet, true);
    assert(e.subrange(0, 11) =~= h);
    assert(e[0] == h[0] && e[1] == h[1] && e[2] == h[2] && e[3] == h[3] && e[4] == h[4]);
    assert(e[5] == h[5] && e[6] == h[6] && e[7] == h[7] && e[8] == h[8] && e[9] == h[9]);
    assert(e[10] == h[10]);
}

/// A table read from valid bytes holds attributes of one class only.
proof fn lemma_table_class(b: Seq<u8>, off: int, ppt: bool)
    requires
        table_ok(b, off, ppt),
    ensures
        forall|a: FirmwareAttribute| #[trigger]
            table_from(b, off).contains_key(a) ==> a.spec_is_ppt() == ppt,
{
    lemma_index_bijective();
    assert forall|a: FirmwareAttribute| #[trigger]
        table_from(b, off).contains_key(a) implies a.spec_is_ppt() == ppt by {
        let i = a.spec_index();
        assert(b[off + 5 * i] == 1);
        assert(FirmwareAttribute::spec_from_index(i) == a);
    }
}

/// Appends the bytes of table `t`.
fn push_table(t: &AttrTable, out: &mut Vec<u8>)
    requires
        t.wf(),
    ensures
        final(out)@ == old(out)@ + table_bytes(t@),
{
    let ghost start = out@;
    let mut i: usize = 0;
    while i < ATTR_COUNT
        invariant
            t.wf(),
            i <= ATTR_COUNT,
            out@ == start + table_prefix(t@, i as nat),
        decreases ATTR_COUNT - i,
    {
        let a = FirmwareAttribute::from_index(i);
        match t.get(a) {
            Some(v) => {
                let bytes = u32_to_le_bytes(#[verifier::truncate] (v as u32));
                out.push(1);
                out.push(bytes[0]);
                out.push(bytes[1]);
                out.push(bytes[2]);
                out.push(bytes[3]);
            },
            None => {
                out.push(0);
                out.push(0);
                out.push(0);
                out.push(0);
                out.push(0);
            },
        }
        i = i + 1;
        assert(out@ =~= start + table_prefix(t@, i as nat));
    }
}

fn bool_to_byte(b: bool) -> (r: u8)
    ensures
        r == bool_byte(b),
{
    if b {
        1
    } else {
        0
    }
}

/// The bytes that `store` is persisted as.
pub fn encode(store: &PolicyStore) -> (r: Vec<u8>)
    requires
        store.wf(),
    ensures
        r@ == encoded(store@),
{
    let mut out: Vec<u8> = Vec::new();
    out.push(store.charge_control_end_threshold);
    out.push(store.base_charge_control_end_threshold);
    out.push(store.throttle_policy_on_ac.code());
    out.push(store.throttle_policy_on_battery.code());
    out.push(bool_to_byte(store.change_throttle_policy_on_ac));
    out.push(bool_to_byte(store.change_throttle_policy_on_battery));
    out.push(bool_to_byte(store.throttle_policy_linked_epp));
    out.push(store.throttle_quiet_epp.code());
    out.push(store.throttle_balanced_epp.code());
    out.push(store.throttle_performance_epp.code());
    out.push(bool_to_byte(store.last_power_plugged));
    assert(out@ =~= header_bytes(store@));
    push_table(&store.armoury_settings, &mut out);
    push_table(&store.tunings_balanced, &mut out);
    push_table(&store.tunings_performance, &mut out);
    push_table(&store.tunings_quiet, &mut out);
    out
}

fn byte_to_bool(b: u8) -> (r: Option<bool>)
    ensures
        r == byte_bool(b),
{
    if b == 0 {
        Some(false)
    } else if b == 1 {
        Some(true)
    } else {
        None
    }
}

/// Reads the table whose slots start at `off`.
fn read_table(b: &Vec<u8>, off: usize, ppt: bool) -> (r: Option<AttrTable>)
    requires
        off + TABLE_LEN <= b@.len(),
    ensures
        r is Some <==> table_ok(b@, off as int, ppt),
        r is Some ==> r->Some_0.wf() && r->Some_0@ == table_from(b@, off as int),
{
    proof {
        lemma_index_bijective();
    }
    let len = b.len();
    let mut t = AttrTable::new();
    let mut i: usize = 0;
    while i < ATTR_COUNT
        invariant
            len == b@.len(),
            off + TABLE_LEN <= b@.len(),
            i <= ATTR_COUNT,
            t.wf(),
            forall|k: nat|
                k < i ==> {
                    let flag = #[trigger] b@[off + 5 * k];
                    &&& (flag == 0 || flag == 1)
                    &&& (flag == 1 ==> FirmwareAttribute::spec_from_index(k).spec_is_ppt() == ppt)
                },
            forall|a: FirmwareAttribute|
                #[trigger] t@.contains_key(a) == (a.spec_index() < i && b@[off + 5
                    * a.spec_index()] == 1),
            forall|a: FirmwareAttribute|
                #[trigger] t@.contains_key(a) ==> t@[a] == slot_value(
                    b@,
                    off + 5 * a.spec_index(),
                ),
        decreases ATTR_COUNT - i,
    {
        let at = off + 5 * i;
        let flag = b[at];
        let a = FirmwareAttribute::from_index(i);
        if flag == 1 {
            if a.is_ppt() != ppt {
                assert(b@[off + 5 * (i as nat)] == flag);
                return None;
            }
            let mut raw: Vec<u8> = Vec::new();
            raw.push(b[at + 1]);
            raw.push(b[at + 2]);
            raw.push(b[at + 3]);
            raw.push(b[at + 4]);
            assert(raw@ =~= b@.subrange(at + 1, at + 5));
            let v = #[verifier::truncate] (u32_from_le_bytes(raw.as_slice()) as i32);
            t.set(a, v);
        } else if flag != 0 {
            assert(b@[off + 5 * (i as nat)] == flag);
            return None;
        }
        assert(b@[off + 5 * (i as nat)] == flag);
        i = i + 1;
    }
    assert(t@ =~= table_from(b@, off as int));
    Some(t)
}

/// The store that `bytes` hold; `None` when they hold no valid store.
pub fn decode(bytes: &Vec<u8>) -> (r: Option<PolicyStore>)
    ensures
        r is None <==> decoded(bytes@) is None,
        r is Some ==> r->Some_0.wf() && decoded(bytes@) == Some(r->Some_0@),
{
    if bytes.len() != ENCODED_LEN {
        return None;
    }
    let charge = bytes[0];
    let base = bytes[1];
    if charge < 20 || charge > 100 || (base != 0 && (base < 20 || base > 100)) {
        return None;
    }
    let on_ac = ThrottlePolicy::from_code(bytes[2]);
    let on_battery = ThrottlePolicy::from_code(bytes[3]);
    let change_ac = byte_to_bool(bytes[4]);
    let change_battery = byte_to_bool(bytes[5]);
    let linked = byte_to_bool(bytes[6]);
    let quiet = CpuEpp::from_code(bytes[7]);
    let balanced = CpuEpp::from_code(bytes[8]);
    let performance = CpuEpp::from_code(bytes[9]);
    let last = byte_to_bool(bytes[10]);
    let settings = read_table(bytes, HEADER_LEN, false);
    let t_balanced = read_table(bytes, HEADER_LEN + TABLE_LEN, true);
    let t_performance = read_table(bytes, HEADER_LEN + 2 * TABLE_LEN, true);
    let t_quiet = read_table(bytes, HEADER_LEN + 3 * TABLE_LEN, true);
    match (on_ac, on_battery, change_ac, change_battery, linked, quiet, balanced, performance, last) {
        (
            Some(on_ac),
            Some(on_battery),
            Some(change_ac),
            Some(change_battery),
            Some(linked),
            Some(quiet),
            Some(balanced),
            Some(performance),
            Some(last),
        ) => match (settings, t_balanced, t_performance, t_quiet) {
            (Some(settings), Some(t_balanced), Some(t_performance), Some(t_quiet)) => {
                proof {
                    lemma_table_class(bytes@, table_offset(0), false);
                    lemma_table_class(bytes@, table_offset(1), true);
                    lemma_table_class(bytes@, table_offset(2), true);
                    lemma_table_class(bytes@, table_offset(3), true);
                }
                let store = PolicyStore {
                    charge_control_end_threshold: charge,
                    base_charge_control_end_threshold: base,
                    throttle_policy_on_ac: on_ac,
                    throttle_policy_on_battery: on_battery,
                    change_throttle_policy_on_ac: change_ac,
                    change_throttle_policy_on_battery: change_battery,
                    throttle_policy_linked_epp: linked,
                    throttle_quiet_epp: quiet,
                    throttle_balanced_epp: balanced,
                    throttle_performance_epp: performance,
                    last_power_plugged: last,
                    armoury_settings: settings,
                    tunings_balanced: t_balanced,
                    tunings_performance: t_performance,
                    tunings_quiet: t_quiet,
                };
                Some(store)
            },
            _ => None,
        },
        _ => None,
    }
}

} // verus!
