//! Firmware attributes: what the platform reports of each, and how a change
//! of an attribute's value is kept in the policy store.
use vstd::prelude::*;
use crate::engine::{HalOp, PolicyError};
use crate::policy::{FirmwareAttribute, PolicyStore, StoreModel, ThrottlePolicy};

verus! {

/// The discrete values an attribute may take, by name or by number.
#[derive(Debug, Default, Clone)]
pub struct PossibleValues {
    strings: Vec<String>,
    nums: Vec<i32>,
}

/// What the platform reports of one attribute at startup. A field that the
/// attribute lacks is `None`, never a sentinel value.
#[derive(Debug, Clone)]
pub struct AttributeDescriptor {
    pub name: FirmwareAttribute,
    pub default_value: Option<i32>,
    pub min_value: Option<i32>,
    pub max_value: Option<i32>,
    pub scalar_increment: Option<i32>,
    pub possible_values: Option<Vec<i32>>,
}

/// A descriptor field that an attribute may or may not have.
#[derive(Debug, Clone, Copy, PartialEq, Eq, Structural)]
pub enum AttrField {
    DefaultValue,
    MinValue,
    MaxValue,
    ScalarIncrement,
    PossibleValues,
    CurrentValue,
}

impl AttrField {
    pub open spec fn spec_name(self) -> Seq<char> {
        match self {
            AttrField::DefaultValue => "default_value"@,
            AttrField::MinValue => "min_value"@,
            AttrField::MaxValue => "max_value"@,
            AttrField::ScalarIncrement => "scalar_increment"@,
            AttrField::PossibleValues => "possible_values"@,
            AttrField::CurrentValue => "current_value"@,
        }
    }

    /// The name under which the field is published.
    pub fn name(self) -> (r: String)
        ensures
            r@ == self.spec_name(),
    {
        match self {
            AttrField::DefaultValue => "default_value".to_owned(),
            AttrField::MinValue => "min_value".to_owned(),
            AttrField::MaxValue => "max_value".to_owned(),
            AttrField::ScalarIncrement => "scalar_increment".to_owned(),
            AttrField::PossibleValues => "possible_values".to_owned(),
            AttrField::CurrentValue => "current_value".to_owned(),
        }
    }
}

/// `f` as a one-item sequence when `present`, else nothing.
pub open spec fn field_if(present: bool, f: AttrField) -> Seq<AttrField> {
    if present {
        seq![f]
    } else {
        Seq::empty()
    }
}

/// The fields that descriptor `d` has, in publishing order; `current_known`
/// tells whether the current value could be read.
pub open spec fn present_fields(d: AttributeDescriptor, current_known: bool) -> Seq<AttrField> {
    field_if(d.default_value is Some, AttrField::DefaultValue) + field_if(
        d.min_value is Some,
        AttrField::MinValue,
    ) + field_if(d.max_value is Some, AttrField::MaxValue) + field_if(
        d.scalar_increment is Some,
        AttrField::ScalarIncrement,
    ) + field_if(d.possible_values is Some, AttrField::PossibleValues) + field_if(
        current_known,
        AttrField::CurrentValue,
    )
}

/// Whether `v` lies within the bounds that `d` states.
pub open spec fn within_bounds(d: AttributeDescriptor, v: i32) -> bool {
    &&& (d.min_value is Some ==> d.min_value->Some_0 <= v)
    &&& (d.max_value is Some ==> v <= d.max_value->Some_0)
}

/// The store once attribute `a` was set to `v` while policy `active` was on:
/// a power limit is kept for that policy, any other attribute as a setting.
pub open spec fn with_attribute(m: StoreModel, a: FirmwareAttribute, v: i32, active: ThrottlePolicy) -> StoreModel {
    if a.spec_is_ppt() {
        match active {
            ThrottlePolicy::Balanced => StoreModel {
                tunings_balanced: m.tunings_balanced.insert(a, v),
                ..m
            },
            ThrottlePolicy::Performance => StoreModel {
                tunings_performance: m.tunings_performance.insert(a, v),
                ..m
            },
            ThrottlePolicy::Quiet => StoreModel { tunings_quiet: m.tunings_quiet.insert(a, v), ..m },
        }
    } else {
        StoreModel { armoury_settings: m.armoury_settings.insert(a, v), ..m }
    }
}

/// The controller of one firmware attribute.
pub struct AsusArmouryAttribute {
    pub attr: AttributeDescriptor,
}

impl AsusArmouryAttribute {
    pub fn new(attr: AttributeDescriptor) -> (r: AsusArmouryAttribute)
        ensures
            r.attr == attr,
    {
        AsusArmouryAttribute { attr }
    }

    pub fn name(&self) -> (r: FirmwareAttribute)
        ensures
            r == self.attr.name,
    {
        self.attr.name
    }

    /// The fields this attribute has; `current` is the value read from hardware.
    pub fn available_fields(&self, current: Option<i32>) -> (r: Vec<AttrField>)
        ensures
            r@ == present_fields(self.attr, current is Some),
    {
        let mut r: Vec<AttrField> = Vec::new();
        if self.attr.default_value.is_some() {
            r.push(AttrField::DefaultValue);
        }
        if self.attr.min_value.is_some() {
            r.push(AttrField::MinValue);
        }
        if self.attr.max_value.is_some() {
            r.push(AttrField::MaxValue);
        }
        if self.attr.scalar_increment.is_some() {
            r.push(AttrField::ScalarIncrement);
        }
        if self.attr.possible_values.is_some() {
            r.push(AttrField::PossibleValues);
        }
        if current.is_some() {
            r.push(AttrField::CurrentValue);
        }
        assert(r@ =~= present_fields(self.attr, current is Some));
        r
    }

    /// The names of the fields this attribute has.
    pub fn available_attrs(&self, current: Option<i32>) -> (r: Vec<String>)
        ensures
            r@.len() == present_fields(self.attr, current is Some).len(),
            forall|i: int|
                0 <= i < r@.len() ==> #[trigger] r@[i]@ == present_fields(
                    self.attr,
                    current is Some,
                )[i].spec_name(),
    {
        let fields = self.available_fields(current);
        let mut r: Vec<String> = Vec::new();
        let mut i: usize = 0;
        while i < fields.len()
            invariant
                fields@ == present_fields(self.attr, current is Some),
                i <= fields@.len(),
                r@.len() == i,
                forall|j: int| 0 <= j < i ==> #[trigger] r@[j]@ == fields@[j].spec_name(),
            decreases fields@.len() - i,
        {
            r.push(fields[i].name());
            i = i + 1;
        }
        r
    }

    pub fn default_value(&self) -> (r: Option<i32>)
        ensures
            r == self.attr.default_value,
    {
        self.attr.default_value
    }

    pub fn min_value(&self) -> (r: Option<i32>)
        ensures
            r == self.attr.min_value,
    {
        self.attr.min_value
    }

    pub fn max_value(&self) -> (r: Option<i32>)
        ensures
            r == self.attr.max_value,
    {
        self.attr.max_value
    }

    pub fn scalar_increment(&self) -> (r: Option<i32>)
        ensures
            r == self.attr.scalar_increment,
    {
        self.attr.scalar_increment
    }

    /// The discrete values of the attribute; empty where it has none.
    pub fn possible_values(&self) -> (r: Vec<i32>)
        ensures
            r@ == (match self.attr.possible_values {
                Some(v) => v@,
                None => Seq::empty(),
            }),
    {
        match &self.attr.possible_values {
            Some(v) => {
                let mut r: Vec<i32> = Vec::new();
                let mut i: usize = 0;
                while i < v.len()
                    invariant
                        i <= v@.len(),
                        r@ == v@.take(i as int),
                    decreases v@.len() - i,
                {
                    r.push(v[i]);
                    i = i + 1;
                    assert(r@ =~= v@.take(i as int));
                }
                assert(v@.take(v@.len() as int) =~= v@);
                r
            },
            None => Vec::new(),
        }
    }

    /// The current value, from what the hardware reported (`None`: it could not be read).
    pub fn current_value(&self, read: Option<i32>) -> (r: Result<i32, PolicyError>)
        ensures
            r == (match read {
                Some(v) => Ok(v),
                None => Err(PolicyError::Unsupported),
            }),
    {
        match read {
            Some(v) => Ok(v),
            None => Err(PolicyError::Unsupported),
        }
    }

    /// Checks a new value against the attribute's bounds and gives its write.
    pub fn plan_current_value(&self, value: i32) -> (r: Result<HalOp, PolicyError>)
        ensures
            r == (if within_bounds(self.attr, value) {
                Ok(HalOp::SetAttribute(self.attr.name, value))
            } else {
                Err(PolicyError::InvalidArgument)
            }),
    {
        match self.attr.min_value {
            Some(lo) => if value < lo {
                return Err(PolicyError::InvalidArgument);
            },
            None => {},
        }
        match self.attr.max_value {
            Some(hi) => if value > hi {
                return Err(PolicyError::InvalidArgument);
            },
            None => {},
        }
        Ok(HalOp::SetAttribute(self.attr.name, value))
    }

    /// Keeps `value` in the store once its write has been attempted.
    /// `written` tells whether the hardware accepted it, and `active` is the
    /// throttle policy read from hardware at this moment.
    pub fn set_current_value(
        &self,
        config: &mut PolicyStore,
        value: i32,
        written: bool,
        active: Option<ThrottlePolicy>,
    ) -> (r: Result<(), PolicyError>)
        requires
            old(config).wf(),
        ensures
            final(config).wf(),
            r is Ok <==> written && (self.attr.name.spec_is_ppt() ==> active is Some),
            r is Err ==> r == Err::<(), PolicyError>(PolicyError::HardwareIo) && final(config)@
                == old(config)@,
            r is Ok && self.attr.name.spec_is_ppt() ==> final(config)@ == with_attribute(
                old(config)@,
                self.attr.name,
                value,
                active->Some_0,
            ),
            r is Ok && !self.attr.name.spec_is_ppt() ==> final(config)@ == with_attribute(
                old(config)@,
                self.attr.name,
                value,
                ThrottlePolicy::Balanced,
            ),
    {
        if !written {
            return Err(PolicyError::HardwareIo);
        }
        let name = self.attr.name;
        if name.is_ppt() {
            match active {
                Some(p) => {
                    config.record_tuning(p, name, value);
                    Ok(())
                },
                None => Err(PolicyError::HardwareIo),
            }
        } else {
            config.record_setting(name, value);
            Ok(())
        }
    }

    /// The write that restores this attribute's tuning for the `active`
    /// policy, if the store holds one.
    pub fn reload(&self, config: &PolicyStore, active: ThrottlePolicy) -> (r: Option<HalOp>)
        requires
            config.wf(),
        ensures
            r == (if config@.tunings(active).contains_key(self.attr.name) {
                Some(HalOp::SetAttribute(self.attr.name, config@.tunings(active)[self.attr.name]))
            } else {
                None
            }),
    {
        match config.tunings(active).get(self.attr.name) {
            Some(v) => Some(HalOp::SetAttribute(self.attr.name, v)),
            None => None,
        }
    }
}

} // verus!
