use vstd::prelude::*;

use crate::object::Object;
use crate::types::{BindingFlags, G_BINDING_DEFAULT};

verus! {

/// The description of a property binding under construction: a property of a
/// source object bound to a property of a target object, with flags and optional
/// transformations in each direction (`C` is how the caller carries a
/// transformation closure).
pub struct BindingBuilder<'a, C> {
    pub source: &'a Object,
    pub source_property: &'a str,
    pub target: &'a Object,
    pub target_property: &'a str,
    pub flags: BindingFlags,
    pub transform_to: Option<C>,
    pub transform_from: Option<C>,
}

impl<'a, C> BindingBuilder<'a, C> {
    fn new(
        source: &'a Object,
        source_property: &'a str,
        target: &'a Object,
        target_property: &'a str,
    ) -> (b: Self)
        ensures
            b.source == source,
            b.source_property == source_property,
            b.target == target,
            b.target_property == target_property,
            b.flags == BindingFlags(G_BINDING_DEFAULT),
            b.transform_to is None,
            b.transform_from is None,
    {
        BindingBuilder {
            source,
            source_property,
            target,
            target_property,
            flags: BindingFlags(G_BINDING_DEFAULT),
            transform_to: None,
            transform_from: None,
        }
    }

    /// Transforms values on their way from the target back to the source with `func`.
    pub fn transform_from(self, func: C) -> (b: Self)
        ensures
            b.source == self.source,
            b.source_property == self.source_property,
            b.target == self.target,
            b.target_property == self.target_property,
            b.flags == self.flags,
            b.transform_to == self.transform_to,
            b.transform_from == Some(func),
    {
        BindingBuilder { transform_from: Some(func), ..self }
    }

    /// Transforms values on their way from the source to the target with `func`.
    pub fn transform_to(self, func: C) -> (b: Self)
        ensures
            b.source == self.source,
            b.source_property == self.source_property,
            b.target == self.target,
            b.target_property == self.target_property,
            b.flags == self.flags,
            b.transform_to == Some(func),
            b.transform_from == self.transform_from,
    {
        BindingBuilder { transform_to: Some(func), ..self }
    }

    /// Binds with `flags` in place of the flags set so far.
    pub fn flags(self, flags: BindingFlags) -> (b: Self)
        ensures
            b.source == self.source,
            b.source_property == self.source_property,
            b.target == self.target,
            b.target_property == self.target_property,
            b.flags == flags,
            b.transform_to == self.transform_to,
            b.transform_from == self.transform_from,
    {
        BindingBuilder { flags: flags, ..self }
    }
}

impl Object {
    /// Starts a binding of this object's property `source_property` to the property
    /// `target_property` of `target`: default flags, no transformations.
    pub fn bind_property<'a, C>(
        &'a self,
        source_property: &'a str,
        target: &'a Object,
        target_property: &'a str,
    ) -> (b: BindingBuilder<'a, C>)
        ensures
            b.source == self,
            b.source_property == source_property,
            b.target == target,
            b.target_property == target_property,
            b.flags == BindingFlags(G_BINDING_DEFAULT),
            b.transform_to is None,
            b.transform_from is None,
    {
        BindingBuilder::new(self, source_property, target, target_property)
    }
}

/// What a transformation closure reports back to GObject, from what the caller's
/// transformation gave: whether it transformed the value, and the value to store
/// in the target.
pub fn transform_reply<V>(result: Option<V>) -> (r: (bool, Option<V>))
    ensures
        r.0 == result is Some,
        r.1 == result,
{
    match result {
        None => (false, None),
        Some(value) => (true, Some(value)),
    }
}

/// Whether a transformation closure was called with the three values it expects:
/// the binding, the value to transform, the value to fill in.
pub fn transform_value_count_ok(n_values: usize) -> (b: bool)
    ensures
        b == (n_values == 3),
{
    n_values == 3
}

/// Whether the value to transform is there (`source_is_null`: the boxed value
/// GObject handed over was a null pointer).
pub fn transform_source_ok(source_is_null: bool) -> (b: bool)
    ensures
        b == !source_is_null,
{
    !source_is_null
}

/// Whether the first value handed to a transformation closure holds the binding
/// (`holds_binding`: the value holds a non-null instance of `GBinding`).
pub fn transform_binding_ok(holds_binding: bool) -> (b: bool)
    ensures
        b == holds_binding,
{
    holds_binding
}

} // verus!
