use vstd::prelude::*;

use crate::class::{spec_has_property, spec_property_type, ObjectClass, ParamSpec};
use crate::types::{
    BoolError, ParamFlags, Type, G_PARAM_CONSTRUCT_ONLY, G_PARAM_READABLE, G_PARAM_WRITABLE,
    G_TYPE_OBJECT,
};
use vstd::string::StringSliceAdditionalSpecFns;
use vstd::std_specs::cmp::{PartialEqSpec, PartialEqSpecImpl, PartialOrdSpec, PartialOrdSpecImpl};

verus! {

/// A reference to a GObject instance: the instance's address, which is its
/// identity, the type that this reference presents it as (what a typed wrapper
/// such as a button or a widget stands for), and the instance's own type.
#[derive(Clone, Copy, Debug)]
pub struct Object {
    pub ptr: usize,
    pub static_type: Type,
    pub type_: Type,
}

/// Two references are equal when they refer to the same instance, whatever types
/// they present it as.
impl PartialEq for Object {
    fn eq(&self, other: &Object) -> (r: bool) {
        self.ptr == other.ptr
    }
}

impl PartialEqSpecImpl for Object {
    open spec fn obeys_eq_spec() -> bool {
        true
    }

    open spec fn eq_spec(&self, other: &Object) -> bool {
        self.ptr == other.ptr
    }
}

impl Eq for Object {

}

/// References are ordered by the address of the instance they refer to.
impl PartialOrd for Object {
    fn partial_cmp(&self, other: &Object) -> (r: Option<core::cmp::Ordering>) {
        if self.ptr < other.ptr {
            Some(core::cmp::Ordering::Less)
        } else if self.ptr == other.ptr {
            Some(core::cmp::Ordering::Equal)
        } else {
            Some(core::cmp::Ordering::Greater)
        }
    }
}

impl PartialOrdSpecImpl for Object {
    open spec fn obeys_partial_cmp_spec() -> bool {
        true
    }

    open spec fn partial_cmp_spec(&self, other: &Object) -> Option<core::cmp::Ordering> {
        if self.ptr < other.ptr {
            Some(core::cmp::Ordering::Less)
        } else if self.ptr == other.ptr {
            Some(core::cmp::Ordering::Equal)
        } else {
            Some(core::cmp::Ordering::Greater)
        }
    }
}

/// `o` presented as `target`: same instance, same own type.
pub open spec fn spec_cast(o: Object, target: Type) -> Object {
    Object { static_type: target, ..o }
}

/// A checked cast: `o` presented as `target` where the instance is one
/// (`is_instance`), `o` itself handed back otherwise.
pub open spec fn spec_checked_cast(o: Object, target: Type, is_instance: bool) -> Result<
    Object,
    Object,
> {
    if is_instance {
        Ok(spec_cast(o, target))
    } else {
        Err(o)
    }
}

/// The property that a write goes to, from what the class found for the name.
pub open spec fn spec_writable_property(found: Option<ParamSpec>) -> Result<ParamSpec, BoolError> {
    match found {
        None => Err(BoolError::PropertyNotFound),
        Some(pspec) => if pspec.flags.spec_writable_now() {
            Ok(pspec)
        } else {
            Err(BoolError::PropertyNotWritable)
        },
    }
}

/// The property that a read comes from, from what the class found for the name.
pub open spec fn spec_readable_property(found: Option<ParamSpec>) -> Result<ParamSpec, BoolError> {
    match found {
        None => Err(BoolError::PropertyNotFound),
        Some(pspec) => if pspec.flags.spec_readable() {
            Ok(pspec)
        } else {
            Err(BoolError::PropertyNotReadable)
        },
    }
}

/// The whole verdict on a property write: what the class found for the name,
/// whether the value's type conforms to the property's (`holds`), and whether
/// validating the value against the property changed it (`changed`).
pub open spec fn spec_set_property(found: Option<ParamSpec>, holds: bool, changed: bool) -> Result<
    (),
    BoolError,
> {
    match spec_writable_property(found) {
        Err(e) => Err(e),
        Ok(pspec) => if !holds {
            Err(BoolError::PropertyWrongType)
        } else if changed && !pspec.flags.spec_lax() {
            Err(BoolError::PropertyInvalidValue)
        } else {
            Ok(())
        },
    }
}

impl Object {
    /// The instance's own type.
    pub fn get_type(&self) -> (t: Type)
        ensures
            t == self.type_,
    {
        self.type_
    }

    /// The instance's class.
    pub fn get_object_class(&self) -> (c: ObjectClass)
        ensures
            c.type_ == self.type_,
    {
        ObjectClass { type_: self.type_ }
    }

    /// Presents the object as one of its ancestors or interfaces, `target`; the
    /// type it is presented as must be one (`is_ancestor`: what `g_type_is_a`
    /// answers for the presented type and `target`).
    pub fn upcast(self, target: Type, is_ancestor: bool) -> (o: Object)
        requires
            is_ancestor,
        ensures
            o == spec_cast(self, target),
    {
        Object { static_type: target, ..self }
    }

    /// Presents the object as one of its ancestors or interfaces, `target`,
    /// leaving this reference as it is; the type it is presented as must be one.
    pub fn upcast_ref(&self, target: Type, is_ancestor: bool) -> (o: Object)
        requires
            is_ancestor,
        ensures
            o == spec_cast(*self, target),
    {
        Object { static_type: target, ..*self }
    }

    /// Presents the object as the subtype `target` where it is an instance of it
    /// (`is_instance`: what `g_type_check_instance_is_a` answered); hands it back
    /// unchanged otherwise.
    pub fn downcast(self, target: Type, is_instance: bool) -> (r: Result<Object, Object>)
        ensures
            r == spec_checked_cast(self, target, is_instance),
    {
        if !is_instance {
            return Err(self);
        }
        Ok(self.upcast(target, true))
    }

    /// Presents the object as the subtype `target` where it is an instance of it;
    /// `None` otherwise.
    pub fn downcast_ref(&self, target: Type, is_instance: bool) -> (r: Option<Object>)
        ensures
            r == (if is_instance {
                Some(spec_cast(*self, target))
            } else {
                None
            }),
    {
        if !is_instance {
            return None;
        }
        Some(self.upcast_ref(target, true))
    }

    /// Presents the object as `target` (an ancestor, a subtype, an interface)
    /// where it is an instance of it; hands it back unchanged otherwise.
    pub fn dynamic_cast(self, target: Type, is_instance: bool) -> (r: Result<Object, Object>)
        ensures
            r == spec_checked_cast(self, target, is_instance),
    {
        if !is_instance {
            Err(self)
        } else {
            Ok(self.upcast(target, true))
        }
    }

    /// Presents the object as the subtype `target` without a check; the caller
    /// vouches that the object is an instance of it (`is_instance`).
    pub fn downcast_unchecked(self, target: Type, is_instance: bool) -> (o: Object)
        requires
            is_instance,
        ensures
            o == spec_cast(self, target),
    {
        self.upcast(target, true)
    }

    /// Presents the object as the subtype `target` without a check, leaving this
    /// reference as it is; the caller vouches that the object is an instance of it.
    pub fn downcast_ref_unchecked(&self, target: Type, is_instance: bool) -> (o: Object)
        requires
            is_instance,
        ensures
            o == spec_cast(*self, target),
    {
        self.upcast_ref(target, true)
    }

    /// Presents the object as `target` where it is an instance of it; `None`
    /// otherwise.
    pub fn dynamic_cast_ref(&self, target: Type, is_instance: bool) -> (r: Option<Object>)
        ensures
            r == (if is_instance {
                Some(spec_cast(*self, target))
            } else {
                None
            }),
    {
        if !is_instance {
            None
        } else {
            Some(self.upcast_ref(target, true))
        }
    }

    /// The first step of a property write: given what the class found for the
    /// property name, the property to write, or why it cannot be written.
    pub fn set_property(&self, found: Option<ParamSpec>) -> (r: Result<ParamSpec, BoolError>)
        ensures
            r == spec_writable_property(found),
    {
        let pspec = match found {
            Some(pspec) => pspec,
            None => {
                return Err(BoolError::PropertyNotFound);
            },
        };
        let flags = pspec.get_flags();
        if !flags.contains(crate::types::ParamFlags(crate::types::G_PARAM_WRITABLE))
            || flags.contains(crate::types::ParamFlags(crate::types::G_PARAM_CONSTRUCT_ONLY)) {
            return Err(BoolError::PropertyNotWritable);
        }
        Ok(pspec)
    }

    /// The first step of a property read: given what the class found for the
    /// property name, the property to read, or why it cannot be read.
    pub fn get_property(&self, found: Option<ParamSpec>) -> (r: Result<ParamSpec, BoolError>)
        ensures
            r == spec_readable_property(found),
    {
        let pspec = match found {
            Some(pspec) => pspec,
            None => {
                return Err(BoolError::PropertyNotFound);
            },
        };
        if !pspec.get_flags().contains(crate::types::ParamFlags(crate::types::G_PARAM_READABLE)) {
            return Err(BoolError::PropertyNotReadable);
        }
        Ok(pspec)
    }

    /// Checks that the object's class has the property that it found for a name,
    /// of type `type_` where one is given.
    pub fn has_property(&self, found: Option<ParamSpec>, type_: Option<Type>) -> (r: Result<
        (),
        BoolError,
    >)
        ensures
            r == spec_has_property(found, type_),
    {
        self.get_object_class().has_property(found, type_)
    }

    /// The type of the property that the object's class found for a name.
    pub fn get_property_type(&self, found: Option<ParamSpec>) -> (r: Option<Type>)
        ensures
            r == spec_property_type(found),
    {
        self.get_object_class().get_property_type(found)
    }

    /// The first step of constructing an instance of `type_`: allowed only where
    /// `type_` is a subtype of `GObject` (`is_object_type`: what `g_type_is_a`
    /// answered).
    pub fn new(type_: Type, is_object_type: bool) -> (r: Result<Construction, BoolError>)
        ensures
            is_object_type ==> r == Ok::<Construction, BoolError>(Construction { type_ }),
            !is_object_type ==> r == Err::<Construction, BoolError>(BoolError::NonObjectType),
    {
        if !is_object_type {
            return Err(BoolError::NonObjectType);
        }
        Ok(Construction { type_ })
    }
}

/// The second step of a property write: the value must be of the property's type
/// or a subtype of it (`holds`: what `g_type_check_value_holds` answered).
pub fn value_type_verdict(holds: bool) -> (r: Result<(), BoolError>)
    ensures
        holds ==> r is Ok,
        !holds ==> r == Err::<(), BoolError>(BoolError::PropertyWrongType),
{
    if !holds {
        return Err(BoolError::PropertyWrongType);
    }
    Ok(())
}

/// The third step of a property write: a value that validation changed
/// (`changed`: what `g_param_value_validate` answered) is refused unless the
/// property has lax validation.
pub fn validation_verdict(pspec: &ParamSpec, changed: bool) -> (r: Result<(), BoolError>)
    ensures
        r is Ok <==> !changed || pspec.flags.spec_lax(),
        r is Err ==> r == Err::<(), BoolError>(BoolError::PropertyInvalidValue),
{
    let change_allowed = pspec.get_flags().contains(
        crate::types::ParamFlags(crate::types::G_PARAM_LAX_VALIDATION),
    );
    if changed && !change_allowed {
        return Err(BoolError::PropertyInvalidValue);
    }
    Ok(())
}

/// The last step of a property read: a fetched value of the invalid type means
/// that GObject failed.
pub fn fetched_value_verdict(value_type: Type) -> (r: Result<(), BoolError>)
    ensures
        r is Ok <==> !value_type.spec_is_invalid(),
        r is Err ==> r == Err::<(), BoolError>(BoolError::PropertyGetFailed),
{
    if value_type.is_invalid() {
        Err(BoolError::PropertyGetFailed)
    } else {
        Ok(())
    }
}

/// An instance construction that the type check allowed.
#[derive(Clone, Copy, Debug, PartialEq, Eq, Structural)]
pub struct Construction {
    pub type_: Type,
}

/// How the new reference takes ownership of a fresh instance: a floating reference
/// is sunk, a full one taken over.
#[derive(Clone, Copy, Debug, PartialEq, Eq, Structural)]
pub enum Ownership {
    SinkFloating,
    TakeFull,
}

/// The outcome of a construction: no instance is an error; otherwise the new
/// reference presents the instance as `GObject`, sinking a floating reference and
/// taking over a full one.
pub open spec fn spec_finish(c: Construction, instance: usize, floating: bool) -> Result<
    (Object, Ownership),
    BoolError,
> {
    if instance == 0 {
        Err(BoolError::CannotInstantiate)
    } else {
        Ok(
            (
                Object { ptr: instance, static_type: Type(G_TYPE_OBJECT), type_: c.type_ },
                if floating {
                    Ownership::SinkFloating
                } else {
                    Ownership::TakeFull
                },
            ),
        )
    }
}

impl Construction {
    /// The outcome of construction, from the address GObject returned (0 where it
    /// returned none) and whether the new instance's reference is floating.
    pub fn finish(self, instance: usize, floating: bool) -> (r: Result<(Object, Ownership), BoolError>)
        ensures
            r == spec_finish(self, instance, floating),
    {
        if instance == 0 {
            return Err(BoolError::CannotInstantiate);
        }
        let o = Object { ptr: instance, static_type: Type(G_TYPE_OBJECT), type_: self.type_ };
        if floating {
            Ok((o, Ownership::SinkFloating))
        } else {
            Ok((o, Ownership::TakeFull))
        }
    }
}

/// Whether a name holds a NUL byte, and so cannot be handed to C as a string.
pub fn has_interior_nul(name: &str) -> (r: bool)
    ensures
        r <==> name.spec_bytes().contains(0u8),
{
    let bytes = name.as_bytes();
    let mut i: usize = 0;
    while i < bytes.len()
        invariant
            i <= bytes@.len(),
            bytes@ == name.spec_bytes(),
            forall|j: int| 0 <= j < i ==> bytes@[j] != 0u8,
        decreases bytes@.len() - i,
    {
        if bytes[i] == 0u8 {
            assert(bytes@[i as int] == 0u8);
            return true;
        }
        i = i + 1;
    }
    false
}

/// Where a property write stands: the next question to put to GObject about the
/// property being written, the store that ends it, or the refusal that ends it.
#[derive(Clone, Copy, Debug, PartialEq, Eq, Structural)]
pub enum PropertyWrite {
    /// Next: does the value's type conform to the property's type?
    CheckValueType(ParamSpec),
    /// Next: does validating the value against the property change it?
    ValidateValue(ParamSpec),
    /// The value is accepted: store it.
    Store(ParamSpec),
    /// The write is refused.
    Refused(BoolError),
}

/// Where a property write starts, from what the class found for the name.
pub open spec fn spec_write_begin(found: Option<ParamSpec>) -> PropertyWrite {
    match spec_writable_property(found) {
        Ok(pspec) => PropertyWrite::CheckValueType(pspec),
        Err(e) => PropertyWrite::Refused(e),
    }
}

/// The step after `step`, given GObject's answer to its question: `holds` after a
/// type question, `changed` after a validation; a finished write stays finished.
pub open spec fn spec_write_next(step: PropertyWrite, answer: bool) -> PropertyWrite {
    match step {
        PropertyWrite::CheckValueType(pspec) => if answer {
            PropertyWrite::ValidateValue(pspec)
        } else {
            PropertyWrite::Refused(BoolError::PropertyWrongType)
        },
        PropertyWrite::ValidateValue(pspec) => if answer && !pspec.flags.spec_lax() {
            PropertyWrite::Refused(BoolError::PropertyInvalidValue)
        } else {
            PropertyWrite::Store(pspec)
        },
        PropertyWrite::Store(pspec) => PropertyWrite::Store(pspec),
        PropertyWrite::Refused(e) => PropertyWrite::Refused(e),
    }
}

/// What a finished write comes to: a store is success, a refusal its error.
pub open spec fn spec_write_outcome(step: PropertyWrite) -> Result<(), BoolError> {
    match step {
        PropertyWrite::Refused(e) => Err(e),
        _ => Ok(()),
    }
}

impl PropertyWrite {
    /// Starts a write of the property that the class found for the name.
    pub fn begin(object: &Object, found: Option<ParamSpec>) -> (w: PropertyWrite)
        ensures
            w == spec_write_begin(found),
    {
        match object.set_property(found) {
            Ok(pspec) => PropertyWrite::CheckValueType(pspec),
            Err(e) => PropertyWrite::Refused(e),
        }
    }

    /// The next step, given GObject's answer to this step's question.
    pub fn next(self, answer: bool) -> (w: PropertyWrite)
        ensures
            w == spec_write_next(self, answer),
    {
        match self {
            PropertyWrite::CheckValueType(pspec) => match value_type_verdict(answer) {
                Ok(()) => PropertyWrite::ValidateValue(pspec),
                Err(e) => PropertyWrite::Refused(e),
            },
            PropertyWrite::ValidateValue(pspec) => match validation_verdict(&pspec, answer) {
                Ok(()) => PropertyWrite::Store(pspec),
                Err(e) => PropertyWrite::Refused(e),
            },
            PropertyWrite::Store(pspec) => PropertyWrite::Store(pspec),
            PropertyWrite::Refused(e) => PropertyWrite::Refused(e),
        }
    }
}

/// Running a write through its two questions, with `holds` and `changed` as
/// GObject's answers, ends exactly in the verdict on the write: a store where it
/// is accepted, the refusal with its error otherwise.
pub proof fn lemma_write_steps_reach_verdict(found: Option<ParamSpec>, holds: bool, changed: bool)
    ensures
        spec_write_outcome(spec_write_next(spec_write_next(spec_write_begin(found), holds), changed))
            == spec_set_property(found, holds, changed),
        spec_write_next(spec_write_next(spec_write_begin(found), holds), changed) is Store
            || spec_write_next(spec_write_next(spec_write_begin(found), holds), changed) is Refused,
{
}

/// A reference presented as its own type is unchanged, and presenting it as
/// another type keeps the instance.
pub proof fn lemma_cast_keeps_identity(o: Object, t: Type)
    ensures
        spec_cast(o, o.static_type) == o,
        spec_cast(o, t).ptr == o.ptr,
        spec_cast(o, t).type_ == o.type_,
        spec_cast(spec_cast(o, t), o.static_type) == o,
{
}

/// An object upcast and then downcast back to the type it was presented as (of
/// which it is an instance) is the object it was.
pub proof fn lemma_upcast_then_downcast(o: Object, t: Type)
    ensures
        spec_checked_cast(spec_cast(o, t), o.static_type, true) == Ok::<Object, Object>(o),
{
}

/// A failed cast hands back the reference unchanged.
pub proof fn lemma_failed_cast_unchanged(o: Object, t: Type)
    ensures
        spec_checked_cast(o, t, false) == Err::<Object, Object>(o),
{
}

/// A property write is accepted exactly when the class knows the property, the
/// property is writable and not construct-only, the value's type conforms, and
/// validation left the value as it was or the property is lax.
pub proof fn lemma_set_property_accepted(found: Option<ParamSpec>, holds: bool, changed: bool)
    ensures
        spec_set_property(found, holds, changed) is Ok <==> (found matches Some(p)
            && p.flags.spec_writable_now() && holds && (!changed || p.flags.spec_lax())),
{
}

/// References compare by the instance alone: presenting an object as another type
/// keeps it equal to itself, two references are ordered as equal exactly when
/// they are equal, and any two are ordered.
pub proof fn lemma_identity_order(a: Object, b: Object, t: Type)
    ensures
        PartialEqSpec::eq_spec(&spec_cast(a, t), &a),
        PartialOrdSpec::partial_cmp_spec(&a, &b) is Some,
        PartialOrdSpec::partial_cmp_spec(&a, &b) == Some(core::cmp::Ordering::Equal)
            <==> PartialEqSpec::eq_spec(&a, &b),
        PartialEqSpec::eq_spec(&a, &b) <==> PartialEqSpec::eq_spec(&b, &a),
{
}

/// Reading a property is refused for want of the readable bit alone: the first
/// step of a read of a found property hands back that very property exactly when
/// its flags hold `G_PARAM_READABLE`, whatever other bits are set, and is
/// `PropertyNotReadable` otherwise; a property that was not found is
/// `PropertyNotFound`.
pub proof fn lemma_read_needs_only_readable(p: ParamSpec, extra: u32)
    ensures
        spec_readable_property(None) == Err::<ParamSpec, BoolError>(BoolError::PropertyNotFound),
        p.flags.0 & G_PARAM_READABLE == G_PARAM_READABLE ==> spec_readable_property(Some(p))
            == Ok::<ParamSpec, BoolError>(p),
        p.flags.0 & G_PARAM_READABLE != G_PARAM_READABLE ==> spec_readable_property(Some(p))
            == Err::<ParamSpec, BoolError>(BoolError::PropertyNotReadable),
        spec_readable_property(Some(p)) is Ok ==> spec_readable_property(
            Some(ParamSpec { value_type: p.value_type, flags: ParamFlags(p.flags.0 | extra) }),
        ) == Ok::<ParamSpec, BoolError>(
            ParamSpec { value_type: p.value_type, flags: ParamFlags(p.flags.0 | extra) },
        ),
        spec_readable_property(
            Some(ParamSpec { value_type: p.value_type, flags: ParamFlags(G_PARAM_READABLE | extra) }),
        ) is Ok,
{
    let f = p.flags.0;
    assert((f & 1u32) == 1u32 ==> ((f | extra) & 1u32) == 1u32) by (bit_vector);
    assert(((1u32 | extra) & 1u32) == 1u32) by (bit_vector);
}

/// The first step of a write hands on the property that was found, unchanged,
/// exactly when its flags hold `G_PARAM_WRITABLE` and not `G_PARAM_CONSTRUCT_ONLY`;
/// otherwise it refuses with `PropertyNotWritable`, or `PropertyNotFound` where no
/// property was found. The steps that follow carry that same property to the
/// store, so the value is checked and validated against the found property.
pub proof fn lemma_write_keeps_found_property(p: ParamSpec, holds: bool, changed: bool)
    ensures
        spec_writable_property(None) == Err::<ParamSpec, BoolError>(BoolError::PropertyNotFound),
        (p.flags.0 & G_PARAM_WRITABLE == G_PARAM_WRITABLE && p.flags.0 & G_PARAM_CONSTRUCT_ONLY
            != G_PARAM_CONSTRUCT_ONLY) ==> spec_writable_property(Some(p)) == Ok::<
            ParamSpec,
            BoolError,
        >(p),
        !(p.flags.0 & G_PARAM_WRITABLE == G_PARAM_WRITABLE && p.flags.0 & G_PARAM_CONSTRUCT_ONLY
            != G_PARAM_CONSTRUCT_ONLY) ==> spec_writable_property(Some(p)) == Err::<
            ParamSpec,
            BoolError,
        >(BoolError::PropertyNotWritable),
        spec_writable_property(Some(p)) matches Ok(q) ==> q == p,
        spec_writable_property(Some(p)) is Ok ==> spec_write_begin(Some(p))
            == PropertyWrite::CheckValueType(p),
        spec_write_next(PropertyWrite::CheckValueType(p), true) == PropertyWrite::ValidateValue(p),
        spec_write_next(PropertyWrite::ValidateValue(p), changed) is Store ==> spec_write_next(
            PropertyWrite::ValidateValue(p),
            changed,
        ) == PropertyWrite::Store(p),
        spec_write_next(spec_write_next(spec_write_begin(Some(p)), holds), changed) is Store
            ==> spec_write_next(spec_write_next(spec_write_begin(Some(p)), holds), changed)
            == PropertyWrite::Store(p),
{
}

/// Construction keeps the instance and the type that was instantiated: for any
/// instance other than 0 the new reference is to that instance, its own type is
/// the constructed type and it is presented as `GObject`, whether or not the
/// fresh reference is floating; floating decides the ownership alone, sinking a
/// floating reference and taking over a full one. No instance is
/// `CannotInstantiate` (`lemma_finish_without_instance`).
pub proof fn lemma_finish_keeps_type(c: Construction, instance: usize, floating: bool)
    requires
        instance != 0,
    ensures
        spec_finish(c, instance, floating) is Ok,
        spec_finish(c, instance, floating).unwrap().0.ptr == instance,
        spec_finish(c, instance, floating).unwrap().0.type_ == c.type_,
        spec_finish(c, instance, floating).unwrap().0.static_type == Type(G_TYPE_OBJECT),
        spec_finish(c, instance, true).unwrap().1 == Ownership::SinkFloating,
        spec_finish(c, instance, false).unwrap().1 == Ownership::TakeFull,
        spec_finish(c, instance, true).unwrap().0 == spec_finish(c, instance, false).unwrap().0,
{
}

/// Construction without an instance is refused with `CannotInstantiate`, whatever
/// was constructed and whether or not a reference would have been floating.
pub proof fn lemma_finish_without_instance(c: Construction, floating: bool)
    ensures
        spec_finish(c, 0, floating) == Err::<(Object, Ownership), BoolError>(
            BoolError::CannotInstantiate,
        ),
{
}

} // verus!
