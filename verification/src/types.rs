use vstd::prelude::*;

verus! {

/// `G_TYPE_FUNDAMENTAL_SHIFT`: fundamental type numbers are shifted left by two bits.
pub const G_TYPE_FUNDAMENTAL_SHIFT: usize = 2;

/// The invalid type, `G_TYPE_INVALID` (fundamental number 0).
pub const G_TYPE_INVALID: usize = 0;

/// The type of "no value", `G_TYPE_NONE` (fundamental number 1); `Type::Unit` in Rust.
pub const G_TYPE_NONE: usize = 4;

/// The fundamental object type, `G_TYPE_OBJECT` (fundamental number 20).
pub const G_TYPE_OBJECT: usize = 80;

/// The low bit that signal definitions set in a parameter or return type to mark
/// a value of static scope (`G_SIGNAL_TYPE_STATIC_SCOPE`).
pub const G_TYPE_FLAG_RESERVED_ID_BIT: usize = 1;

/// A GLib type identifier (a `GType`).
#[derive(Clone, Copy, Debug, PartialEq, Eq, Structural, Hash)]
pub struct Type(pub usize);

/// `raw` with the static-scope bit cleared.
pub open spec fn spec_without_static_scope(raw: usize) -> usize {
    raw & !G_TYPE_FLAG_RESERVED_ID_BIT
}

impl Type {
    /// Whether this is `G_TYPE_INVALID`.
    pub open spec fn spec_is_invalid(self) -> bool {
        self.0 == G_TYPE_INVALID
    }

    /// Whether this is `G_TYPE_NONE`, the unit type.
    pub open spec fn spec_is_unit(self) -> bool {
        self.0 == G_TYPE_NONE
    }

    /// The type that a signal definition names with `raw`, the static-scope bit
    /// taken away.
    pub fn from_signal_type(raw: usize) -> (t: Type)
        ensures
            t.0 == spec_without_static_scope(raw),
    {
        Type(raw & !G_TYPE_FLAG_RESERVED_ID_BIT)
    }

    /// Whether this is `G_TYPE_INVALID`.
    pub fn is_invalid(&self) -> (b: bool)
        ensures
            b == self.spec_is_invalid(),
    {
        self.0 == G_TYPE_INVALID
    }

    /// Whether this is `G_TYPE_NONE`, the unit type.
    pub fn is_unit(&self) -> (b: bool)
        ensures
            b == self.spec_is_unit(),
    {
        self.0 == G_TYPE_NONE
    }
}

/// Clearing the static-scope bit twice is the same as clearing it once, and the
/// bit is clear afterwards.
pub proof fn lemma_static_scope_idempotent(raw: usize)
    ensures
        spec_without_static_scope(spec_without_static_scope(raw)) == spec_without_static_scope(raw),
        spec_without_static_scope(raw) & G_TYPE_FLAG_RESERVED_ID_BIT == 0,
        spec_without_static_scope(raw) <= raw,
{
    assert(((raw & !1usize) & !1usize) == (raw & !1usize)) by (bit_vector);
    assert(((raw & !1usize) & 1usize) == 0usize) by (bit_vector);
    assert((raw & !1usize) <= raw) by (bit_vector);
}

/// A type identifier without the static-scope bit is left unchanged by clearing it;
/// in particular every fundamental type is.
pub proof fn lemma_static_scope_keeps_even(raw: usize)
    requires
        raw % 2 == 0,
    ensures
        spec_without_static_scope(raw) == raw,
{
    assert(raw % 2 == 0 ==> (raw & !1usize) == raw) by (bit_vector);
}

/// `GParamFlags` bit: the property can be read.
pub const G_PARAM_READABLE: u32 = 1;

/// `GParamFlags` bit: the property can be written.
pub const G_PARAM_WRITABLE: u32 = 2;

/// `GParamFlags`: readable and writable.
pub const G_PARAM_READWRITE: u32 = 3;

/// `GParamFlags` bit: the property is set at construction.
pub const G_PARAM_CONSTRUCT: u32 = 4;

/// `GParamFlags` bit: the property can only be set at construction.
pub const G_PARAM_CONSTRUCT_ONLY: u32 = 8;

/// `GParamFlags` bit: values that validation changes are still accepted.
pub const G_PARAM_LAX_VALIDATION: u32 = 16;

/// The flags of a property specification (`GParamFlags`).
#[derive(Clone, Copy, Debug, PartialEq, Eq, Structural, Hash)]
pub struct ParamFlags(pub u32);

impl ParamFlags {
    /// Whether every bit of `other` is set in `self`.
    pub open spec fn spec_contains(self, other: ParamFlags) -> bool {
        self.0 & other.0 == other.0
    }

    /// Whether every bit of `other` is set in `self`.
    pub fn contains(&self, other: ParamFlags) -> (b: bool)
        ensures
            b == self.spec_contains(other),
    {
        self.0 & other.0 == other.0
    }

    /// Whether the flags make a property readable.
    pub open spec fn spec_readable(self) -> bool {
        self.spec_contains(ParamFlags(G_PARAM_READABLE))
    }

    /// Whether the flags let a property be written after construction: writable
    /// and not construct-only.
    pub open spec fn spec_writable_now(self) -> bool {
        self.spec_contains(ParamFlags(G_PARAM_WRITABLE)) && !self.spec_contains(
            ParamFlags(G_PARAM_CONSTRUCT_ONLY),
        )
    }

    /// Whether the flags accept values that validation changed.
    pub open spec fn spec_lax(self) -> bool {
        self.spec_contains(ParamFlags(G_PARAM_LAX_VALIDATION))
    }
}

/// Containment of flags is reflexive and transitive, every set contains the empty
/// set, and a set contains a union exactly when it contains both parts.
pub proof fn lemma_contains_laws(a: ParamFlags, b: ParamFlags, c: ParamFlags)
    ensures
        a.spec_contains(a),
        a.spec_contains(ParamFlags(0)),
        a.spec_contains(b) && b.spec_contains(c) ==> a.spec_contains(c),
        a.spec_contains(ParamFlags(b.0 | c.0)) <==> (a.spec_contains(b) && a.spec_contains(c)),
{
    let (x, y, z) = (a.0, b.0, c.0);
    assert((x & x) == x) by (bit_vector);
    assert((x & 0u32) == 0u32) by (bit_vector);
    assert(((x & y) == y && (y & z) == z) ==> (x & z) == z) by (bit_vector);
    assert((x & (y | z)) == (y | z) <==> ((x & y) == y && (x & z) == z)) by (bit_vector);
}

/// `G_PARAM_READWRITE` holds both the readable and the writable bit.
pub proof fn lemma_readwrite_is_both()
    ensures
        ParamFlags(G_PARAM_READWRITE).spec_readable(),
        ParamFlags(G_PARAM_READWRITE).spec_contains(ParamFlags(G_PARAM_WRITABLE)),
        ParamFlags(G_PARAM_READWRITE).spec_writable_now(),
{
    assert((3u32 & 1u32) == 1u32) by (bit_vector);
    assert((3u32 & 2u32) == 2u32) by (bit_vector);
    assert((3u32 & 8u32) != 8u32) by (bit_vector);
}

/// `GBindingFlags`: the default binding, from source to target only.
pub const G_BINDING_DEFAULT: u32 = 0;

/// `GBindingFlags` bit: the binding goes both ways.
pub const G_BINDING_BIDIRECTIONAL: u32 = 1;

/// `GBindingFlags` bit: the target is set from the source when the binding is made.
pub const G_BINDING_SYNC_CREATE: u32 = 2;

/// `GBindingFlags` bit: boolean values are inverted.
pub const G_BINDING_INVERT_BOOLEAN: u32 = 4;

/// The flags of a property binding (`GBindingFlags`).
#[derive(Clone, Copy, Debug, PartialEq, Eq, Structural, Hash)]
pub struct BindingFlags(pub u32);

/// The identifier of a connected signal handler (a `gulong` handler id).
#[derive(Clone, Copy, Debug, PartialEq, Eq, Structural, Hash)]
pub struct SignalHandlerId(pub u64);

/// The ways an object operation can be refused; each carries the message that
/// callers see.
#[derive(Clone, Copy, Debug, PartialEq, Eq, Structural)]
pub enum BoolError {
    /// The requested type is not a subtype of `GObject`.
    NonObjectType,
    /// GObject returned no instance.
    CannotInstantiate,
    /// The class has no property of that name (setting or getting).
    PropertyNotFound,
    /// The property cannot be written, or only at construction.
    PropertyNotWritable,
    /// The value's type does not conform to the property's type.
    PropertyWrongType,
    /// Validation changed the value and the property is not lax.
    PropertyInvalidValue,
    /// The property cannot be read.
    PropertyNotReadable,
    /// GObject handed back a value of the invalid type.
    PropertyGetFailed,
    /// `has_property`: no property of that name.
    InvalidPropertyName,
    /// `has_property`: the property has another type.
    InvalidPropertyType,
    /// The signal name does not resolve to a signal of the type.
    SignalNotFound,
    /// GObject did not connect the handler.
    SignalConnectFailed,
    /// The number of emission arguments differs from the signal's.
    IncompatibleArgumentCount,
    /// An emission argument has another type than the signal's parameter.
    IncompatibleArgumentTypes,
}

impl BoolError {
    /// The message of each error.
    pub open spec fn spec_message(self) -> Seq<char> {
        match self {
            BoolError::NonObjectType => "Can't instantiate non-GObject objects"@,
            BoolError::CannotInstantiate => "Can't instantiate object"@,
            BoolError::PropertyNotFound => "property not found"@,
            BoolError::PropertyNotWritable => "property is not writable"@,
            BoolError::PropertyWrongType => "property can't be set from the given type"@,
            BoolError::PropertyInvalidValue => "property can't be set from given value, it is invalid or out of range"@,
            BoolError::PropertyNotReadable => "property is not readable"@,
            BoolError::PropertyGetFailed => "Failed to get property value"@,
            BoolError::InvalidPropertyName => "Invalid property name"@,
            BoolError::InvalidPropertyType => "Invalid property type"@,
            BoolError::SignalNotFound => "Signal not found"@,
            BoolError::SignalConnectFailed => "Failed to connect to signal"@,
            BoolError::IncompatibleArgumentCount => "Incompatible number of arguments"@,
            BoolError::IncompatibleArgumentTypes => "Incompatible argument types"@,
        }
    }

    /// The message that describes the error.
    pub fn message(&self) -> (m: &'static str)
        ensures
            m@ == self.spec_message(),
    {
        match self {
            BoolError::NonObjectType => "Can't instantiate non-GObject objects",
            BoolError::CannotInstantiate => "Can't instantiate object",
            BoolError::PropertyNotFound => "property not found",
            BoolError::PropertyNotWritable => "property is not writable",
            BoolError::PropertyWrongType => "property can't be set from the given type",
            BoolError::PropertyInvalidValue => "property can't be set from given value, it is invalid or out of range",
            BoolError::PropertyNotReadable => "property is not readable",
            BoolError::PropertyGetFailed => "Failed to get property value",
            BoolError::InvalidPropertyName => "Invalid property name",
            BoolError::InvalidPropertyType => "Invalid property type",
            BoolError::SignalNotFound => "Signal not found",
            BoolError::SignalConnectFailed => "Failed to connect to signal",
            BoolError::IncompatibleArgumentCount => "Incompatible number of arguments",
            BoolError::IncompatibleArgumentTypes => "Incompatible argument types",
        }
    }
}

} // verus!
