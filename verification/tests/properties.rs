use glib_object::class::{ObjectClass, ParamSpec};
use glib_object::object::{
    fetched_value_verdict, has_interior_nul, validation_verdict, value_type_verdict, Object,
    Ownership, PropertyWrite,
};
use glib_object::types::{
    BoolError, ParamFlags, Type, G_PARAM_CONSTRUCT, G_PARAM_CONSTRUCT_ONLY, G_PARAM_LAX_VALIDATION,
    G_PARAM_READABLE, G_PARAM_READWRITE, G_PARAM_WRITABLE, G_TYPE_INVALID, G_TYPE_NONE,
    G_TYPE_OBJECT,
};

const G_TYPE_INT: usize = 24;
const G_TYPE_STRING: usize = 64;

fn object() -> Object {
    Object { ptr: 0x1000, static_type: Type(G_TYPE_OBJECT), type_: Type(0x5000) }
}

fn spec(value_type: usize, flags: u32) -> ParamSpec {
    ParamSpec { value_type: Type(value_type), flags: ParamFlags(flags) }
}

#[test]
fn param_flags_contains() {
    let rw = ParamFlags(G_PARAM_READWRITE);
    assert!(rw.contains(ParamFlags(G_PARAM_READABLE)));
    assert!(rw.contains(ParamFlags(G_PARAM_WRITABLE)));
    assert!(!rw.contains(ParamFlags(G_PARAM_CONSTRUCT_ONLY)));
    assert!(rw.contains(ParamFlags(0)));
    assert!(!ParamFlags(G_PARAM_READABLE).contains(rw));
    assert!(ParamFlags(G_PARAM_WRITABLE | G_PARAM_CONSTRUCT).contains(ParamFlags(G_PARAM_CONSTRUCT)));
}

#[test]
fn property_type_from_lookup() {
    let class = ObjectClass { type_: Type(0x5000) };
    assert_eq!(class.get_property_type(Some(spec(G_TYPE_INT, G_PARAM_READWRITE))), Some(Type(G_TYPE_INT)));
    assert_eq!(class.get_property_type(None), None);
    assert_eq!(object().get_property_type(Some(spec(G_TYPE_STRING, G_PARAM_READABLE))), Some(Type(G_TYPE_STRING)));
}

#[test]
fn has_property_cases() {
    let class = ObjectClass { type_: Type(0x5000) };
    let p = spec(G_TYPE_INT, G_PARAM_READWRITE);
    assert_eq!(class.has_property(None, None), Err(BoolError::InvalidPropertyName));
    assert_eq!(class.has_property(None, Some(Type(G_TYPE_INT))), Err(BoolError::InvalidPropertyName));
    assert_eq!(class.has_property(Some(p), None), Ok(()));
    assert_eq!(class.has_property(Some(p), Some(Type(G_TYPE_INT))), Ok(()));
    assert_eq!(class.has_property(Some(p), Some(Type(G_TYPE_STRING))), Err(BoolError::InvalidPropertyType));
    assert_eq!(object().has_property(Some(p), Some(Type(G_TYPE_STRING))), Err(BoolError::InvalidPropertyType));
}

#[test]
fn has_property_agrees_with_property_type() {
    let class = ObjectClass { type_: Type(0x5000) };
    for found in [None, Some(spec(G_TYPE_INT, 0)), Some(spec(G_TYPE_STRING, G_PARAM_READABLE))] {
        assert_eq!(class.has_property(found, None).is_ok(), class.get_property_type(found).is_some());
        for t in [Type(G_TYPE_INT), Type(G_TYPE_STRING)] {
            assert_eq!(class.has_property(found, Some(t)).is_ok(), class.get_property_type(found) == Some(t));
        }
    }
}

#[test]
fn set_property_first_step() {
    let o = object();
    assert_eq!(o.set_property(None), Err(BoolError::PropertyNotFound));
    assert_eq!(o.set_property(Some(spec(G_TYPE_INT, G_PARAM_READABLE))), Err(BoolError::PropertyNotWritable));
    assert_eq!(
        o.set_property(Some(spec(G_TYPE_INT, G_PARAM_READWRITE | G_PARAM_CONSTRUCT_ONLY))),
        Err(BoolError::PropertyNotWritable)
    );
    let p = spec(G_TYPE_INT, G_PARAM_WRITABLE | G_PARAM_CONSTRUCT);
    assert_eq!(o.set_property(Some(p)), Ok(p));
}

#[test]
fn set_property_value_checks() {
    assert_eq!(value_type_verdict(true), Ok(()));
    assert_eq!(value_type_verdict(false), Err(BoolError::PropertyWrongType));
    let strict = spec(G_TYPE_INT, G_PARAM_READWRITE);
    let lax = spec(G_TYPE_INT, G_PARAM_READWRITE | G_PARAM_LAX_VALIDATION);
    assert_eq!(validation_verdict(&strict, false), Ok(()));
    assert_eq!(validation_verdict(&strict, true), Err(BoolError::PropertyInvalidValue));
    assert_eq!(validation_verdict(&lax, true), Ok(()));
    assert_eq!(validation_verdict(&lax, false), Ok(()));
}

#[test]
fn get_property_steps() {
    let o = object();
    assert_eq!(o.get_property(None), Err(BoolError::PropertyNotFound));
    assert_eq!(o.get_property(Some(spec(G_TYPE_INT, G_PARAM_WRITABLE))), Err(BoolError::PropertyNotReadable));
    let p = spec(G_TYPE_INT, G_PARAM_READABLE);
    assert_eq!(o.get_property(Some(p)), Ok(p));
    assert_eq!(fetched_value_verdict(Type(G_TYPE_INT)), Ok(()));
    assert_eq!(fetched_value_verdict(Type(G_TYPE_NONE)), Ok(()));
    assert_eq!(fetched_value_verdict(Type(G_TYPE_INVALID)), Err(BoolError::PropertyGetFailed));
}

#[test]
fn error_messages() {
    assert_eq!(BoolError::PropertyNotFound.message(), "property not found");
    assert_eq!(BoolError::PropertyNotWritable.message(), "property is not writable");
    assert_eq!(BoolError::PropertyWrongType.message(), "property can't be set from the given type");
    assert_eq!(
        BoolError::PropertyInvalidValue.message(),
        "property can't be set from given value, it is invalid or out of range"
    );
    assert_eq!(BoolError::PropertyNotReadable.message(), "property is not readable");
    assert_eq!(BoolError::PropertyGetFailed.message(), "Failed to get property value");
    assert_eq!(BoolError::InvalidPropertyName.message(), "Invalid property name");
    assert_eq!(BoolError::InvalidPropertyType.message(), "Invalid property type");
    assert_eq!(BoolError::NonObjectType.message(), "Can't instantiate non-GObject objects");
    assert_eq!(BoolError::CannotInstantiate.message(), "Can't instantiate object");
    assert_eq!(BoolError::SignalNotFound.message(), "Signal not found");
    assert_eq!(BoolError::SignalConnectFailed.message(), "Failed to connect to signal");
    assert_eq!(BoolError::IncompatibleArgumentCount.message(), "Incompatible number of arguments");
    assert_eq!(BoolError::IncompatibleArgumentTypes.message(), "Incompatible argument types");
}

#[test]
fn object_construction() {
    assert_eq!(Object::new(Type(G_TYPE_INT), false).err(), Some(BoolError::NonObjectType));
    let c = Object::new(Type(0x5000), true).unwrap();
    assert_eq!(c.type_, Type(0x5000));
    assert_eq!(c.finish(0, true).err(), Some(BoolError::CannotInstantiate));
    let (o, own) = c.finish(0x2000, true).unwrap();
    assert_eq!(own, Ownership::SinkFloating);
    assert_eq!(o.ptr, 0x2000);
    assert_eq!(o.static_type, Type(G_TYPE_OBJECT));
    assert_eq!(o.get_type(), Type(0x5000));
    let (_, own) = c.finish(0x2000, false).unwrap();
    assert_eq!(own, Ownership::TakeFull);
}

#[test]
fn interior_nul_names() {
    assert!(!has_interior_nul("label"));
    assert!(!has_interior_nul(""));
    assert!(has_interior_nul("la\0bel"));
    assert!(has_interior_nul("\0"));
    assert!(!has_interior_nul("étiquette"));
}

#[test]
fn class_of_object() {
    let o = object();
    let class = o.get_object_class();
    assert_eq!(class.get_type(), Type(0x5000));
    assert_eq!(class.upcast_ref(), &class);
    assert_eq!(class.downcast_ref(true), Some(&class));
    assert_eq!(class.downcast_ref(false), None);
    let mut k = class;
    assert!(k.downcast_ref_mut(false).is_none());
    assert_eq!(*k.upcast_ref_mut(), class);
}

#[test]
fn property_write_steps() {
    let o = object();
    let p = spec(G_TYPE_INT, G_PARAM_READWRITE);
    let lax = spec(G_TYPE_INT, G_PARAM_READWRITE | G_PARAM_LAX_VALIDATION);
    assert_eq!(PropertyWrite::begin(&o, None), PropertyWrite::Refused(BoolError::PropertyNotFound));
    assert_eq!(
        PropertyWrite::begin(&o, Some(spec(G_TYPE_INT, G_PARAM_READABLE))),
        PropertyWrite::Refused(BoolError::PropertyNotWritable)
    );
    let start = PropertyWrite::begin(&o, Some(p));
    assert_eq!(start, PropertyWrite::CheckValueType(p));
    assert_eq!(start.next(false), PropertyWrite::Refused(BoolError::PropertyWrongType));
    let validate = start.next(true);
    assert_eq!(validate, PropertyWrite::ValidateValue(p));
    assert_eq!(validate.next(true), PropertyWrite::Refused(BoolError::PropertyInvalidValue));
    assert_eq!(validate.next(false), PropertyWrite::Store(p));
    assert_eq!(PropertyWrite::begin(&o, Some(lax)).next(true).next(true), PropertyWrite::Store(lax));
    let refused = PropertyWrite::Refused(BoolError::PropertyWrongType);
    assert_eq!(refused.next(true), refused);
    assert_eq!(PropertyWrite::Store(p).next(false), PropertyWrite::Store(p));
}
