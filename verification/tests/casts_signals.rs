use std::cmp::Ordering;

use glib_object::binding::{
    transform_binding_ok, transform_reply, transform_source_ok, transform_value_count_ok,
    BindingBuilder,
};
use glib_object::object::Object;
use glib_object::signal::{
    check_handler_return, connected, emission_values, emitted_value, notify_signal_name,
    signal_lookup, HandlerReturn, SignalLookup, SignalQuery,
};
use glib_object::types::{
    BindingFlags, BoolError, SignalHandlerId, Type, G_BINDING_BIDIRECTIONAL, G_BINDING_DEFAULT,
    G_BINDING_SYNC_CREATE, G_TYPE_INVALID, G_TYPE_NONE, G_TYPE_OBJECT,
};
use glib_object::weak::{SendWeakRef, WeakRef};

const G_TYPE_INT: usize = 24;
const G_TYPE_STRING: usize = 64;
const BUTTON: usize = 0x7000;
const WIDGET: usize = 0x6000;

fn button() -> Object {
    Object { ptr: 0x1000, static_type: Type(BUTTON), type_: Type(BUTTON) }
}

#[test]
fn upcast_then_downcast_back() {
    let b = button();
    let w = b.upcast(Type(WIDGET), true);
    assert_eq!(w.static_type, Type(WIDGET));
    assert_eq!(w.ptr, b.ptr);
    assert_eq!(w.get_type(), Type(BUTTON));
    let back = w.downcast(Type(BUTTON), true).unwrap();
    assert_eq!(back.static_type, Type(BUTTON));
    assert_eq!(back.ptr, b.ptr);
    assert!(w.downcast_ref(Type(BUTTON), true).is_some());
}

#[test]
fn casts_compare_by_instance() {
    let b = button();
    assert!(b == b.upcast_ref(Type(WIDGET), true));
    assert!(b != Object { ptr: 0x1008, ..b });
}

#[test]
fn failed_casts_give_back_the_object() {
    let w = button().upcast(Type(WIDGET), true);
    let e = w.downcast(Type(0x8000), false).unwrap_err();
    assert_eq!(e.static_type, Type(WIDGET));
    assert_eq!(e.ptr, 0x1000);
    assert!(w.downcast_ref(Type(0x8000), false).is_none());
    assert!(w.dynamic_cast_ref(Type(0x8000), false).is_none());
    let e = w.dynamic_cast(Type(0x8000), false).unwrap_err();
    assert_eq!(e.static_type, Type(WIDGET));
}

#[test]
fn dynamic_casts() {
    let b = button();
    let w = b.dynamic_cast(Type(WIDGET), true).unwrap();
    assert_eq!(w.static_type, Type(WIDGET));
    let r = w.dynamic_cast_ref(Type(BUTTON), true).unwrap();
    assert_eq!(r.static_type, Type(BUTTON));
    assert_eq!(b.upcast(Type(BUTTON), true).static_type, b.static_type);
}

#[test]
fn signal_resolution() {
    assert_eq!(signal_lookup(false, 0, 0), Err(BoolError::SignalNotFound));
    let l = signal_lookup(true, 12, 7).unwrap();
    assert_eq!(l, SignalLookup { signal_id: 12, detail: 7 });
    let q = SignalQuery { signal_id: 12, return_type: G_TYPE_INT | 1, param_types: vec![] };
    assert_eq!(l.check_query(&q), Ok(Type(G_TYPE_INT)));
    let other = SignalQuery { signal_id: 0, return_type: G_TYPE_NONE, param_types: vec![] };
    assert_eq!(l.check_query(&other), Err(BoolError::SignalNotFound));
    assert_eq!(button().connect(&l, &q), Ok(Type(G_TYPE_INT)));
    assert_eq!(button().connect(&l, &other), Err(BoolError::SignalNotFound));
}

#[test]
fn emission_argument_checks() {
    let q = SignalQuery {
        signal_id: 3,
        return_type: G_TYPE_NONE,
        param_types: vec![G_TYPE_INT, G_TYPE_STRING | 1],
    };
    assert_eq!(q.check_arguments(&[Type(G_TYPE_INT)]), Err(BoolError::IncompatibleArgumentCount));
    assert_eq!(
        q.check_arguments(&[Type(G_TYPE_INT), Type(G_TYPE_INT)]),
        Err(BoolError::IncompatibleArgumentTypes)
    );
    assert_eq!(q.check_arguments(&[Type(G_TYPE_INT), Type(G_TYPE_STRING)]), Ok(()));
    let l = SignalLookup { signal_id: 3, detail: 0 };
    let b = button();
    assert_eq!(b.emit(&l, &q, &[Type(G_TYPE_INT), Type(G_TYPE_STRING)]), Ok(None));
    assert_eq!(b.emit(&l, &q, &[]), Err(BoolError::IncompatibleArgumentCount));
    let l2 = SignalLookup { signal_id: 4, detail: 0 };
    assert_eq!(b.emit(&l2, &q, &[Type(G_TYPE_INT), Type(G_TYPE_STRING)]), Err(BoolError::SignalNotFound));
    let q2 = SignalQuery { signal_id: 3, return_type: G_TYPE_INT, param_types: vec![] };
    assert_eq!(b.emit(&l, &q2, &[]), Ok(Some(G_TYPE_INT)));
    assert_eq!(q2.return_value_type(), Some(G_TYPE_INT));
    assert_eq!(q.return_value_type(), None);
}

#[test]
fn emission_values_put_instance_first() {
    assert_eq!(emission_values(0, vec![1, 2, 3]), vec![0, 1, 2, 3]);
    assert_eq!(emission_values("self", vec![]), vec!["self"]);
    let many: Vec<u32> = (1..=12).collect();
    let all = emission_values(0u32, many);
    assert_eq!(all.len(), 13);
    assert_eq!(all[0], 0);
    assert_eq!(all[12], 12);
}

#[test]
fn emission_return_values() {
    assert!(emitted_value(Type(G_TYPE_INT)));
    assert!(!emitted_value(Type(G_TYPE_NONE)));
    assert!(!emitted_value(Type(G_TYPE_INVALID)));
}

#[test]
fn handler_connection() {
    assert_eq!(connected(0), Err(BoolError::SignalConnectFailed));
    assert_eq!(connected(42), Ok(SignalHandlerId(42)));
}

#[test]
fn handler_return_verdicts() {
    let unit = Type(G_TYPE_NONE);
    let int = Type(G_TYPE_INT);
    assert_eq!(check_handler_return(unit, false, false), HandlerReturn::Accept);
    assert_eq!(check_handler_return(unit, true, true), HandlerReturn::UnexpectedValue);
    assert_eq!(check_handler_return(int, true, true), HandlerReturn::Accept);
    assert_eq!(check_handler_return(int, true, false), HandlerReturn::WrongType);
    assert_eq!(check_handler_return(int, false, false), HandlerReturn::MissingValue);
}

#[test]
fn notify_names() {
    assert_eq!(notify_signal_name(Some("label")), "notify::label");
    assert_eq!(notify_signal_name(None), "notify");
    assert_eq!(notify_signal_name(Some("")), "notify::");
}

#[test]
fn weak_references() {
    let b = button();
    let w = b.downgrade();
    assert_eq!(w.upgrade(true).map(|o| o.ptr), Some(b.ptr));
    assert_eq!(w.upgrade(true).map(|o| o.static_type), Some(Type(BUTTON)));
    assert!(w.upgrade(false).is_none());
    assert!(WeakRef::new().upgrade(true).is_none());
    assert!(WeakRef::default().upgrade(true).is_none());
    let c = w.clone();
    assert_eq!(c.upgrade(true).map(|o| o.ptr), Some(b.ptr));
}

#[test]
fn send_weak_references() {
    let b = button();
    let s = SendWeakRef::from_weak_ref(b.downgrade(), 1);
    assert!(s.usable_on(1));
    assert!(!s.usable_on(2));
    assert_eq!(s.deref(1).upgrade(true).map(|o| o.ptr), Some(b.ptr));
    let w = s.clone().into_weak_ref(1);
    assert_eq!(w.upgrade(true).map(|o| o.ptr), Some(b.ptr));
    let n = SendWeakRef::new();
    assert!(n.usable_on(1) && n.usable_on(99));
    assert!(n.into_weak_ref(5).upgrade(true).is_none());
    assert!(SendWeakRef::default().thread.is_none());
}

#[test]
fn binding_builder() {
    let source = button();
    let target = Object { ptr: 0x3000, static_type: Type(G_TYPE_OBJECT), type_: Type(WIDGET) };
    let b: BindingBuilder<u8> = source.bind_property("label", &target, "title");
    assert_eq!(b.flags, BindingFlags(G_BINDING_DEFAULT));
    assert!(b.transform_to.is_none() && b.transform_from.is_none());
    assert_eq!(b.source_property, "label");
    assert_eq!(b.target_property, "title");
    let b = b.flags(BindingFlags(G_BINDING_BIDIRECTIONAL | G_BINDING_SYNC_CREATE)).transform_to(1).transform_from(2);
    assert_eq!(b.flags, BindingFlags(3));
    assert_eq!(b.transform_to, Some(1));
    assert_eq!(b.transform_from, Some(2));
    assert_eq!(b.source.ptr, 0x1000);
    assert_eq!(b.target.ptr, 0x3000);
    let b = b.transform_to(5);
    assert_eq!(b.transform_to, Some(5));
    assert_eq!(b.transform_from, Some(2));
    assert_eq!(b.flags, BindingFlags(3));
}

#[test]
fn static_scope_bit() {
    assert_eq!(Type::from_signal_type(G_TYPE_INT | 1), Type(G_TYPE_INT));
    assert_eq!(Type::from_signal_type(G_TYPE_INT), Type(G_TYPE_INT));
    assert_eq!(Type::from_signal_type(G_TYPE_NONE), Type(G_TYPE_NONE));
    let t = Type::from_signal_type(0x12345);
    assert_eq!(Type::from_signal_type(t.0), t);
}

#[test]
fn order_by_instance() {
    let a = button();
    let b = Object { ptr: 0x2000, ..a };
    assert_eq!(a.partial_cmp(&b), Some(Ordering::Less));
    assert_eq!(b.partial_cmp(&a), Some(Ordering::Greater));
    assert_eq!(a.partial_cmp(&a.upcast(Type(WIDGET), true)), Some(Ordering::Equal));
    assert!(a < b);
}

#[test]
fn transformation_replies() {
    assert_eq!(transform_reply::<u32>(None), (false, None));
    assert_eq!(transform_reply(Some(7u32)), (true, Some(7)));
}

#[test]
fn transformation_arguments() {
    assert!(transform_value_count_ok(3));
    assert!(!transform_value_count_ok(2));
    assert!(!transform_value_count_ok(4));
    assert!(transform_source_ok(false));
    assert!(!transform_source_ok(true));
}

#[test]
fn unchecked_downcasts() {
    let w = button().upcast(Type(WIDGET), true);
    let b = w.downcast_ref_unchecked(Type(BUTTON), true);
    assert_eq!(b.static_type, Type(BUTTON));
    assert_eq!(b.ptr, w.ptr);
    let b = w.downcast_unchecked(Type(BUTTON), true);
    assert_eq!(b.static_type, Type(BUTTON));
    assert_eq!(b.get_type(), Type(BUTTON));
}

#[test]
fn transformation_argument_verdicts() {
    assert!(transform_binding_ok(true));
    assert!(!transform_binding_ok(false));
}
