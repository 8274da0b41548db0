//! The object layer of GLib's type system: property access, signal connection and
//! emission, casts between object types, weak references and property bindings,
//! stated as decisions over the answers that GObject gives.
pub mod types;
pub mod class;
pub mod object;
pub mod signal;
pub mod weak;
pub mod binding;
