# glib_object

The object layer of GLib's type system, as a verified library: the decisions
taken around GObject's C interface, each with its contract.

- `src/types.rs` — type identifiers, parameter and binding flags, handler ids,
  the errors and their messages.
- `src/class.rs` — property specifications and class structures: property types,
  `has_property`, class casts.
- `src/object.rs` — object references: casts, property reads, the step-by-step property write, instance
  construction, equality and order by instance.
- `src/signal.rs` — signal resolution, emission checks, handler returns, handler
  connection, change-notification signal names.
- `src/weak.rs` — weak references and thread-bound sendable weak references.
- `src/binding.rs` — property binding descriptions.

GObject's answers (whether a type is a subtype of another, what a class has for a
property name, what a signal query reports, whether a weak reference's object
still lives) reach the library as arguments. `app/` makes the calls into GObject
through `glib-sys` and `gobject-sys` and hands their results to the library.
