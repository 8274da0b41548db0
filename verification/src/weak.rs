use vstd::prelude::*;

use crate::object::Object;

verus! {

/// A weak reference (`GWeakRef`): the object it was made for, if any. It does not
/// keep the object alive; whether the object still lives is GObject's to say.
#[derive(Clone, Copy, Debug)]
pub struct WeakRef {
    pub target: Option<Object>,
}

/// What upgrading a weak reference gives: its object while that object lives
/// (`alive`: `g_weak_ref_get` handed back an instance), nothing otherwise.
pub open spec fn spec_upgrade(w: WeakRef, alive: bool) -> Option<Object> {
    if alive {
        w.target
    } else {
        None
    }
}

impl WeakRef {
    /// A weak reference to nothing.
    pub fn new() -> (w: WeakRef)
        ensures
            w.target is None,
    {
        WeakRef { target: None }
    }

    /// The object, while it lives.
    pub fn upgrade(&self, alive: bool) -> (r: Option<Object>)
        ensures
            r == spec_upgrade(*self, alive),
    {
        if !alive {
            None
        } else {
            self.target
        }
    }
}

impl Default for WeakRef {
    fn default() -> (w: WeakRef)
        ensures
            w.target is None,
    {
        WeakRef::new()
    }
}

impl Object {
    /// A weak reference to this object, presented as the type this reference
    /// presents it as.
    pub fn downgrade(&self) -> (w: WeakRef)
        ensures
            w.target == Some(*self),
    {
        WeakRef { target: Some(*self) }
    }
}

/// A weak reference that may travel between threads: it remembers the thread it
/// was made on, if it was made from a weak reference, and may only be used there.
#[derive(Clone, Copy, Debug)]
pub struct SendWeakRef {
    pub weak: WeakRef,
    pub thread: Option<usize>,
}

impl SendWeakRef {
    /// Whether the reference may be used on the thread `current`: one that was not
    /// made from a weak reference may be used anywhere.
    pub open spec fn spec_usable_on(self, current: usize) -> bool {
        match self.thread {
            None => true,
            Some(t) => t == current,
        }
    }

    /// A sendable weak reference to nothing, usable on every thread.
    pub fn new() -> (s: SendWeakRef)
        ensures
            s.weak.target is None,
            s.thread is None,
    {
        SendWeakRef { weak: WeakRef::new(), thread: None }
    }

    /// Makes a weak reference sendable, tying it to the thread `current` it is
    /// made on.
    pub fn from_weak_ref(v: WeakRef, current: usize) -> (s: SendWeakRef)
        ensures
            s.weak == v,
            s.thread == Some(current),
    {
        SendWeakRef { weak: v, thread: Some(current) }
    }

    /// Whether the reference may be used on the thread `current`.
    pub fn usable_on(&self, current: usize) -> (b: bool)
        ensures
            b == self.spec_usable_on(current),
    {
        match self.thread {
            None => true,
            Some(t) => t == current,
        }
    }

    /// The weak reference back, on a thread where it may be used.
    pub fn into_weak_ref(self, current: usize) -> (w: WeakRef)
        requires
            self.spec_usable_on(current),
        ensures
            w == self.weak,
    {
        self.weak
    }

    /// The weak reference inside, on a thread where it may be used.
    pub fn deref(&self, current: usize) -> (w: &WeakRef)
        requires
            self.spec_usable_on(current),
        ensures
            *w == self.weak,
    {
        &self.weak
    }
}

impl Default for SendWeakRef {
    fn default() -> (s: SendWeakRef)
        ensures
            s.weak.target is None,
            s.thread is None,
    {
        SendWeakRef::new()
    }
}

/// A weak reference made from a live object gives that object back; one made
/// from nothing gives nothing back; and no weak reference gives back an object
/// that no longer lives.
pub proof fn lemma_downgrade_upgrade(o: Object, alive: bool)
    ensures
        spec_upgrade(WeakRef { target: Some(o) }, true) == Some(o),
        spec_upgrade(WeakRef { target: None }, alive) is None,
        forall|w: WeakRef| spec_upgrade(w, false) is None,
{
}

/// A weak reference made sendable on a thread may be used on that thread, gives
/// back the weak reference it was made from there, and may not be used on any
/// other thread; one made from nothing may be used on every thread.
pub proof fn lemma_send_weak_ref_threads(v: WeakRef, made_on: usize, other: usize)
    requires
        other != made_on,
    ensures
        (SendWeakRef { weak: v, thread: Some(made_on) }).spec_usable_on(made_on),
        !(SendWeakRef { weak: v, thread: Some(made_on) }).spec_usable_on(other),
        (SendWeakRef { weak: v, thread: None }).spec_usable_on(other),
{
}

} // verus!
