use vstd::prelude::*;

use crate::types::{BoolError, ParamFlags, Type};

verus! {

/// What the object logic reads of a property specification (`GParamSpec`): the
/// type of the property's values and its flags.
#[derive(Clone, Copy, Debug, PartialEq, Eq, Structural)]
pub struct ParamSpec {
    pub value_type: Type,
    pub flags: ParamFlags,
}

impl ParamSpec {
    /// The type of the property's values.
    pub fn get_value_type(&self) -> (t: Type)
        ensures
            t == self.value_type,
    {
        self.value_type
    }

    /// The property's flags.
    pub fn get_flags(&self) -> (f: ParamFlags)
        ensures
            f == self.flags,
    {
        self.flags
    }
}

/// The type of a property, from what the class answered for its name.
pub open spec fn spec_property_type(found: Option<ParamSpec>) -> Option<Type> {
    match found {
        Some(pspec) => Some(pspec.value_type),
        None => None,
    }
}

/// Whether a class has a property, and of the given type where one is given, from
/// what the class answered for its name.
pub open spec fn spec_has_property(found: Option<ParamSpec>, type_: Option<Type>) -> Result<
    (),
    BoolError,
> {
    match (spec_property_type(found), type_) {
        (None, _) => Err(BoolError::InvalidPropertyName),
        (Some(_), None) => Ok(()),
        (Some(ptype), Some(t)) => if ptype == t {
            Ok(())
        } else {
            Err(BoolError::InvalidPropertyType)
        },
    }
}

/// A class structure (`GObjectClass`), known by the type that it is the class of.
/// Its property table lives in GObject: `found` below is what
/// `g_object_class_find_property` answered for the property name in question.
#[derive(Clone, Copy, Debug, PartialEq, Eq, Structural)]
pub struct ObjectClass {
    pub type_: Type,
}

impl ObjectClass {
    /// The type that this is the class of.
    pub fn get_type(&self) -> (t: Type)
        ensures
            t == self.type_,
    {
        self.type_
    }

    /// The type of the property that the class found for a name, `None` where it
    /// found none.
    pub fn get_property_type(&self, found: Option<ParamSpec>) -> (r: Option<Type>)
        ensures
            r == spec_property_type(found),
    {
        match found {
            Some(pspec) => Some(pspec.get_value_type()),
            None => None,
        }
    }

    /// Checks that the class has the property that it found for a name, and, where
    /// `type_` is given, that the property is of exactly that type.
    pub fn has_property(&self, found: Option<ParamSpec>, type_: Option<Type>) -> (r: Result<
        (),
        BoolError,
    >)
        ensures
            r == spec_has_property(found, type_),
    {
        let ptype = self.get_property_type(found);
        match (ptype, type_) {
            (None, _) => Err(BoolError::InvalidPropertyName),
            (Some(_), None) => Ok(()),
            (Some(ptype), Some(t)) => {
                if ptype == t {
                    Ok(())
                } else {
                    Err(BoolError::InvalidPropertyType)
                }
            },
        }
    }

    /// Views this class as the class of a parent type: the same structure.
    pub fn upcast_ref(&self) -> (c: &ObjectClass)
        ensures
            *c == *self,
    {
        self
    }

    /// Views this class as the class of a parent type, for writing: the same structure.
    pub fn upcast_ref_mut(&mut self) -> (c: &mut ObjectClass)
        ensures
            *c == *old(self),
            *final(self) == *final(c),
    {
        self
    }

    /// Views this class as the class of a child type, where the class's type is
    /// one (`is_a`: what `g_type_is_a` answered for the class's type and the child
    /// type); `None` otherwise.
    pub fn downcast_ref(&self, is_a: bool) -> (c: Option<&ObjectClass>)
        ensures
            c is Some <==> is_a,
            c matches Some(k) ==> *k == *self,
    {
        if !is_a {
            return None;
        }
        Some(self)
    }

    /// Views this class as the class of a child type, for writing, where the
    /// class's type is one; `None` otherwise.
    pub fn downcast_ref_mut(&mut self, is_a: bool) -> (c: Option<&mut ObjectClass>)
        ensures
            c is Some <==> is_a,
            c matches Some(k) ==> *k == *old(self) && *final(self) == *final(k),
            c is None ==> *final(self) == *old(self),
    {
        if !is_a {
            return None;
        }
        Some(self)
    }
}

/// `has_property` agrees with `get_property_type`: without a type it succeeds
/// exactly when the class knows the property, and with a type exactly when the
/// property has that type.
pub proof fn lemma_has_property_agrees(found: Option<ParamSpec>, t: Type)
    ensures
        spec_has_property(found, None) is Ok <==> spec_property_type(found) is Some,
        spec_has_property(found, Some(t)) is Ok <==> spec_property_type(found) == Some(t),
        spec_property_type(found) is None ==> spec_has_property(found, Some(t)) == Err::<
            (),
            BoolError,
        >(BoolError::InvalidPropertyName),
{
}

/// The type of a found property is that property's value type, whatever its
/// flags; a class has a found property, and has it with its own value type, and
/// has it with any other type only as `InvalidPropertyType`; nothing found is
/// `InvalidPropertyName` however it is asked.
pub proof fn lemma_property_type_is_value_type(p: ParamSpec, flags: ParamFlags, t: Type)
    ensures
        spec_property_type(Some(p)) == Some(p.value_type),
        spec_property_type(Some(ParamSpec { value_type: p.value_type, flags })) == Some(
            p.value_type,
        ),
        spec_property_type(None) is None,
        spec_has_property(Some(p), None) == Ok::<(), BoolError>(()),
        spec_has_property(Some(p), Some(p.value_type)) == Ok::<(), BoolError>(()),
        spec_has_property(Some(ParamSpec { value_type: p.value_type, flags }), Some(p.value_type))
            == Ok::<(), BoolError>(()),
        t != p.value_type ==> spec_has_property(Some(p), Some(t)) == Err::<(), BoolError>(
            BoolError::InvalidPropertyType,
        ),
        spec_has_property(None, Some(t)) == Err::<(), BoolError>(BoolError::InvalidPropertyName),
        spec_has_property(None, None) == Err::<(), BoolError>(BoolError::InvalidPropertyName),
{
}

} // verus!
