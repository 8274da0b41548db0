use vstd::prelude::*;

use crate::object::Object;
use crate::types::{
    spec_without_static_scope, BoolError, SignalHandlerId, Type, G_TYPE_FLAG_RESERVED_ID_BIT,
    G_TYPE_NONE,
};

verus! {

/// A signal that a detailed signal name resolved to: the signal and the detail.
#[derive(Clone, Copy, Debug, PartialEq, Eq, Structural)]
pub struct SignalLookup {
    pub signal_id: u32,
    pub detail: u32,
}

/// What GObject reports of a signal (`GSignalQuery`): the id it reports for, and
/// the return and parameter types as the signal declares them, static-scope bit
/// included.
#[derive(Debug)]
pub struct SignalQuery {
    pub signal_id: u32,
    pub return_type: usize,
    pub param_types: Vec<usize>,
}

/// The outcome of resolving a detailed signal name (`found`, and the signal and
/// detail that `g_signal_parse_name` filled in).
pub fn signal_lookup(found: bool, signal_id: u32, detail: u32) -> (r: Result<SignalLookup, BoolError>)
    ensures
        found ==> r == Ok::<SignalLookup, BoolError>(SignalLookup { signal_id, detail }),
        !found ==> r == Err::<SignalLookup, BoolError>(BoolError::SignalNotFound),
{
    if !found {
        return Err(BoolError::SignalNotFound);
    }
    Ok(SignalLookup { signal_id, detail })
}

impl SignalLookup {
    /// Checks that the query describes the signal that was found, and gives the
    /// signal's return type without the static-scope bit.
    pub fn check_query(&self, query: &SignalQuery) -> (r: Result<Type, BoolError>)
        ensures
            query.signal_id == self.signal_id ==> r == Ok::<Type, BoolError>(
                Type(spec_without_static_scope(query.return_type)),
            ),
            query.signal_id != self.signal_id ==> r == Err::<Type, BoolError>(
                BoolError::SignalNotFound,
            ),
    {
        if query.signal_id != self.signal_id {
            return Err(BoolError::SignalNotFound);
        }
        Ok(Type::from_signal_type(query.return_type))
    }
}

/// Whether the emission arguments' types are, one for one, the signal's parameter
/// types without the static-scope bit.
pub open spec fn spec_arguments_match(param_types: Seq<usize>, arg_types: Seq<Type>) -> bool {
    &&& param_types.len() == arg_types.len()
    &&& forall|i: int|
        0 <= i < param_types.len() ==> spec_without_static_scope(#[trigger] param_types[i])
            == arg_types[i].0
}

impl SignalQuery {
    /// Checks the arguments of an emission against the signal's parameters: their
    /// number first, then each type.
    pub fn check_arguments(&self, arg_types: &[Type]) -> (r: Result<(), BoolError>)
        ensures
            self.param_types@.len() != arg_types@.len() ==> r == Err::<(), BoolError>(
                BoolError::IncompatibleArgumentCount,
            ),
            self.param_types@.len() == arg_types@.len() ==> (r is Ok <==> spec_arguments_match(
                self.param_types@,
                arg_types@,
            )),
            self.param_types@.len() == arg_types@.len() && r is Err ==> r == Err::<(), BoolError>(
                BoolError::IncompatibleArgumentTypes,
            ),
    {
        let n = self.param_types.len();
        if n != arg_types.len() {
            return Err(BoolError::IncompatibleArgumentCount);
        }
        let mut i: usize = 0;
        while i < n
            invariant
                n == self.param_types@.len(),
                n == arg_types@.len(),
                i <= n,
                forall|j: int|
                    0 <= j < i ==> spec_without_static_scope(#[trigger] self.param_types@[j])
                        == arg_types@[j].0,
            decreases n - i,
        {
            let arg_type = self.param_types[i] & !G_TYPE_FLAG_RESERVED_ID_BIT;
            if arg_type != arg_types[i].0 {
                return Err(BoolError::IncompatibleArgumentTypes);
            }
            i = i + 1;
        }
        Ok(())
    }

    /// The type to prepare the return value with before an emission: the declared
    /// return type, unless the signal returns nothing.
    pub fn return_value_type(&self) -> (r: Option<usize>)
        ensures
            self.return_type == G_TYPE_NONE ==> r is None,
            self.return_type != G_TYPE_NONE ==> r == Some(self.return_type),
    {
        if self.return_type != G_TYPE_NONE {
            Some(self.return_type)
        } else {
            None
        }
    }
}

/// The values handed to an emission: the instance first, then the arguments in order.
pub fn emission_values<V>(instance: V, args: Vec<V>) -> (r: Vec<V>)
    ensures
        r@ == seq![instance] + args@,
{
    let mut args = args;
    let mut r: Vec<V> = Vec::new();
    r.push(instance);
    r.append(&mut args);
    r
}

/// The verdict on an emission, from the signal it resolved to, what GObject
/// reports of that signal, and the arguments' types: the type to prepare the
/// return value with (none for a signal without return value), or why the
/// emission is refused.
pub open spec fn spec_emit(lookup: SignalLookup, query: SignalQuery, arg_types: Seq<Type>) -> Result<
    Option<usize>,
    BoolError,
> {
    if query.signal_id != lookup.signal_id {
        Err(BoolError::SignalNotFound)
    } else if query.param_types@.len() != arg_types.len() {
        Err(BoolError::IncompatibleArgumentCount)
    } else if !spec_arguments_match(query.param_types@, arg_types) {
        Err(BoolError::IncompatibleArgumentTypes)
    } else if query.return_type == G_TYPE_NONE {
        Ok(None)
    } else {
        Ok(Some(query.return_type))
    }
}

impl Object {
    /// Checks a connection to a signal of this object: the query must describe the
    /// signal that the name resolved to. Gives the return type that the handler's
    /// results are judged against.
    pub fn connect(&self, lookup: &SignalLookup, query: &SignalQuery) -> (r: Result<Type, BoolError>)
        ensures
            r == (if query.signal_id == lookup.signal_id {
                Ok::<Type, BoolError>(Type(spec_without_static_scope(query.return_type)))
            } else {
                Err::<Type, BoolError>(BoolError::SignalNotFound)
            }),
    {
        lookup.check_query(query)
    }

    /// Checks an emission of a signal of this object with arguments of the given
    /// types.
    pub fn emit(&self, lookup: &SignalLookup, query: &SignalQuery, arg_types: &[Type]) -> (r: Result<
        Option<usize>,
        BoolError,
    >)
        ensures
            r == spec_emit(*lookup, *query, arg_types@),
    {
        let _ = lookup.check_query(query)?;
        query.check_arguments(arg_types)?;
        Ok(query.return_value_type())
    }
}

/// An emission goes ahead exactly when the query is for the signal found and the
/// arguments match the parameters one for one; it prepares a return value exactly
/// when the signal returns one.
pub proof fn lemma_emit_accepted(lookup: SignalLookup, query: SignalQuery, arg_types: Seq<Type>)
    ensures
        spec_emit(lookup, query, arg_types) is Ok <==> (query.signal_id == lookup.signal_id
            && spec_arguments_match(query.param_types@, arg_types)),
        spec_emit(lookup, query, arg_types) matches Ok(init) ==> (init is None <==> query.return_type
            == G_TYPE_NONE),
{
}

/// Whether an emission gave back a value, from the type of the return value after
/// the emission: neither the unit type nor the invalid type.
pub fn emitted_value(return_value_type: Type) -> (b: bool)
    ensures
        b == !(return_value_type.spec_is_unit() || return_value_type.spec_is_invalid()),
{
    !return_value_type.is_unit() && !return_value_type.is_invalid()
}

/// The outcome of connecting a handler, from the handler id GObject returned
/// (0 where it did not connect).
pub fn connected(handler: u64) -> (r: Result<SignalHandlerId, BoolError>)
    ensures
        handler == 0 ==> r == Err::<SignalHandlerId, BoolError>(BoolError::SignalConnectFailed),
        handler != 0 ==> r == Ok::<SignalHandlerId, BoolError>(SignalHandlerId(handler)),
{
    if handler == 0 {
        Err(BoolError::SignalConnectFailed)
    } else {
        Ok(SignalHandlerId(handler))
    }
}

/// The verdict on what a connected handler returned.
#[derive(Clone, Copy, Debug, PartialEq, Eq, Structural)]
pub enum HandlerReturn {
    /// The return value is passed on.
    Accept,
    /// The signal returns nothing but the handler gave a value.
    UnexpectedValue,
    /// The handler's value is not of the signal's return type.
    WrongType,
    /// The signal returns a value but the handler gave none.
    MissingValue,
}

/// The verdict on a handler's return, from the signal's return type, whether the
/// handler gave a value, and whether that value conforms to the return type
/// (`holds`: what `g_type_check_value_holds` answered; read only when a value was
/// given and one is expected).
pub open spec fn spec_handler_return(return_type: Type, has_value: bool, holds: bool) -> HandlerReturn {
    if return_type.spec_is_unit() {
        if has_value {
            HandlerReturn::UnexpectedValue
        } else {
            HandlerReturn::Accept
        }
    } else if !has_value {
        HandlerReturn::MissingValue
    } else if !holds {
        HandlerReturn::WrongType
    } else {
        HandlerReturn::Accept
    }
}

/// Judges what a connected handler returned.
pub fn check_handler_return(return_type: Type, has_value: bool, holds: bool) -> (r: HandlerReturn)
    ensures
        r == spec_handler_return(return_type, has_value, holds),
{
    if return_type.is_unit() {
        if has_value {
            HandlerReturn::UnexpectedValue
        } else {
            HandlerReturn::Accept
        }
    } else {
        if has_value {
            if !holds {
                HandlerReturn::WrongType
            } else {
                HandlerReturn::Accept
            }
        } else {
            HandlerReturn::MissingValue
        }
    }
}

/// The detailed signal that a property-change handler connects to: `notify::` and
/// the property name, or plain `notify` for every property.
pub fn notify_signal_name(name: Option<&str>) -> (r: String)
    ensures
        name matches Some(n) ==> r@ == "notify::"@ + n@,
        name is None ==> r@ == "notify"@,
{
    match name {
        Some(n) => String::from_str("notify::").concat(n),
        None => String::from_str("notify"),
    }
}

/// A handler accepts exactly what the signal expects: nothing for a signal
/// without a return type, and a conforming value otherwise.
pub proof fn lemma_handler_return_accepts(return_type: Type, has_value: bool, holds: bool)
    ensures
        spec_handler_return(return_type, has_value, holds) == HandlerReturn::Accept <==> (
        if return_type.spec_is_unit() {
            !has_value
        } else {
            has_value && holds
        }),
{
}

/// An accepted emission prepares its return value with the signal's own declared
/// return type, never with anything taken from the arguments, and prepares none
/// exactly when the signal returns nothing; two argument lists that both match
/// the parameters are judged the same.
pub proof fn lemma_emit_return_type(
    lookup: SignalLookup,
    query: SignalQuery,
    args: Seq<Type>,
    other: Seq<Type>,
)
    ensures
        spec_emit(lookup, query, args) matches Ok(Some(t)) ==> t == query.return_type,
        spec_emit(lookup, query, args) matches Ok(init) ==> (init is None <==> query.return_type
            == G_TYPE_NONE),
        (query.signal_id == lookup.signal_id && spec_arguments_match(query.param_types@, args)
            && query.return_type != G_TYPE_NONE) ==> spec_emit(lookup, query, args) == Ok::<
            Option<usize>,
            BoolError,
        >(Some(query.return_type)),
        (spec_arguments_match(query.param_types@, args) && spec_arguments_match(
            query.param_types@,
            other,
        )) ==> spec_emit(lookup, query, args) == spec_emit(lookup, query, other),
{
}

/// Emission arguments match exactly when there are as many as parameters and
/// each argument's type is its parameter's declared type with the low
/// (static-scope) bit cleared; a parameter declared without that bit must be
/// matched by exactly its own type.
pub proof fn lemma_arguments_match_bitwise(params: Seq<usize>, args: Seq<Type>, i: int)
    ensures
        spec_arguments_match(params, args) ==> params.len() == args.len(),
        spec_arguments_match(params, args) && 0 <= i < params.len() ==> args[i].0 == params[i]
            & !1usize,
        spec_arguments_match(params, args) && 0 <= i < params.len() && params[i] % 2 == 0
            ==> args[i].0 == params[i],
        (params.len() == args.len() && forall|j: int|
            0 <= j < params.len() ==> #[trigger] args[j].0 == params[j] & !1usize)
            ==> spec_arguments_match(params, args),
{
    if 0 <= i < params.len() {
        let x = params[i];
        assert(x % 2 == 0 ==> (x & !1usize) == x) by (bit_vector);
    }
}

} // verus!
