use vstd::prelude::*;

use crate::PartiallyApply;

verus! {

/// Identity law for a by-value capture: capturing a receiver and invoking at
/// once yields exactly a result of calling the extension directly on it.
pub fn invoke_owned<T, U, F: FnOnce(T) -> U>(receiver: T, extension: F) -> (r: U)
    requires
        call_requires(extension, (receiver,)),
    ensures
        call_ensures(extension, (receiver,), r),
{
    receiver.apply(extension).pass()
}

/// Non-mutation under shared capture: the receiver is borrowed immutably for
/// the capture and for the invocation, so neither can change it, and the
/// result is exactly a result of calling the extension directly on it.
pub fn invoke_shared<T, U, F: FnOnce(&T) -> U>(receiver: &T, extension: F) -> (r: U)
    requires
        call_requires(extension, (receiver,)),
    ensures
        call_ensures(extension, (receiver,), r),
{
    receiver.apply_ref(extension).pass()
}

/// Mutation visibility under exclusive capture: the extension runs on an
/// exclusive reference to the receiver, and whatever it leaves behind
/// through that reference is the receiver's value after the invocation.
pub fn invoke_exclusive<T, U, F: FnOnce(&mut T) -> U>(receiver: &mut T, extension: F) -> (r: U)
    requires
        forall|m: &mut T| *m == *old(receiver) ==> #[trigger] call_requires(extension, (m,)),
    ensures
        exists|m: &mut T|
            (*m == *old(receiver) && *final(m) == *final(receiver) && call_ensures(
                extension,
                (m,),
                r,
            )),
{
    receiver.apply_mut(extension).pass()
}

/// Chaining composability: an invocation's result piped into a second
/// capture and invocation is exactly a composition of the two extensions.
pub fn invoke_chained<T, M, U, A, B, F: FnOnce(T, A) -> M, G: FnOnce(M, B) -> U>(
    receiver: T,
    first: F,
    a: A,
    second: G,
    b: B,
) -> (r: U)
    requires
        call_requires(first, (receiver, a)),
        forall|m: M| call_ensures(first, (receiver, a), m) ==> call_requires(second, (m, b)),
    ensures
        exists|m: M|
            (call_ensures(first, (receiver, a), m) && call_ensures(second, (m, b), r)),
{
    receiver.apply(first).pass(a).apply(second).pass(b)
}

} // verus!
