use vstd::prelude::*;

mod invoke;
mod laws;

pub use laws::invoke_chained;
pub use laws::invoke_exclusive;
pub use laws::invoke_owned;
pub use laws::invoke_shared;

verus! {

/// Pairs a captured receiver with a captured extension callable, to be
/// consumed by exactly one invocation (`pass`).
///
/// `Args` is a compile-time-only marker recording the expected trailing
/// argument types; it carries no runtime data and only selects which
/// invocation rule applies. The invocation rules cover arities zero through
/// twelve; a call with more trailing arguments matches no rule and is
/// rejected when the call is type-checked.
pub struct PartiallyApplied<This, Ext, Args> {
    this: This,
    extension: Ext,
    args: core::marker::PhantomData<Args>,
}

impl<This, Ext, Args> PartiallyApplied<This, Ext, Args> {
    /// The captured receiver.
    pub closed spec fn receiver(self) -> This {
        self.this
    }

    /// The captured extension callable.
    pub closed spec fn ext_fn(self) -> Ext {
        self.extension
    }
}

/// Captures a receiver together with an extension callable, under one of
/// three ownership modes. Implemented for every sized type.
pub trait PartiallyApply: Sized {
    /// Capture the receiver by value: the applicator becomes its sole owner.
    fn apply<Ext, Args>(self, extension: Ext) -> (r: PartiallyApplied<Self, Ext, Args>)
        ensures
            r.receiver() == self,
            r.ext_fn() == extension,
    {
        PartiallyApplied { this: self, extension, args: core::marker::PhantomData }
    }

    /// Capture the receiver by read-only reference: neither the capture nor
    /// the later invocation can mutate the receiver.
    fn apply_ref<Ext, Args>(&self, extension: Ext) -> (r: PartiallyApplied<&Self, Ext, Args>)
        ensures
            r.receiver() == self,
            r.ext_fn() == extension,
    {
        PartiallyApplied { this: self, extension, args: core::marker::PhantomData }
    }

    /// Capture the receiver by exclusive reference: mutations the extension
    /// makes through the captured reference are the receiver's value after
    /// the invocation.
    fn apply_mut<Ext, Args>(&mut self, extension: Ext) -> (r: PartiallyApplied<&mut Self, Ext, Args>)
        ensures
            *r.receiver() == *old(self),
            *final(r.receiver()) == *final(self),
            r.ext_fn() == extension,
    {
        PartiallyApplied { this: self, extension, args: core::marker::PhantomData }
    }
}

impl<T> PartiallyApply for T {
}

} // verus!
