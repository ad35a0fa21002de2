use vstd::prelude::*;

use crate::PartiallyApplied;

verus! {

impl<This, U, F: FnOnce(This) -> U> PartiallyApplied<This, F, ()> {
    /// Consume the applicator and call the extension on the receiver alone,
    /// returning exactly what that call returns.
    pub fn pass(self) -> (r: U)
        requires
            call_requires(self.ext_fn(), (self.receiver(),)),
        ensures
            call_ensures(self.ext_fn(), (self.receiver(),), r),
    {
        let Self { this, extension, .. } = self;
        extension(this)
    }
}

impl<This, T0, U, F: FnOnce(This, T0) -> U> PartiallyApplied<This, F, (T0,)> {
    /// Consume the applicator and call the extension on the receiver and one trailing argument,
    /// returning exactly what that call returns.
    pub fn pass(self, arg0: T0) -> (r: U)
        requires
            call_requires(self.ext_fn(), (self.receiver(), arg0)),
        ensures
            call_ensures(self.ext_fn(), (self.receiver(), arg0), r),
    {
        let Self { this, extension, .. } = self;
        extension(this, arg0)
    }
}

impl<This, T0, T1, U, F: FnOnce(This, T0, T1) -> U> PartiallyApplied<This, F, (T0, T1)> {
    /// Consume the applicator and call the extension on the receiver and two trailing arguments,
    /// returning exactly what that call returns.
    pub fn pass(self, arg0: T0, arg1: T1) -> (r: U)
        requires
            call_requires(self.ext_fn(), (self.receiver(), arg0, arg1)),
        ensures
            call_ensures(self.ext_fn(), (self.receiver(), arg0, arg1), r),
    {
        let Self { this, extension, .. } = self;
        extension(this, arg0, arg1)
    }
}

impl<This, T0, T1, T2, U, F: FnOnce(This, T0, T1, T2) -> U> PartiallyApplied<This, F, (T0, T1, T2)> {
    /// Consume the applicator and call the extension on the receiver and three trailing arguments,
    /// returning exactly what that call returns.
    pub fn pass(self, arg0: T0, arg1: T1, arg2: T2) -> (r: U)
        requires
            call_requires(self.ext_fn(), (self.receiver(), arg0, arg1, arg2)),
        ensures
            call_ensures(self.ext_fn(), (self.receiver(), arg0, arg1, arg2), r),
    {
        let Self { this, extension, .. } = self;
        extension(this, arg0, arg1, arg2)
    }
}

impl<This, T0, T1, T2, T3, U, F: FnOnce(This, T0, T1, T2, T3) -> U> PartiallyApplied<This, F, (T0, T1, T2, T3)> {
    /// Consume the applicator and call the extension on the receiver and four trailing arguments,
    /// returning exactly what that call returns.
    pub fn pass(self, arg0: T0, arg1: T1, arg2: T2, arg3: T3) -> (r: U)
        requires
            call_requires(self.ext_fn(), (self.receiver(), arg0, arg1, arg2, arg3)),
        ensures
            call_ensures(self.ext_fn(), (self.receiver(), arg0, arg1, arg2, arg3), r),
    {
        let Self { this, extension, .. } = self;
        extension(this, arg0, arg1, arg2, arg3)
    }
}

impl<This, T0, T1, T2, T3, T4, U, F: FnOnce(This, T0, T1, T2, T3, T4) -> U> PartiallyApplied<This, F, (T0, T1, T2, T3, T4)> {
    /// Consume the applicator and call the extension on the receiver and five trailing arguments,
    /// returning exactly what that call returns.
    pub fn pass(self, arg0: T0, arg1: T1, arg2: T2, arg3: T3, arg4: T4) -> (r: U)
        requires
            call_requires(self.ext_fn(), (self.receiver(), arg0, arg1, arg2, arg3, arg4)),
        ensures
            call_ensures(self.ext_fn(), (self.receiver(), arg0, arg1, arg2, arg3, arg4), r),
    {
        let Self { this, extension, .. } = self;
        extension(this, arg0, arg1, arg2, arg3, arg4)
    }
}

impl<This, T0, T1, T2, T3, T4, T5, U, F: FnOnce(This, T0, T1, T2, T3, T4, T5) -> U> PartiallyApplied<This, F, (T0, T1, T2, T3, T4, T5)> {
    /// Consume the applicator and call the extension on the receiver and six trailing arguments,
    /// returning exactly what that call returns.
    pub fn pass(self, arg0: T0, arg1: T1, arg2: T2, arg3: T3, arg4: T4, arg5: T5) -> (r: U)
        requires
            call_requires(self.ext_fn(), (self.receiver(), arg0, arg1, arg2, arg3, arg4, arg5)),
        ensures
            call_ensures(self.ext_fn(), (self.receiver(), arg0, arg1, arg2, arg3, arg4, arg5), r),
    {
        let Self { this, extension, .. } = self;
        extension(this, arg0, arg1, arg2, arg3, arg4, arg5)
    }
}

impl<This, T0, T1, T2, T3, T4, T5, T6, U, F: FnOnce(This, T0, T1, T2, T3, T4, T5, T6) -> U> PartiallyApplied<This, F, (T0, T1, T2, T3, T4, T5, T6)> {
    /// Consume the applicator and call the extension on the receiver and seven trailing arguments,
    /// returning exactly what that call returns.
    pub fn pass(self, arg0: T0, arg1: T1, arg2: T2, arg3: T3, arg4: T4, arg5: T5, arg6: T6) -> (r: U)
        requires
            call_requires(self.ext_fn(), (self.receiver(), arg0, arg1, arg2, arg3, arg4, arg5, arg6)),
        ensures
            call_ensures(self.ext_fn(), (self.receiver(), arg0, arg1, arg2, arg3, arg4, arg5, arg6), r),
    {
        let Self { this, extension, .. } = self;
        extension(this, arg0, arg1, arg2, arg3, arg4, arg5, arg6)
    }
}

impl<This, T0, T1, T2, T3, T4, T5, T6, T7, U, F: FnOnce(This, T0, T1, T2, T3, T4, T5, T6, T7) -> U> PartiallyApplied<This, F, (T0, T1, T2, T3, T4, T5, T6, T7)> {
    /// Consume the applicator and call the extension on the receiver and eight trailing arguments,
    /// returning exactly what that call returns.
    pub fn pass(self, arg0: T0, arg1: T1, arg2: T2, arg3: T3, arg4: T4, arg5: T5, arg6: T6, arg7: T7) -> (r: U)
        requires
            call_requires(self.ext_fn(), (self.receiver(), arg0, arg1, arg2, arg3, arg4, arg5, arg6, arg7)),
        ensures
            call_ensures(self.ext_fn(), (self.receiver(), arg0, arg1, arg2, arg3, arg4, arg5, arg6, arg7), r),
    {
        let Self { this, extension, .. } = self;
        extension(this, arg0, arg1, arg2, arg3, arg4, arg5, arg6, arg7)
    }
}

impl<This, T0, T1, T2, T3, T4, T5, T6, T7, T8, U, F: FnOnce(This, T0, T1, T2, T3, T4, T5, T6, T7, T8) -> U> PartiallyApplied<This, F, (T0, T1, T2, T3, T4, T5, T6, T7, T8)> {
    /// Consume the applicator and call the extension on the receiver and nine trailing arguments,
    /// returning exactly what that call returns.
    pub fn pass(self, arg0: T0, arg1: T1, arg2: T2, arg3: T3, arg4: T4, arg5: T5, arg6: T6, arg7: T7, arg8: T8) -> (r: U)
        requires
            call_requires(self.ext_fn(), (self.receiver(), arg0, arg1, arg2, arg3, arg4, arg5, arg6, arg7, arg8)),
        ensures
            call_ensures(self.ext_fn(), (self.receiver(), arg0, arg1, arg2, arg3, arg4, arg5, arg6, arg7, arg8), r),
    {
        let Self { this, extension, .. } = self;
        extension(this, arg0, arg1, arg2, arg3, arg4, arg5, arg6, arg7, arg8)
    }
}

impl<This, T0, T1, T2, T3, T4, T5, T6, T7, T8, T9, U, F: FnOnce(This, T0, T1, T2, T3, T4, T5, T6, T7, T8, T9) -> U> PartiallyApplied<This, F, (T0, T1, T2, T3, T4, T5, T6, T7, T8, T9)> {
    /// Consume the applicator and call the extension on the receiver and ten trailing arguments,
    /// returning exactly what that call returns.
    pub fn pass(self, arg0: T0, arg1: T1, arg2: T2, arg3: T3, arg4: T4, arg5: T5, arg6: T6, arg7: T7, arg8: T8, arg9: T9) -> (r: U)
        requires
            call_requires(self.ext_fn(), (self.receiver(), arg0, arg1, arg2, arg3, arg4, arg5, arg6, arg7, arg8, arg9)),
        ensures
            call_ensures(self.ext_fn(), (self.receiver(), arg0, arg1, arg2, arg3, arg4, arg5, arg6, arg7, arg8, arg9), r),
    {
        let Self { this, extension, .. } = self;
        extension(this, arg0, arg1, arg2, arg3, arg4, arg5, arg6, arg7, arg8, arg9)
    }
}

impl<This, T0, T1, T2, T3, T4, T5, T6, T7, T8, T9, T10, U, F: FnOnce(This, T0, T1, T2, T3, T4, T5, T6, T7, T8, T9, T10) -> U> PartiallyApplied<This, F, (T0, T1, T2, T3, T4, T5, T6, T7, T8, T9, T10)> {
    /// Consume the applicator and call the extension on the receiver and eleven trailing arguments,
    /// returning exactly what that call returns.
    pub fn pass(self, arg0: T0, arg1: T1, arg2: T2, arg3: T3, arg4: T4, arg5: T5, arg6: T6, arg7: T7, arg8: T8, arg9: T9, arg10: T10) -> (r: U)
        requires
            call_requires(self.ext_fn(), (self.receiver(), arg0, arg1, arg2, arg3, arg4, arg5, arg6, arg7, arg8, arg9, arg10)),
        ensures
            call_ensures(self.ext_fn(), (self.receiver(), arg0, arg1, arg2, arg3, arg4, arg5, arg6, arg7, arg8, arg9, arg10), r),
    {
        let Self { this, extension, .. } = self;
        extension(this, arg0, arg1, arg2, arg3, arg4, arg5, arg6, arg7, arg8, arg9, arg10)
    }
}

impl<This, T0, T1, T2, T3, T4, T5, T6, T7, T8, T9, T10, T11, U, F: FnOnce(This, T0, T1, T2, T3, T4, T5, T6, T7, T8, T9, T10, T11) -> U> PartiallyApplied<This, F, (T0, T1, T2, T3, T4, T5, T6, T7, T8, T9, T10, T11)> {
    /// Consume the applicator and call the extension on the receiver and twelve trailing arguments,
    /// returning exactly what that call returns.
    pub fn pass(self, arg0: T0, arg1: T1, arg2: T2, arg3: T3, arg4: T4, arg5: T5, arg6: T6, arg7: T7, arg8: T8, arg9: T9, arg10: T10, arg11: T11) -> (r: U)
        requires
            call_requires(self.ext_fn(), (self.receiver(), arg0, arg1, arg2, arg3, arg4, arg5, arg6, arg7, arg8, arg9, arg10, arg11)),
        ensures
            call_ensures(self.ext_fn(), (self.receiver(), arg0, arg1, arg2, arg3, arg4, arg5, arg6, arg7, arg8, arg9, arg10, arg11), r),
    {
        let Self { this, extension, .. } = self;
        extension(this, arg0, arg1, arg2, arg3, arg4, arg5, arg6, arg7, arg8, arg9, arg10, arg11)
    }
}

} // verus!
