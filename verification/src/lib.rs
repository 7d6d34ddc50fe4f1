//! Conditional application of a transformation inside a fluent builder
//! chain: apply a caller-supplied function to a value when a condition
//! holds (or a payload is present), and pass the value through unchanged
//! otherwise.

use vstd::prelude::*;

verus! {

/// Conditionally apply a transformation to a value without breaking a
/// method-chaining expression with an explicit branch.
///
/// The by-value methods suit builders whose steps consume and return the
/// builder; the `_mut` methods suit builders whose steps mutate in place
/// behind a mutable handle. Either way, when the condition is false (or
/// the payload absent) the subject passes through unchanged and the
/// transformation is never invoked.
pub trait ApplyIf {
    /// Call `f` on `self` if `cond` is true; otherwise return `self`
    /// unchanged, never invoking `f`.
    fn apply_if<F>(self, cond: bool, f: F) -> (r: Self) where
        Self: Sized,
        F: FnOnce(Self) -> Self,
        requires
            cond ==> call_requires(f, (self,)),
        ensures
            cond ==> call_ensures(f, (self,), r),
            !cond ==> r == self,
    ;

    /// Call `f` on the mutable handle if `cond` is true and return the
    /// handle `f` produces; otherwise return the handle unchanged, never
    /// invoking `f`.
    fn apply_if_mut<F>(&mut self, cond: bool, f: F) -> (r: &mut Self) where
        Self: Sized,
        F: FnOnce(&mut Self) -> &mut Self,
        requires
            cond ==> forall|m: &mut Self| *m == *old(self) ==> call_requires(f, (m,)),
        ensures
            cond ==> exists|m: &mut Self|
                *m == *old(self)
                && #[trigger] call_ensures(f, (m,), r)
                && *final(self) == *final(m),
            !cond ==> *r == *old(self) && *final(self) == *final(r),
    ;

    /// Call `f` on `self` and the unwrapped payload if `u` holds one;
    /// otherwise return `self` unchanged, never invoking `f`.
    fn apply_if_some<F, U>(self, u: Option<U>, f: F) -> (r: Self) where
        Self: Sized,
        F: FnOnce(Self, U) -> Self,
        requires
            u matches Some(v) ==> call_requires(f, (self, v)),
        ensures
            u matches Some(v) ==> call_ensures(f, (self, v), r),
            u is None ==> r == self,
    ;

    /// Call `f` on the mutable handle and the unwrapped payload if `u`
    /// holds one and return the handle `f` produces; otherwise return the
    /// handle unchanged, never invoking `f`.
    fn apply_if_some_mut<F, U>(&mut self, u: Option<U>, f: F) -> (r: &mut Self) where
        Self: Sized,
        F: FnOnce(&mut Self, U) -> &mut Self,
        requires
            u matches Some(v) ==> forall|m: &mut Self|
                *m == *old(self) ==> call_requires(f, (m, v)),
        ensures
            u matches Some(v) ==> exists|m: &mut Self|
                *m == *old(self)
                && #[trigger] call_ensures(f, (m, v), r)
                && *final(self) == *final(m),
            u is None ==> *r == *old(self) && *final(self) == *final(r),
    ;
}

impl<T> ApplyIf for T {
    fn apply_if<F>(self, cond: bool, f: F) -> (r: Self) where
        Self: Sized,
        F: FnOnce(Self) -> Self,
        ensures
            cond ==> call_ensures(f, (self,), r),
            !cond ==> r == self,
    {
        if cond {
            f(self)
        } else {
            self
        }
    }

    fn apply_if_mut<F>(&mut self, cond: bool, f: F) -> (r: &mut Self) where
        Self: Sized,
        F: FnOnce(&mut Self) -> &mut Self,
        ensures
            cond ==> exists|m: &mut Self|
                *m == *old(self)
                && #[trigger] call_ensures(f, (m,), r)
                && *final(self) == *final(m),
            !cond ==> *r == *old(self) && *final(self) == *final(r),
    {
        if cond {
            f(self)
        } else {
            self
        }
    }

    fn apply_if_some<F, U>(self, u: Option<U>, f: F) -> (r: Self) where
        Self: Sized,
        F: FnOnce(Self, U) -> Self,
        ensures
            u matches Some(v) ==> call_ensures(f, (self, v), r),
            u is None ==> r == self,
    {
        if let Some(v) = u {
            f(self, v)
        } else {
            self
        }
    }

    fn apply_if_some_mut<F, U>(&mut self, u: Option<U>, f: F) -> (r: &mut Self) where
        Self: Sized,
        F: FnOnce(&mut Self, U) -> &mut Self,
        ensures
            u matches Some(v) ==> exists|m: &mut Self|
                *m == *old(self)
                && #[trigger] call_ensures(f, (m, v), r)
                && *final(self) == *final(m),
            u is None ==> *r == *old(self) && *final(self) == *final(r),
    {
        if let Some(v) = u {
            f(self, v)
        } else {
            self
        }
    }
}

/// A conditional application with a true condition behaves exactly like a
/// direct call of the transformation: when every outcome of `f` on an
/// input `x` is `fs(x)`, the result `r` of `apply_if(s, true, f)`, which
/// its contract admits exactly when `call_ensures(f, (s,), r)`, equals
/// `fs(s)`.
pub proof fn lemma_apply_if_true_applies<T, F: FnOnce(T) -> T>(
    f: F,
    fs: spec_fn(T) -> T,
    s: T,
    r: T,
)
    requires
        forall|x: T, y: T| #[trigger] call_ensures(f, (x,), y) ==> y == fs(x),
        call_ensures(f, (s,), r),
    ensures
        r == fs(s),
{
}

/// A conditional application with a present payload behaves exactly like
/// a direct call of the transformation on the subject and the unwrapped
/// payload: the result `r` of `apply_if_some(s, Some(u), f)` equals
/// `fs(s, u)` whenever `fs` describes every outcome of `f`.
pub proof fn lemma_apply_if_some_applies<T, U, F: FnOnce(T, U) -> T>(
    f: F,
    fs: spec_fn(T, U) -> T,
    s: T,
    u: U,
    r: T,
)
    requires
        forall|x: T, w: U, y: T| #[trigger] call_ensures(f, (x, w), y) ==> y == fs(x, w),
        call_ensures(f, (s, u), r),
    ensures
        r == fs(s, u),
{
}

/// Chained conditional applications with true conditions compose like the
/// plain sequential calls they replace: if `mid` is the result of
/// `apply_if(s, true, f)` and `r` the result of `apply_if(mid, true, g)`,
/// then `r` is the sequential composition `gs(fs(s))`.
pub proof fn lemma_apply_if_true_composes<T, F: FnOnce(T) -> T, G: FnOnce(T) -> T>(
    f: F,
    g: G,
    fs: spec_fn(T) -> T,
    gs: spec_fn(T) -> T,
    s: T,
    mid: T,
    r: T,
)
    requires
        forall|x: T, y: T| #[trigger] call_ensures(f, (x,), y) ==> y == fs(x),
        forall|x: T, y: T| #[trigger] call_ensures(g, (x,), y) ==> y == gs(x),
        call_ensures(f, (s,), mid),
        call_ensures(g, (mid,), r),
    ensures
        r == gs(fs(s)),
{
}

/// The mutable variant of the true-condition law, with equality read over
/// the referenced subject's state: when `fs` describes how `f` rewrites
/// the state behind the handle (and `f` hands the same underlying subject
/// back), a handle pair admitted by `f`'s contract, as the contract of
/// `apply_if_mut(self, true, f)` exhibits for its result, shows the
/// state `fs(*m)` behind the returned handle, and writes through the
/// returned handle land in the subject.
pub proof fn lemma_apply_if_mut_true_applies<T, F: FnOnce(&mut T) -> &mut T>(
    f: F,
    fs: spec_fn(T) -> T,
    m: &mut T,
    r: &mut T,
)
    requires
        forall|x: &mut T, y: &mut T| #[trigger] call_ensures(f, (x,), y)
            ==> *y == fs(*x) && *final(x) == *final(y),
        call_ensures(f, (m,), r),
    ensures
        *old(r) == fs(*old(m)),
        *final(m) == *final(r),
{
}

/// The mutable variant of the present-payload law, with equality read
/// over the referenced subject's state: a handle pair admitted by `f`'s
/// contract on payload `u`, as the contract of
/// `apply_if_some_mut(self, Some(u), f)` exhibits for its result, shows
/// the state `fs(*m, u)` behind the returned handle, and writes through
/// the returned handle land in the subject.
pub proof fn lemma_apply_if_some_mut_applies<T, U, F: FnOnce(&mut T, U) -> &mut T>(
    f: F,
    fs: spec_fn(T, U) -> T,
    u: U,
    m: &mut T,
    r: &mut T,
)
    requires
        forall|x: &mut T, w: U, y: &mut T| #[trigger] call_ensures(f, (x, w), y)
            ==> *y == fs(*x, w) && *final(x) == *final(y),
        call_ensures(f, (m, u), r),
    ensures
        *old(r) == fs(*old(m), u),
        *final(m) == *final(r),
{
}

/// Chained mutable conditional applications with true conditions compose
/// like the plain sequential calls they replace: when the handle `h` that
/// `apply_if_mut(self, true, f)` returned is in turn passed through
/// `apply_if_mut(h, true, g)` yielding `r`, the state behind `r` is the
/// sequential composition `gs(fs(..))` of the two rewrites, and writes
/// through `r` land in the original subject.
pub proof fn lemma_apply_if_mut_true_composes<
    T,
    F: FnOnce(&mut T) -> &mut T,
    G: FnOnce(&mut T) -> &mut T,
>(
    f: F,
    g: G,
    fs: spec_fn(T) -> T,
    gs: spec_fn(T) -> T,
    m: &mut T,
    h: &mut T,
    r: &mut T,
)
    requires
        forall|x: &mut T, y: &mut T| #[trigger] call_ensures(f, (x,), y)
            ==> *y == fs(*x) && *final(x) == *final(y),
        forall|x: &mut T, y: &mut T| #[trigger] call_ensures(g, (x,), y)
            ==> *y == gs(*x) && *final(x) == *final(y),
        call_ensures(f, (m,), h),
        call_ensures(g, (h,), r),
    ensures
        *old(r) == gs(fs(*old(m))),
        *final(m) == *final(r),
{
}

} // verus!
