//! Chaining helpers in the style of Kotlin's scope functions (`let`, `also`,
//! `takeIf`): a capability available on every sized value that threads the
//! value through a caller-supplied function, enabling fluent call chains
//! without intermediate bindings.
//!
//! Each operation invokes its function exactly once and either returns the
//! function's result (`lets`) or the receiver itself, possibly mutated
//! (`also`, `take_if`). The contracts tie the returned value to the
//! function's own postcondition, so a verified caller that passes a closure
//! with an `ensures` clause learns exactly what came back.
//!
//! [`and_run`] and [`or_run`] extend the same idea to a success/failure
//! container: they run the function against one payload of a [`Result`] and
//! leave the other payload untouched.

use vstd::prelude::*;

verus! {

/// Provides chaining helper methods for every sized type via a blanket impl.
///
/// The operations never fail on their own: `take_if` is the only one with a
/// failure channel, and it forwards the supplied function's error unchanged.
pub trait Also where Self: Sized {
    /// Calls a function with the receiver, and returns the result.
    ///
    /// The result is an outcome of `f` applied to the receiver, as
    /// `call_ensures(f, (self,), r)` states it. When `f`'s postcondition
    /// pins its result down, so is the result of `lets`.
    fn lets<R>(self, f: impl FnOnce(Self) -> R) -> (r: R)
        requires
            call_requires(f, (self,)),
        ensures
            call_ensures(f, (self,), r),
    {
        f(self)
    }

    /// Returns the receiver if the given function returns `Ok`, else
    /// forwards the `Err`.
    ///
    /// `f` receives a mutable reference to the receiver. On `Ok` the
    /// (possibly mutated) receiver is returned and `f`'s own result is
    /// discarded; on `Err` the receiver is dropped and `f`'s error comes
    /// back unchanged. The returned variant matches the variant `f`
    /// produced.
    fn take_if<R, E>(self, f: impl FnOnce(&mut Self) -> Result<R, E>) -> (res: Result<Self, E>)
        requires
            forall|m: &mut Self| *m == self ==> call_requires(f, (m,)),
        ensures
            (exists|m: &mut Self|
                *m == self && match res {
                    Ok(v) => *final(m) == v && (exists|x: R| call_ensures(f, (m,), Ok(x))),
                    Err(e) => call_ensures(f, (m,), Err::<R, E>(e)),
                }),
    {
        let mut v = self;
        match f(&mut v) {
            Ok(_) => Ok(v),
            Err(e) => Err(e),
        }
    }

    /// Calls a function with a mutable reference to the receiver, and
    /// returns the (possibly mutated) receiver; the function's own result is
    /// discarded.
    ///
    /// The returned value is the receiver as `f` left it: some outcome of
    /// `f` on a reference whose initial value is the receiver and whose
    /// final value is the returned value.
    fn also<R>(self, f: impl FnOnce(&mut Self) -> R) -> (r: Self)
        requires
            forall|m: &mut Self| *m == self ==> call_requires(f, (m,)),
        ensures
            (exists|m: &mut Self, x: R|
                *m == self && *final(m) == r && call_ensures(f, (m,), x)),
    {
        let mut v = self;
        f(&mut v);
        v
    }
}

impl<T> Also for T {
}

/// Calls a function with the `Ok` contained value and returns the `Result`;
/// an `Err` value passes through untouched.
///
/// On `Ok(v)` the outcome is `Ok` of the payload as `f` left it, with `f`'s
/// own result discarded; on `Err(e)` the outcome is `Err(e)` and `f` is not
/// called.
pub fn and_run<V, E, R>(res: Result<V, E>, f: impl FnOnce(&mut V) -> R) -> (out: Result<V, E>)
    requires
        forall|m: &mut V| (res matches Ok(v) && *m == v) ==> call_requires(f, (m,)),
    ensures
        match res {
            Ok(v) => (out matches Ok(w) && (exists|m: &mut V, x: R|
                *m == v && *final(m) == w && call_ensures(f, (m,), x))),
            Err(e) => (out matches Err(e2) && e2 == e),
        },
{
    match res {
        Ok(mut v) => {
            f(&mut v);
            Ok(v)
        },
        Err(e) => Err(e),
    }
}

/// Calls a function with the `Err` contained value and returns the `Result`;
/// an `Ok` value passes through untouched.
///
/// On `Err(e)` the outcome is `Err` of the payload as `f` left it, with
/// `f`'s own result discarded; on `Ok(v)` the outcome is `Ok(v)` and `f` is
/// not called.
pub fn or_run<V, E, R>(res: Result<V, E>, f: impl FnOnce(&mut E) -> R) -> (out: Result<V, E>)
    requires
        forall|m: &mut E| (res matches Err(e) && *m == e) ==> call_requires(f, (m,)),
    ensures
        match res {
            Ok(v) => (out matches Ok(w) && w == v),
            Err(e) => (out matches Err(e2) && (exists|m: &mut E, x: R|
                *m == e && *final(m) == e2 && call_ensures(f, (m,), x))),
        },
{
    match res {
        Ok(v) => Ok(v),
        Err(mut e) => {
            f(&mut e);
            Err(e)
        },
    }
}

/// Chaining `also` with a no-op function returns a value equal to the input.
///
/// A function is a no-op here when every outcome it admits leaves the value
/// behind the reference as it found it. The second premise is exactly what
/// `also` ensures of its result, so for such a function the result of
/// `v.also(f)` equals `v`.
pub proof fn lemma_also_noop<T, R, F: FnOnce(&mut T) -> R>(f: F, v: T, r: T)
    requires
        forall|m: &mut T, x: R| call_ensures(f, (m,), x) ==> *final(m) == *m,
        exists|m: &mut T, x: R| *m == v && *final(m) == r && call_ensures(f, (m,), x),
    ensures
        r == v,
{
}

} // verus!
