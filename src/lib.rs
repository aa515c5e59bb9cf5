//! Turning an optional value inside out: a present value becomes the error of
//! a `Result`, and absence becomes success.
use vstd::prelude::*;

verus! {

/// Converts an optional value into a `Result` in which a held value is the
/// error and absence is success, with an eagerly built success value.
pub trait ErrOr: Sized {
    type Err;

    /// The error that `err_or` returns for this value, or `None` where it
    /// returns success.
    spec fn err_view(&self) -> Option<Self::Err>;

    /// `Err(e)` where the value holds `e`, else `Ok(ok)`.
    fn err_or<OK>(self, ok: OK) -> (r: Result<OK, Self::Err>)
        ensures
            self.err_view() is Some ==> r == Err::<OK, Self::Err>(self.err_view()->Some_0),
            self.err_view() is None ==> r == Ok::<OK, Self::Err>(ok),
    ;
}

impl<T> ErrOr for Option<T> {
    type Err = T;

    open spec fn err_view(&self) -> Option<T> {
        *self
    }

    fn err_or<OK>(self, ok: OK) -> (r: Result<OK, T>)
        ensures
            self is Some ==> r == Err::<OK, T>(self->Some_0),
            self is None ==> r == Ok::<OK, T>(ok),
    {
        match self {
            Some(err) => Err(err),
            None => Ok(ok),
        }
    }
}

/// Converts an optional value into a `Result` in which a held value is the
/// error and absence is success, with a success value built only on demand.
pub trait ErrOrElse: Sized {
    type Err;

    /// The error that `err_or_else` returns for this value, or `None` where
    /// it calls the producer.
    spec fn err_else_view(&self) -> Option<Self::Err>;

    /// `Err(e)` where the value holds `e`, without calling `ok`; else `Ok` of
    /// what one call of `ok` returned.
    fn err_or_else<OK, F: FnOnce() -> OK>(self, ok: F) -> (r: Result<OK, Self::Err>)
        requires
            self.err_else_view() is None ==> ok.requires(()),
        ensures
            self.err_else_view() is Some ==> r == Err::<OK, Self::Err>(
                self.err_else_view()->Some_0,
            ),
            self.err_else_view() is None ==> (r is Ok && ok.ensures((), r->Ok_0)),
    ;
}

impl<T> ErrOrElse for Option<T> {
    type Err = T;

    open spec fn err_else_view(&self) -> Option<T> {
        *self
    }

    fn err_or_else<OK, F: FnOnce() -> OK>(self, ok: F) -> (r: Result<OK, T>)
        ensures
            self is Some ==> r == Err::<OK, T>(self->Some_0),
            self is None ==> (r is Ok && ok.ensures((), r->Ok_0)),
    {
        match self {
            Some(err) => Err(err),
            None => Ok(ok()),
        }
    }
}

} // verus!
