//! Choosing between two windowing backends.
//!
//! A connection to the windowing system, and every window made on it, belongs
//! to one of two backends. Which one is decided once, when the connection is
//! established, and never changes afterwards. This module holds that
//! decision and the two tagged types; what the backends do with a connection
//! or a window is theirs.

use vstd::prelude::*;

verus! {

/// A connection to the windowing system through one of two backends.
pub enum Connection<X, W> {
    X11(X),
    Wayland(W),
}

/// A window made through one of two backends.
pub enum Window<X, W> {
    X11(X),
    Wayland(W),
}

impl<X: Clone, W: Clone> Clone for Window<X, W> {
    /// A window cloned stays with its backend.
    fn clone(&self) -> (copy: Window<X, W>)
        ensures
            match (*self, copy) {
                (Window::X11(x), Window::X11(y)) => cloned(x, y),
                (Window::Wayland(w), Window::Wayland(v)) => cloned(w, v),
                _ => false,
            },
    {
        match self {
            Window::X11(x) => Window::X11(x.clone()),
            Window::Wayland(w) => Window::Wayland(w.clone()),
        }
    }
}

impl<X, W> Connection<X, W> {
    /// Establishes a connection. Wayland is tried first if it is enabled;
    /// when it is disabled, or cannot be reached, X11 is used, and a failure
    /// to reach X11 is the failure of the whole attempt. Why Wayland could not
    /// be reached is not reported.
    pub fn create_new<E, D, FW, FX>(enable_wayland: bool, wayland: FW, x11: FX) -> (r: Result<
        Connection<X, W>,
        E,
    >) where FW: FnOnce() -> Result<W, D>, FX: FnOnce() -> Result<X, E>
        requires
            wayland.requires(()),
            x11.requires(()),
        ensures
            match r {
                Ok(Connection::Wayland(w)) => enable_wayland && wayland.ensures(
                    (),
                    Ok::<W, D>(w),
                ),
                Ok(Connection::X11(x)) => {
                    &&& x11.ensures((), Ok::<X, E>(x))
                    &&& enable_wayland ==> exists|d: D| wayland.ensures((), Err::<W, D>(d))
                },
                Err(e) => {
                    &&& x11.ensures((), Err::<X, E>(e))
                    &&& enable_wayland ==> exists|d: D| wayland.ensures((), Err::<W, D>(d))
                },
            },
    {
        if enable_wayland {
            match wayland() {
                Ok(w) => {
                    return Ok(Connection::Wayland(w));
                },
                Err(d) => {
                    assert(wayland.ensures((), Err::<W, D>(d)));
                },
            }
        }
        match x11() {
            Ok(x) => Ok(Connection::X11(x)),
            Err(e) => Err(e),
        }
    }

    /// The X11 connection; only to be asked of a connection that is one.
    pub fn x11(&self) -> (x: &X)
        requires
            self is X11,
        ensures
            *self == Connection::<X, W>::X11(*x),
    {
        match self {
            Connection::X11(x) => x,
            Connection::Wayland(_) => unreached(),
        }
    }

    /// The Wayland connection; only to be asked of a connection that is one.
    pub fn wayland(&self) -> (w: &W)
        requires
            self is Wayland,
        ensures
            *self == Connection::<X, W>::Wayland(*w),
    {
        match self {
            Connection::Wayland(w) => w,
            Connection::X11(_) => unreached(),
        }
    }
}

} // verus!
