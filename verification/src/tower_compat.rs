//! Taking services of another framework as handlers.

use vstd::prelude::*;

verus! {

/// A handler around a service.
pub struct TowerServiceHandler<Svc>(pub Svc);

/// Turns a service into a handler.
pub trait TowerServiceCompat: Sized {
    /// The handler around this service.
    fn compat(self) -> (handler: TowerServiceHandler<Self>)
        ensures
            handler.0 == self,
    ;
}

impl<T> TowerServiceCompat for T {
    fn compat(self) -> (handler: TowerServiceHandler<T>) {
        TowerServiceHandler(self)
    }
}

/// The service at the end of a chain of layers: it hands the request on to
/// the handlers that follow.
#[derive(Clone, Copy, Debug, Default, PartialEq, Eq, Structural)]
pub struct FlowCtrlService;

} // verus!
