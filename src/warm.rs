use vstd::prelude::*;
use vstd::rwlock::RwLock;

use serde_json::Value;

use crate::backend::Backend;
use crate::error::CallError;

verus! {

/// An initialized in-process client that performs named operations; it need
/// not be reentrant.
pub trait Connection {
    fn call(&mut self, operation: &str, args: &Vec<String>) -> Result<Value, CallError>;
}

/// A backend that keeps one connection for the life of the service and lets
/// one call at a time into it: each call holds an exclusive lock
/// while it uses the handle.
#[verifier::reject_recursive_types(H)]
pub struct WarmConnection<H> {
    gate: RwLock<H, spec_fn(H) -> bool>,
}

impl<H> WarmConnection<H> {
    #[verifier::type_invariant]
    spec fn admits_any_handle(&self) -> bool {
        forall|h: H| #[trigger] self.gate.inv(h)
    }

    /// Wraps an initialized connection; it is never recreated.
    pub fn new(handle: H) -> (r: WarmConnection<H>) {
        let ghost any = |h: H| true;
        WarmConnection { gate: RwLock::new(handle, Ghost(any)) }
    }

    /// Gives the connection back once no call is in flight.
    pub fn into_inner(self) -> (r: H) {
        self.gate.into_inner()
    }
}

impl<H: Connection> Backend for WarmConnection<H> {
    /// A connection's answers are its own: whatever the handle's `call`
    /// returned is given back unchanged, and nothing more is known of it here.
    open spec fn gives(
        &self,
        operation: Seq<char>,
        args: Seq<Seq<char>>,
        r: Result<Value, CallError>,
    ) -> bool {
        true
    }

    fn execute(&self, operation: &str, args: &Vec<String>) -> (r: Result<Value, CallError>) {
        proof {
            use_type_invariant(self);
        }
        let (mut handle, exclusive) = self.gate.acquire_write();
        let r = handle.call(operation, args);
        exclusive.release_write(handle);
        r
    }
}

} // verus!
