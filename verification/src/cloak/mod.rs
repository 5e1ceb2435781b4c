//! Placeholder for the request-authentication state.
use vstd::prelude::*;

verus! {

/// Stub of the authentication state that requests are checked against; it
/// carries no key material yet, and the request check lets every request pass.
#[derive(Clone, Default)]
pub struct CloakState {
    pub stub: bool,
}

} // verus!
