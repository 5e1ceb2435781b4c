use std::sync::Arc;
use vstd::prelude::*;

use crate::mail::PanoramaMail;

verus! {

/// What every HTTP handler is given: the shared mail client.
pub struct AppState<S: ?Sized> {
    pub mail: Arc<PanoramaMail<S>>,
}

impl<S: ?Sized> Clone for AppState<S> {
    /// Another handle on the same mail client.
    fn clone(&self) -> (r: Self)
        ensures
            r.mail == self.mail,
    {
        AppState { mail: Arc::clone(&self.mail) }
    }
}

} // verus!
