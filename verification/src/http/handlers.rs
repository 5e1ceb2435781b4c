use vstd::prelude::*;

verus! {

/// The body of `POST /mail/send`.
pub struct SendRequest {
    pub to: String,
    pub subject: String,
    pub body: String,
}

/// The query of `GET /mail/search`.
pub struct SearchQuery {
    pub q: String,
}

} // verus!
