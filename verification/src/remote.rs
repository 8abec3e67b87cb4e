//! Interpretation of the remote widget lookup reply.
//!
//! The surrounding application asks a remote service for the stream URL
//! behind a widget identifier. The request and its transport belong
//! outside the library; what the reply means is decided here: anything
//! but a plain success yields the empty URL.

use vstd::prelude::*;

verus! {

/// The URL a widget lookup reply yields: the reported URL on a plain
/// success, and the empty string when the reply's status was not OK,
/// when it carried an error, or when it carried no URL.
pub fn websocket_url_from_reply(status_ok: bool, has_error: bool, reported_url: Option<
    String,
>) -> (r: String)
    ensures
        !status_ok ==> r@ == Seq::<char>::empty(),
        status_ok && has_error ==> r@ == Seq::<char>::empty(),
        status_ok && !has_error ==> match reported_url {
            Some(u) => r@ == u@,
            None => r@ == Seq::<char>::empty(),
        },
{
    if !status_ok || has_error {
        String::new()
    } else {
        match reported_url {
            Some(u) => u,
            None => String::new(),
        }
    }
}

} // verus!
