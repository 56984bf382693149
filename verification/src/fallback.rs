use vstd::prelude::*;

verus! {

/// The status code the fallback service answers with, for every host and
/// every path.
pub const NOT_FOUND_STATUS: u16 = 404;

/// The loopback port the fallback service listens on. The fallback
/// destination in the routing table points at this port.
pub const FALLBACK_PORT: u16 = 41050;

/// The loopback port the static-file service listens on.
pub const STATIC_FILES_PORT: u16 = 41051;

/// The port the TLS listener binds on all interfaces.
pub const HTTPS_PORT: u16 = 443;

/// The fixed body of the fallback response.
pub open spec fn fallback_body_spec() -> Seq<char> {
    "<h1>You've hit 404, this host and/or address leads to nowhere...</h1>"@
}

/// The response the fallback service gives: the not-found status and the
/// fixed body. It takes nothing from the request, so every host and every
/// path receive this same answer.
pub fn fallback_response() -> (r: (u16, String))
    ensures
        r.0 == NOT_FOUND_STATUS,
        r.1@ == fallback_body_spec(),
{
    (
        NOT_FOUND_STATUS,
        "<h1>You've hit 404, this host and/or address leads to nowhere...</h1>".to_owned(),
    )
}

} // verus!
