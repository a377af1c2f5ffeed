//! The HTTP server that takes the uploads.

use vstd::prelude::*;
use vstd::string::*;

use super::state::{logged, AppState};
use crate::text::{dec, u64_text};

verus! {

/// The address that the server listens on.
pub fn listen_addr(port: u16) -> (r: String)
    ensures
        r@ == "0.0.0.0:"@ + dec(port as nat),
{
    let mut t = "0.0.0.0:".to_owned();
    t.append(u64_text(port as u64).as_str());
    t
}

/// Logs whether the server got its address. Returns whether it can serve.
pub fn on_bind(s: &mut AppState, addr: &str, error: Option<&str>) -> (r: bool)
    ensures
        r == (error is None),
        final(s).log() == logged(
            old(s).log(),
            match error {
                None => "HTTP listening on "@ + addr@,
                Some(e) => "⚠ HTTP bind "@ + addr@ + " failed: "@ + e@
                    + "  (old process still running?)"@,
            },
        ),
        final(s).settings() == old(s).settings(),
        final(s).same_but_log(*old(s)),
{
    match error {
        None => {
            let mut t = "HTTP listening on ".to_owned();
            t.append(addr);
            s.push_log(t);
            true
        },
        Some(e) => {
            let mut t = "⚠ HTTP bind ".to_owned();
            t.append(addr);
            t.append(" failed: ");
            t.append(e);
            t.append("  (old process still running?)");
            s.push_log(t);
            false
        },
    }
}

/// Logs that the server has stopped.
pub fn on_stopped(s: &mut AppState, error: &str)
    ensures
        final(s).log() == logged(old(s).log(), "⚠ HTTP server stopped: "@ + error@),
        final(s).settings() == old(s).settings(),
        final(s).same_but_log(*old(s)),
{
    let mut t = "⚠ HTTP server stopped: ".to_owned();
    t.append(error);
    s.push_log(t);
}

} // verus!
