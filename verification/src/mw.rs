//! Authentication in front of every route: the caller must present the shared
//! token.

use vstd::prelude::*;
use crate::config::Config;
use crate::flow::{failure, reply_error, Reply};
use crate::text::str_eq;

verus! {

/// Lets a request through when its `X-Internal-Auth` header (`None` when it
/// is missing or not visible ASCII) equals the configured token; otherwise
/// answers it with 403.
pub fn internal_auth(cfg: &Config, header: Option<&str>) -> (r: Option<Reply>)
    ensures
        r is None <==> (header matches Some(h) && h@ == cfg.auth.token@),
        r matches Some(reply) ==> reply@ == failure(
            403,
            "Missing or invalid X-Internal-Auth token."@,
        ),
{
    let ok = match header {
        Some(h) => str_eq(h, cfg.auth.token.as_str()),
        None => false,
    };
    if !ok {
        return Some(reply_error(403, "Missing or invalid X-Internal-Auth token."));
    }
    None
}

} // verus!
