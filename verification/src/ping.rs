use vstd::prelude::*;
use vstd::string::StringExecFns;

use crate::auth::handler::Success;
use crate::errors::OK;

verus! {

/// Answers a ping.
pub fn ping() -> (r: Success<()>)
    ensures
        r.code == OK,
        r.message matches Some(m) && m@ == "PONG"@,
        r.cookie is None,
{
    Success { code: OK, message: Some(String::from_str("PONG")), data: (), cookie: None }
}

} // verus!
