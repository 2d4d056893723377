//! The service that answers pings.
use crate::http::Status;
use crate::instrument::duration_bounds;
use crate::services::backend::BACKEND_ADDRESS;
use vstd::prelude::*;

verus! {

/// Where the service listens.
pub const API_ADDRESS: &'static str = "127.0.0.1:3000";

/// What the service asks the backend for.
pub const BACKEND_URL: &'static str = "http://localhost:3001/random";

/// The path of [`BACKEND_URL`], under which its spans are named.
pub const BACKEND_PATH: &'static str = "/random";

/// How long the service works on a request, in seconds.
pub const REQUEST_TIMEOUT: u64 = 10;

/// The answer of the backend: how long it took, in a type of seconds.
pub struct BackendResponse<D> {
    pub seconds: D,
}

/// The answer to a ping.
pub struct Ping<D> {
    pub ping: String,
    /// How long the backend took.
    pub delay_seconds: D,
}

/// Answers a ping, once the backend has answered.
pub fn pong<D>(backend: BackendResponse<D>) -> (reply: (Status, Ping<D>))
    ensures
        reply.0@ == 200,
        reply.1.ping@ == "Pong"@,
        reply.1.delay_seconds == backend.seconds,
{
    (Status::ok(), Ping { ping: "Pong".to_owned(), delay_seconds: backend.seconds })
}

/// A ping is answered with a 200, and with the delay of the backend as it is.
pub proof fn ping_passes_the_delay_on<D>(backend: BackendResponse<D>, reply: (Status, Ping<D>))
    requires
        call_ensures(pong::<D>, (backend,), reply),
    ensures
        reply.0@ as int / 100 == 2 && reply.0@ as int % 100 == 0,
        reply.1.ping@ == "Pong"@,
        reply.1.delay_seconds == backend.seconds,
{
}

/// What the service asks for leads to the backend: to the port that it listens on, and to the path
/// that the spans are named by.
pub proof fn backend_url_leads_to_the_backend()
    ensures
        BACKEND_URL@ == "http://localhost"@ + BACKEND_ADDRESS@.skip("127.0.0.1"@.len() as int)
            + BACKEND_PATH@,
        "127.0.0.1"@.is_prefix_of(BACKEND_ADDRESS@),
        "127.0.0.1"@.is_prefix_of(API_ADDRESS@),
        API_ADDRESS@ != BACKEND_ADDRESS@,
{
    reveal_strlit("http://localhost:3001/random");
    reveal_strlit("http://localhost");
    reveal_strlit("127.0.0.1:3001");
    reveal_strlit("127.0.0.1:3000");
    reveal_strlit("127.0.0.1");
    reveal_strlit("/random");
    assert(BACKEND_URL@ =~= "http://localhost"@ + BACKEND_ADDRESS@.skip(
        "127.0.0.1"@.len() as int,
    ) + BACKEND_PATH@);
    assert(BACKEND_ADDRESS@.subrange(0, 9) =~= "127.0.0.1"@);
    assert(API_ADDRESS@.subrange(0, 9) =~= "127.0.0.1"@);
    assert(API_ADDRESS@[13] != BACKEND_ADDRESS@[13]);
}

/// A request is given up exactly when its duration leaves the last bucket that has a bound.
pub proof fn timeout_is_the_last_bound()
    ensures
        duration_bounds().last() == REQUEST_TIMEOUT * 1000,
{
}

} // verus!
