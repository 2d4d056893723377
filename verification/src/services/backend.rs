//! The service that takes its time.
use crate::http::Status;
use crate::PKG_NAME;
use vstd::prelude::*;

verus! {

/// Where the service listens.
pub const BACKEND_ADDRESS: &'static str = "127.0.0.1:3001";

/// The instrumentation scope of the service's own spans.
pub const BACKEND_SCOPE: &'static str = "backend-service";

/// The name of the span that covers the delay.
pub const DELAY_SPAN: &'static str = "random_handler";

/// The answer of the service: how long it took, in a type of seconds.
pub struct RandResponse<D> {
    pub seconds: D,
}

/// Answers a request after a delay.
pub fn delayed<D>(seconds: D) -> (reply: (Status, RandResponse<D>))
    ensures
        reply.0@ == 200,
        reply.1.seconds == seconds,
{
    (Status::ok(), RandResponse { seconds })
}

/// A delay is answered with a 200, and as it is.
pub proof fn delay_is_passed_on<D>(seconds: D, reply: (Status, RandResponse<D>))
    requires
        call_ensures(delayed::<D>, (seconds,), reply),
    ensures
        reply.0@ as int / 100 == 2 && reply.0@ as int % 100 == 0,
        reply.1.seconds == seconds,
{
}

/// The service's own spans are told apart from those of the middleware by their scope.
pub proof fn own_spans_have_their_own_scope()
    ensures
        BACKEND_SCOPE@ == "backend"@ + "-service"@,
        BACKEND_SCOPE@ != PKG_NAME@,
        DELAY_SPAN@ == "random"@ + "_handler"@,
{
    reveal_strlit("backend-service");
    reveal_strlit("backend");
    reveal_strlit("-service");
    reveal_strlit("service-common");
    reveal_strlit("random_handler");
    reveal_strlit("random");
    reveal_strlit("_handler");
    assert(BACKEND_SCOPE@ =~= "backend"@ + "-service"@);
    assert(BACKEND_SCOPE@[0] != PKG_NAME@[0]);
    assert(DELAY_SPAN@ =~= "random"@ + "_handler"@);
}

} // verus!
