//! The instruments that the middleware measures with.
use crate::outside;
use vstd::prelude::*;

verus! {

/// A metric that the middleware records.
#[derive(Clone, Copy, Debug, PartialEq, Eq, Structural)]
pub enum Instrument {
    /// A histogram of seconds.
    ServerRequestDuration,
    /// A counter that goes up and down.
    ServerActiveRequests,
    /// A histogram of seconds.
    ClientRequestDuration,
}

/// The name under which a metric is exported.
pub open spec fn instrument_name(instrument: Instrument) -> Seq<char> {
    match instrument {
        Instrument::ServerRequestDuration => "http.server.request.duration"@,
        Instrument::ServerActiveRequests => "http.server.active_requests"@,
        Instrument::ClientRequestDuration => "http.client.request.duration"@,
    }
}

/// The upper bounds of all buckets of a duration but the last, in milliseconds.
pub open spec fn duration_bounds() -> Seq<u32> {
    seq![5, 10, 25, 50, 75, 100, 250, 500, 750, 1000, 2500, 5000, 7500, 10000]
}

impl Instrument {
    /// The name of the metric in the semantic conventions.
    pub fn name(self) -> (name: &'static str)
        ensures
            name@ == instrument_name(self),
    {
        outside::semantic_metric(self)
    }

    /// What the metric measures.
    pub fn description(self) -> (description: &'static str)
        ensures
            description@ == (match self {
                Instrument::ServerRequestDuration => "Duration of HTTP server requests."@,
                Instrument::ServerActiveRequests => "Number of active HTTP server requests."@,
                Instrument::ClientRequestDuration => "Duration of HTTP client requests."@,
            }),
    {
        match self {
            Instrument::ServerRequestDuration => "Duration of HTTP server requests.",
            Instrument::ServerActiveRequests => "Number of active HTTP server requests.",
            Instrument::ClientRequestDuration => "Duration of HTTP client requests.",
        }
    }

    /// The unit that the metric is in.
    pub fn unit(self) -> (unit: &'static str)
        ensures
            unit@ == (match self {
                Instrument::ServerRequestDuration => "s"@,
                Instrument::ServerActiveRequests => "{request}"@,
                Instrument::ClientRequestDuration => "s"@,
            }),
    {
        match self {
            Instrument::ServerRequestDuration => "s",
            Instrument::ServerActiveRequests => "{request}",
            Instrument::ClientRequestDuration => "s",
        }
    }

    /// The bounds of the buckets of a histogram, in milliseconds. A counter has none.
    pub fn bounds(self) -> (bounds: Vec<u32>)
        ensures
            bounds@ == (match self {
                Instrument::ServerRequestDuration => duration_bounds(),
                Instrument::ServerActiveRequests => Seq::empty(),
                Instrument::ClientRequestDuration => duration_bounds(),
            }),
    {
        match self {
            Instrument::ServerActiveRequests => Vec::new(),
            _ => {
                let bounds: Vec<u32> = vec![
                    5,
                    10,
                    25,
                    50,
                    75,
                    100,
                    250,
                    500,
                    750,
                    1000,
                    2500,
                    5000,
                    7500,
                    10000,
                ];
                assert(bounds@ =~= duration_bounds());
                bounds
            },
        }
    }
}

/// The buckets of a duration are in order, and none is empty.
pub proof fn duration_bounds_increase(i: int, j: int)
    requires
        0 <= i < j < duration_bounds().len(),
    ensures
        duration_bounds()[i] < duration_bounds()[j],
{
}

/// No two metrics are exported under one name.
pub proof fn instrument_names_are_distinct(a: Instrument, b: Instrument)
    requires
        instrument_name(a) == instrument_name(b),
    ensures
        a == b,
{
    reveal_strlit("http.server.request.duration");
    reveal_strlit("http.server.active_requests");
    reveal_strlit("http.client.request.duration");
    assert(instrument_name(a)[5] == instrument_name(b)[5]);
    assert(instrument_name(Instrument::ServerRequestDuration)[5] == 's');
    assert(instrument_name(Instrument::ClientRequestDuration)[5] == 'c');
    assert(instrument_name(Instrument::ServerRequestDuration).len() == 28);
    assert(instrument_name(Instrument::ServerActiveRequests).len() == 27);
}

} // verus!
