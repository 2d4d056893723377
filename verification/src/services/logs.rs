//! Which log lines are exported.
use vstd::prelude::*;

verus! {

/// The level of what no directive names.
pub const DEFAULT_LEVEL: &'static str = "info";

/// The directives of a service: everything of its own and of the layers that it is built on, and
/// nothing of what the export itself causes.
pub open spec fn service_directives(service: Seq<char>) -> Seq<Seq<char>> {
    seq![
        service + "=trace"@,
        "service_common=trace"@,
        "hyper=off"@,
        "tonic=off"@,
        "h2=off"@,
        "reqwest=off"@,
        "tower=off"@,
        "tower_http=trace"@,
        "axum=trace"@,
    ]
}

/// The directives of the service with the given crate name.
pub fn log_directives(service: &str) -> (directives: Vec<String>)
    ensures
        directives.deep_view() == service_directives(service@),
{
    let mut own = service.to_owned();
    own.append("=trace");
    let directives = vec![
        own,
        "service_common=trace".to_owned(),
        "hyper=off".to_owned(),
        "tonic=off".to_owned(),
        "h2=off".to_owned(),
        "reqwest=off".to_owned(),
        "tower=off".to_owned(),
        "tower_http=trace".to_owned(),
        "axum=trace".to_owned(),
    ];
    assert(directives.deep_view() =~= service_directives(service@));
    directives
}

/// Services differ in the first of their directives alone, which exports everything of their own.
pub proof fn services_export_their_own_logs(
    a: &str,
    b: &str,
    directives: (Vec<String>, Vec<String>),
    i: int,
)
    requires
        call_ensures(log_directives, (a,), directives.0),
        call_ensures(log_directives, (b,), directives.1),
        0 < i < directives.0@.len(),
    ensures
        directives.0@.len() == directives.1@.len() == 9,
        a@.is_prefix_of(directives.0@[0]@),
        "=trace"@.is_suffix_of(directives.0@[0]@),
        directives.0@[0]@.len() == a@.len() + "=trace"@.len(),
        directives.0@[i]@ == directives.1@[i]@,
{
    let first = directives.0.deep_view();
    let second = directives.1.deep_view();
    assert(first == service_directives(a@));
    assert(second == service_directives(b@));
    assert(first[0] == directives.0@[0]@);
    assert(first[i] == directives.0@[i]@);
    assert(second[i] == directives.1@[i]@);
    let own = directives.0@[0]@;
    assert(own.subrange(0, a@.len() as int) =~= a@);
    assert(own.subrange(a@.len() as int, own.len() as int) =~= "=trace"@);
}

/// Nothing that the export itself causes is exported, and everything of the layers that a service is
/// built on is.
pub proof fn export_does_not_feed_itself(service: &str, directives: Vec<String>)
    requires
        call_ensures(log_directives, (service,), directives),
    ensures
        directives.deep_view().skip(1) == seq![
            "service_common=trace"@,
            "hyper=off"@,
            "tonic=off"@,
            "h2=off"@,
            "reqwest=off"@,
            "tower=off"@,
            "tower_http=trace"@,
            "axum=trace"@,
        ],
{
}

/// What no directive names is exported from the level of information on, neither all of it nor
/// nothing.
pub proof fn default_level_is_information()
    ensures
        DEFAULT_LEVEL@ == seq!['i', 'n', 'f', 'o'],
{
    reveal_strlit("info");
    assert(DEFAULT_LEVEL@ =~= seq!['i', 'n', 'f', 'o']);
}

} // verus!
