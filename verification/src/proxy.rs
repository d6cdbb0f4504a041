//! Proxy-side routing: extracting the destination from a client request and
//! resolving it against the cluster registry.
//!
//! The minimum viable routing policy reads text-based framing: the first
//! `Host:` header line (ASCII-case-insensitively) names the destination as
//! `service.namespace[...][:port]`, with the namespace defaulting when the
//! host has a single label. The owning task reads the bytes and performs the
//! dial; the functions here alone decide where a request goes.

use vstd::prelude::*;
use crate::discovery::DiscoveryManager;
use crate::error::Error;
use crate::registry::find_service_spec;
use crate::{ClusterInfoView, CrossClusterRoute, ServiceInfoView};

verus! {

/// ASCII space or horizontal tab: what header-value trimming removes.
pub open spec fn is_space(c: char) -> bool {
    c == ' ' || c == '\t'
}

/// ASCII-case-insensitive match of `a` against the lowercase letter (or
/// other exact character) `b`.
pub open spec fn ci_eq(a: char, b: char) -> bool {
    a == b || (65 <= a as int <= 90 && a as int + 32 == b as int)
}

/// How many characters lie between index `i` and the first occurrence of
/// `c` at or after it (or the end of the sequence).
pub open spec fn char_dist(s: Seq<char>, i: int, c: char) -> nat
    decreases s.len() - i when 0 <= i <= s.len()
{
    if i >= s.len() {
        0
    } else if s[i] == c {
        0
    } else {
        1 + char_dist(s, i + 1, c)
    }
}

/// The index of the first occurrence of `c` at or after `i`, or the length.
pub open spec fn find_char(s: Seq<char>, i: int, c: char) -> int {
    i + char_dist(s, i, c)
}

/// `find_char` lands in range, on an occurrence if there is one, and skips
/// no occurrence.
pub proof fn lemma_find_char(s: Seq<char>, i: int, c: char)
    requires
        0 <= i <= s.len(),
    ensures
        i <= find_char(s, i, c) <= s.len(),
        find_char(s, i, c) < s.len() ==> s[find_char(s, i, c)] == c,
        forall|k: int| i <= k < find_char(s, i, c) ==> s[k] != c,
    decreases s.len() - i,
{
    if i < s.len() && s[i] != c {
        lemma_find_char(s, i + 1, c);
    }
}

/// A scan that saw no occurrence in `[i, j)` and stopped on one (or the
/// end) computed exactly `find_char`.
pub proof fn lemma_find_char_eq(s: Seq<char>, i: int, j: int, c: char)
    requires
        0 <= i <= j <= s.len(),
        forall|k: int| i <= k < j ==> s[k] != c,
        j == s.len() || s[j] == c,
    ensures
        find_char(s, i, c) == j,
    decreases j - i,
{
    if i < j {
        lemma_find_char_eq(s, i + 1, j, c);
    }
}

/// The number of leading space characters of `[a, b)`.
pub open spec fn space_run(s: Seq<char>, a: int, b: int) -> nat
    decreases b - a when a <= b
{
    if a >= b {
        0
    } else if is_space(s[a]) {
        1 + space_run(s, a + 1, b)
    } else {
        0
    }
}

/// The number of trailing space characters of `[a, b)`.
pub open spec fn space_run_rev(s: Seq<char>, a: int, b: int) -> nat
    decreases b - a when a <= b
{
    if b <= a {
        0
    } else if is_space(s[b - 1]) {
        1 + space_run_rev(s, a, b - 1)
    } else {
        0
    }
}

/// Leading spaces do not run past the end of the range.
pub proof fn lemma_space_run(s: Seq<char>, a: int, b: int)
    requires
        a <= b,
    ensures
        a + space_run(s, a, b) <= b,
    decreases b - a,
{
    if a < b && is_space(s[a]) {
        lemma_space_run(s, a + 1, b);
    }
}

/// A forward scan over spaces that stopped at `t` computed `space_run`.
pub proof fn lemma_space_run_eq(s: Seq<char>, a: int, b: int, t: int)
    requires
        a <= t <= b,
        forall|k: int| a <= k < t ==> is_space(s[k]),
        t == b || !is_space(s[t]),
    ensures
        a + space_run(s, a, b) == t,
    decreases t - a,
{
    if a < t {
        lemma_space_run_eq(s, a + 1, b, t);
    }
}

/// Trailing spaces do not run past the start of the range.
pub proof fn lemma_space_run_rev(s: Seq<char>, a: int, b: int)
    requires
        a <= b,
    ensures
        b - space_run_rev(s, a, b) >= a,
    decreases b - a,
{
    if a < b && is_space(s[b - 1]) {
        lemma_space_run_rev(s, a, b - 1);
    }
}

/// A backward scan over spaces that stopped at `t` computed `space_run_rev`.
pub proof fn lemma_space_run_rev_eq(s: Seq<char>, a: int, b: int, t: int)
    requires
        a <= t <= b,
        forall|k: int| t <= k < b ==> is_space(s[k]),
        t == a || !is_space(s[t - 1]),
    ensures
        b - space_run_rev(s, a, b) == t,
    decreases b - t,
{
    if t < b {
        lemma_space_run_rev_eq(s, a, b - 1, t);
    }
}

/// Where the line that starts at `i` ends, given `j`, the position of its
/// terminating newline (or the end of input): a trailing carriage return
/// belongs to the line break, not to the line.
pub open spec fn line_end(s: Seq<char>, i: int, j: int) -> int {
    if j > i && s[j - 1] == '\r' {
        j - 1
    } else {
        j
    }
}

/// Whether the line `[i, e)` is a `Host:` header line, matched
/// ASCII-case-insensitively.
pub open spec fn is_host_line(s: Seq<char>, i: int, e: int) -> bool {
    e - i >= 5 && ci_eq(s[i], 'h') && ci_eq(s[i + 1], 'o') && ci_eq(s[i + 2], 's') && ci_eq(
        s[i + 3],
        't',
    ) && s[i + 4] == ':'
}

/// The value of the host line `[i, e)`: what follows the colon, with
/// surrounding spaces trimmed.
pub open spec fn host_value(s: Seq<char>, i: int, e: int) -> Seq<char> {
    let ts = i + 5 + space_run(s, i + 5, e);
    let te = e - space_run_rev(s, ts, e);
    s.subrange(ts, te)
}

/// The destination named by the request's framing: the value of its first
/// `Host:` header line, or `None` when no line carries one.
pub open spec fn extract_host_from(s: Seq<char>, i: int) -> Option<Seq<char>>
    decreases s.len() - i when 0 <= i <= s.len()
{
    if i >= s.len() {
        None
    } else {
        let j = find_char(s, i, '\n');
        let e = line_end(s, i, j);
        if is_host_line(s, i, e) {
            Some(host_value(s, i, e))
        } else if j >= s.len() {
            None
        } else {
            extract_host_from(s, j + 1)
        }
    }
}

/// The destination named by the whole request.
pub open spec fn extract_host_spec(s: Seq<char>) -> Option<Seq<char>> {
    extract_host_from(s, 0)
}

/// Exact ASCII-case-insensitive comparison against a known character.
fn char_ci_is(a: char, b: char) -> (r: bool)
    ensures
        r == ci_eq(a, b),
{
    a == b || (a as u32 >= 65 && a as u32 <= 90 && a as u32 + 32 == b as u32)
}

/// Whether the character is trimmed from header values.
fn char_is_space(c: char) -> (r: bool)
    ensures
        r == is_space(c),
{
    c == ' ' || c == '\t'
}

/// Extracts the destination host from the request's text framing: the value
/// of the first `Host:` header line (matched ASCII-case-insensitively, with
/// surrounding spaces trimmed). A request without one is rejected with a
/// proxy error, exactly when the framing names no destination.
pub fn extract_host_header(request: &str) -> (r: Result<String, Error>)
    ensures
        match extract_host_spec(request@) {
            Some(h) => r matches Ok(v) && v@ == h,
            None => r matches Err(e) && e.is_proxy(),
        },
{
    let n = request.unicode_len();
    let ghost s = request@;
    let mut i: usize = 0;
    while i < n
        invariant
            n == s.len(),
            s == request@,
            0 <= i <= n,
            extract_host_from(s, i as int) == extract_host_from(s, 0),
        decreases n - i,
    {
        // Find the end of the current line.
        let mut j: usize = i;
        while j < n && request.get_char(j) != '\n'
            invariant
                n == s.len(),
                s == request@,
                i <= j <= n,
                forall|k: int| i <= k < j ==> s[k] != '\n',
            decreases n - j,
        {
            j += 1;
        }
        proof {
            lemma_find_char_eq(s, i as int, j as int, '\n');
        }
        // Drop a carriage return that belongs to the line break.
        let mut e: usize = j;
        if e > i && request.get_char(e - 1) == '\r' {
            e -= 1;
        }
        proof {
            assert(e as int == line_end(s, i as int, j as int));
        }
        // Is this a Host: header line?
        let host_line = e - i >= 5 && char_ci_is(request.get_char(i), 'h') && char_ci_is(
            request.get_char(i + 1),
            'o',
        ) && char_ci_is(request.get_char(i + 2), 's') && char_ci_is(request.get_char(i + 3), 't')
            && request.get_char(i + 4) == ':';
        if host_line {
            // Trim the value that follows the colon.
            let mut a: usize = i + 5;
            while a < e && char_is_space(request.get_char(a))
                invariant
                    n == s.len(),
                    s == request@,
                    i + 5 <= a <= e <= n,
                    forall|k: int| i + 5 <= k < a ==> is_space(s[k]),
                decreases e - a,
            {
                a += 1;
            }
            proof {
                lemma_space_run_eq(s, i + 5, e as int, a as int);
            }
            let mut b: usize = e;
            while b > a && char_is_space(request.get_char(b - 1))
                invariant
                    n == s.len(),
                    s == request@,
                    a <= b <= e <= n,
                    forall|k: int| b <= k < e ==> is_space(s[k]),
                decreases b,
            {
                b -= 1;
            }
            proof {
                lemma_space_run_rev_eq(s, a as int, e as int, b as int);
                assert(extract_host_from(s, i as int) == Some(s.subrange(a as int, b as int)));
            }
            let host = request.substring_char(a, b);
            return Ok(host.to_owned());
        } else if j >= n {
            proof {
                assert(extract_host_from(s, i as int) is None);
            }
            return Err(Error::Proxy(String::from_str("No Host header found")));
        }
        i = j + 1;
    }
    proof {
        assert(extract_host_from(s, i as int) is None);
    }
    Err(Error::Proxy(String::from_str("No Host header found")))
}

/// The host with any `:port` suffix removed.
pub open spec fn host_core(host: Seq<char>) -> Seq<char> {
    host.take(find_char(host, 0, ':'))
}

/// The service a host names: its first dot-separated label.
pub open spec fn service_of(host: Seq<char>) -> Seq<char> {
    let core = host_core(host);
    core.take(find_char(core, 0, '.'))
}

/// The namespace a host names: its second dot-separated label, or the
/// default namespace when the host has a single label.
pub open spec fn namespace_of(host: Seq<char>) -> Seq<char> {
    let core = host_core(host);
    let d = find_char(core, 0, '.');
    if d >= core.len() {
        "default"@
    } else {
        core.subrange(d + 1, find_char(core, d + 1, '.'))
    }
}

/// Splits a destination host into the (service, namespace) pair it names,
/// after the Kubernetes naming convention `service.namespace[.suffix][:port]`.
pub fn parse_destination(host: &str) -> (r: (String, String))
    ensures
        r.0@ == service_of(host@),
        r.1@ == namespace_of(host@),
{
    let n = host.unicode_len();
    let ghost s = host@;
    // Strip a port suffix: the core is everything before the first colon.
    let mut p: usize = 0;
    while p < n && host.get_char(p) != ':'
        invariant
            n == s.len(),
            s == host@,
            0 <= p <= n,
            forall|k: int| 0 <= k < p ==> s[k] != ':',
        decreases n - p,
    {
        p += 1;
    }
    proof {
        lemma_find_char_eq(s, 0, p as int, ':');
    }
    let ghost core = host_core(s);
    proof {
        assert(core =~= s.subrange(0, p as int));
    }
    // The first label is the service name.
    let mut d: usize = 0;
    while d < p && host.get_char(d) != '.'
        invariant
            n == s.len(),
            s == host@,
            0 <= d <= p <= n,
            forall|k: int| 0 <= k < d ==> s[k] != '.',
        decreases p - d,
    {
        d += 1;
    }
    proof {
        assert(forall|k: int| 0 <= k < d ==> core[k] != '.');
        lemma_find_char_eq(core, 0, d as int, '.');
        assert(core.take(d as int) =~= s.subrange(0, d as int));
    }
    let service = host.substring_char(0, d).to_owned();
    if d >= p {
        (service, String::from_str("default"))
    } else {
        // The second label is the namespace.
        let mut e: usize = d + 1;
        while e < p && host.get_char(e) != '.'
            invariant
                n == s.len(),
                s == host@,
                d + 1 <= e <= p <= n,
                forall|k: int| d + 1 <= k < e ==> s[k] != '.',
            decreases p - e,
        {
            e += 1;
        }
        proof {
            assert(forall|k: int| d + 1 <= k < e ==> core[k] != '.');
            lemma_find_char_eq(core, d + 1, e as int, '.');
            assert(core.subrange(d + 1, e as int) =~= s.subrange(d + 1, e as int));
        }
        let namespace = host.substring_char(d + 1, e).to_owned();
        (service, namespace)
    }
}

/// The index of the first service of `services` advertising the pair, at or
/// after `i`; the length when none does.
pub open spec fn first_match_from(
    services: Seq<ServiceInfoView>,
    name: Seq<char>,
    namespace: Seq<char>,
    i: int,
) -> int
    decreases services.len() - i when 0 <= i <= services.len()
{
    if i >= services.len() {
        i
    } else if services[i].name == name && services[i].namespace == namespace {
        i
    } else {
        first_match_from(services, name, namespace, i + 1)
    }
}

/// The port under which a cluster advertises the pair: the port of its first
/// matching service descriptor.
pub open spec fn advertised_port(c: ClusterInfoView, name: Seq<char>, namespace: Seq<char>) -> u16 {
    let i = first_match_from(c.services, name, namespace, 0);
    if i < c.services.len() {
        c.services[i].port
    } else {
        0
    }
}

/// A scan that saw no match in `[i, t)` and stopped on a match (or the end)
/// computed exactly `first_match_from`.
proof fn lemma_first_match_eq(
    services: Seq<ServiceInfoView>,
    name: Seq<char>,
    namespace: Seq<char>,
    i: int,
    t: int,
)
    requires
        0 <= i <= t <= services.len(),
        forall|k: int|
            i <= k < t ==> !((#[trigger] services[k]).name == name && services[k].namespace
                == namespace),
        t == services.len() || (services[t].name == name && services[t].namespace == namespace),
    ensures
        first_match_from(services, name, namespace, i) == t,
    decreases t - i,
{
    if i < t {
        lemma_first_match_eq(services, name, namespace, i + 1, t);
    }
}

/// The port under which the cluster advertises the pair, or `None` exactly
/// when it does not advertise it.
fn service_port_in(cluster: &crate::ClusterInfo, name: &String, namespace: &String) -> (r: Option<
    u16,
>)
    ensures
        match r {
            Some(p) => cluster@.advertises(name@, namespace@) && p == advertised_port(
                cluster@,
                name@,
                namespace@,
            ),
            None => !cluster@.advertises(name@, namespace@),
        },
{
    let n = cluster.services.len();
    let mut i: usize = 0;
    while i < n
        invariant
            n == cluster.services@.len(),
            i <= n,
            forall|k: int|
                0 <= k < i ==> !((#[trigger] cluster@.services[k]).name == name@
                    && cluster@.services[k].namespace == namespace@),
        decreases n - i,
    {
        if cluster.services[i].name == *name && cluster.services[i].namespace == *namespace {
            proof {
                lemma_first_match_eq(cluster@.services, name@, namespace@, 0, i as int);
                assert(cluster@.services[i as int].name == name@);
            }
            return Some(cluster.services[i].port);
        }
        i += 1;
    }
    None
}

/// Resolves a destination host against the registry: the
/// most-recently-updated cluster advertising the (service, namespace) the
/// host names, together with the advertised port. A host no registered
/// cluster can serve is rejected with a proxy error, exactly then.
pub fn resolve_route(discovery: &DiscoveryManager, host: &str) -> (r: Result<
    CrossClusterRoute,
    Error,
>)
    ensures
        match find_service_spec(
            discovery.clusters_view(),
            service_of(host@),
            namespace_of(host@),
        ) {
            Some(c) => r matches Ok(route) && route@.target_cluster == c.id && route@.target_service
                == service_of(host@) && route@.target_namespace == namespace_of(host@)
                && route@.target_port == advertised_port(c, service_of(host@), namespace_of(host@)),
            None => r matches Err(e) && e.is_proxy(),
        },
{
    let (service, namespace) = parse_destination(host);
    match discovery.find_service(service.as_str(), namespace.as_str()) {
        Some(cluster) => {
            match service_port_in(&cluster, &service, &namespace) {
                Some(port) => Ok(
                    CrossClusterRoute {
                        target_cluster: cluster.id,
                        target_service: service,
                        target_namespace: namespace,
                        target_port: port,
                    },
                ),
                None => {
                    proof {
                        crate::registry::lemma_find_service_some(
                            discovery.clusters_view(),
                            service_of(host@),
                            namespace_of(host@),
                        );
                        assert(false);
                    }
                    Err(Error::Proxy(String::from_str("service not found")))
                }
            }
        }
        None => Err(Error::Proxy(String::from_str("service not found"))),
    }
}

/// The routing decision for one accepted client connection: extract the
/// destination from the request's framing, then resolve it. A request
/// without routing metadata, and a destination no registered cluster
/// advertises, are each rejected with a proxy error — and only those.
pub fn route_request(discovery: &DiscoveryManager, request: &str) -> (r: Result<
    CrossClusterRoute,
    Error,
>)
    ensures
        match extract_host_spec(request@) {
            None => r matches Err(e) && e.is_proxy(),
            Some(h) => match find_service_spec(
                discovery.clusters_view(),
                service_of(h),
                namespace_of(h),
            ) {
                Some(c) => r matches Ok(route) && route@.target_cluster == c.id
                    && route@.target_service == service_of(h) && route@.target_namespace
                    == namespace_of(h) && route@.target_port == advertised_port(
                    c,
                    service_of(h),
                    namespace_of(h),
                ),
                None => r matches Err(e) && e.is_proxy(),
            },
        },
{
    match extract_host_header(request) {
        Ok(host) => resolve_route(discovery, host.as_str()),
        Err(e) => Err(e),
    }
}

} // verus!
