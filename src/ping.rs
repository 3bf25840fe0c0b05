//! Probe modes, destination resolution and probe outcomes.
use vstd::prelude::*;

use crate::text::{
    decimal, decimal_string, find_first, find_last, first_index, has_prefix, last_index, starts_with,
};

verus! {

/// The protocol a target is probed with.
#[derive(Debug, Clone, Copy, PartialEq, Eq, Structural)]
pub enum PingMode {
    Icmp,
    Tcp,
    HttpGet,
    HttpHead,
}

impl PingMode {
    /// Whether probes in this mode issue an HTTP request.
    pub open spec fn is_http(self) -> bool {
        self == PingMode::HttpGet || self == PingMode::HttpHead
    }

    /// The port used when the destination names none.
    pub open spec fn spec_default_port(self) -> u16 {
        match self {
            PingMode::Tcp => 80,
            PingMode::HttpGet | PingMode::HttpHead => 443,
            PingMode::Icmp => 0,
        }
    }

    /// The lower-case name of the mode, as written in configuration files.
    pub open spec fn name(self) -> Seq<char> {
        match self {
            PingMode::Icmp => seq!['i', 'c', 'm', 'p'],
            PingMode::Tcp => seq!['t', 'c', 'p'],
            PingMode::HttpGet => seq!['h', 't', 't', 'p', '-', 'g', 'e', 't'],
            PingMode::HttpHead => seq!['h', 't', 't', 'p', '-', 'h', 'e', 'a', 'd'],
        }
    }

    pub fn as_str(&self) -> (r: &'static str)
        ensures
            r@ == self.name(),
    {
        match self {
            PingMode::Icmp => {
                proof { reveal_strlit("icmp"); }
                "icmp"
            },
            PingMode::Tcp => {
                proof { reveal_strlit("tcp"); }
                "tcp"
            },
            PingMode::HttpGet => {
                proof { reveal_strlit("http-get"); }
                "http-get"
            },
            PingMode::HttpHead => {
                proof { reveal_strlit("http-head"); }
                "http-head"
            },
        }
    }

    pub fn default_port(&self) -> (r: u16)
        ensures
            r == self.spec_default_port(),
    {
        match self {
            PingMode::Tcp => 80,
            PingMode::HttpGet | PingMode::HttpHead => 443,
            PingMode::Icmp => 0,
        }
    }
}

pub open spec fn is_digit(c: char) -> bool {
    '0' <= c && c <= '9'
}

pub open spec fn digit_value(c: char) -> nat {
    (c as u32 - '0' as u32) as nat
}

/// The number written by the decimal digits `d` (0 for no digits).
pub open spec fn digits_value(d: Seq<char>) -> nat
    decreases d.len(),
{
    if d.len() == 0 {
        0
    } else {
        digits_value(d.drop_last()) * 10 + digit_value(d.last())
    }
}

/// What is left of a port text once an optional leading `+` is taken off.
pub open spec fn port_digits(s: Seq<char>) -> Seq<char> {
    if s.len() > 0 && s[0] == '+' {
        s.drop_first()
    } else {
        s
    }
}

/// A port number as Rust's integer parsing reads it: an optional `+`, then one
/// or more decimal digits and nothing else, with a value that fits in 16 bits.
pub open spec fn parse_port_spec(s: Seq<char>) -> Option<u16> {
    let d = port_digits(s);
    if d.len() > 0 && (forall|i: int| 0 <= i < d.len() ==> is_digit(#[trigger] d[i]))
        && digits_value(d) <= 65535 {
        Some(digits_value(d) as u16)
    } else {
        None
    }
}

proof fn lemma_digits_value_prefix(d: Seq<char>, k: int)
    requires
        0 <= k <= d.len(),
    ensures
        digits_value(d.subrange(0, k)) <= digits_value(d),
    decreases d.len(),
{
    if k < d.len() {
        assert(d.drop_last().subrange(0, k) =~= d.subrange(0, k));
        lemma_digits_value_prefix(d.drop_last(), k);
    } else {
        assert(d.subrange(0, k) =~= d);
    }
}

/// Reads a port number; see `parse_port_spec`.
pub fn parse_port(s: &str) -> (r: Option<u16>)
    ensures
        r == parse_port_spec(s@),
{
    let n = s.unicode_len();
    let start: usize = if n > 0 && s.get_char(0) == '+' { 1 } else { 0 };
    let ghost d = port_digits(s@);
    proof {
        assert(d =~= s@.subrange(start as int, n as int));
    }
    if start >= n {
        return None;
    }
    let mut value: u32 = 0;
    let mut i: usize = start;
    while i < n
        invariant
            n == s@.len(),
            start <= i <= n,
            d == s@.subrange(start as int, n as int),
            d == port_digits(s@),
            value as nat == digits_value(d.subrange(0, i - start)),
            value <= 65535,
            forall|j: int| 0 <= j < i - start ==> is_digit(#[trigger] d[j]),
        decreases n - i,
    {
        let c = s.get_char(i);
        if !('0' <= c && c <= '9') {
            assert(!is_digit(d[i - start]));
            assert(!(forall|j: int| 0 <= j < d.len() ==> is_digit(#[trigger] d[j])));
            return None;
        }
        let ghost k = (i - start) as int;
        let next: u32 = value * 10 + (c as u32 - '0' as u32);
        proof {
            assert(d.subrange(0, k + 1).drop_last() =~= d.subrange(0, k));
            assert(d.subrange(0, k + 1).last() == c);
            assert(next as nat == digits_value(d.subrange(0, k + 1)));
        }
        if next > 65535 {
            proof {
                lemma_digits_value_prefix(d, k + 1);
            }
            return None;
        }
        value = next;
        i = i + 1;
    }
    proof {
        assert(d.subrange(0, (n - start) as int) =~= d);
    }
    Some(value as u16)
}

/// The fixed text of the `http://` scheme.
pub open spec fn http_scheme() -> Seq<char> {
    seq!['h', 't', 't', 'p', ':', '/', '/']
}

/// The fixed text of the `https://` scheme.
pub open spec fn https_scheme() -> Seq<char> {
    seq!['h', 't', 't', 'p', 's', ':', '/', '/']
}

/// Whether `s` is written as an HTTP or HTTPS URL.
pub open spec fn has_scheme(s: Seq<char>) -> bool {
    has_prefix(s, http_scheme()) || has_prefix(s, https_scheme())
}

/// The port implied by a URL's scheme.
pub open spec fn scheme_port(s: Seq<char>) -> u16 {
    if has_prefix(s, http_scheme()) { 80 } else { 443 }
}

/// The part of a URL between its scheme and the first `/` after it.
pub open spec fn authority(s: Seq<char>) -> Seq<char> {
    let skip = if has_prefix(s, http_scheme()) { 7int } else { 8int };
    let rest = s.subrange(skip, s.len() as int);
    rest.subrange(0, first_index(rest, '/'))
}

/// What a destination is once resolved: the text as given, the host alone,
/// the port, and the URL for an HTTP request where there is one.
pub struct DestinationView {
    pub display: Seq<char>,
    pub host: Seq<char>,
    pub port: u16,
    pub url: Option<Seq<char>>,
}

/// The host and port of a URL: the authority split at its first `:`, a port
/// that does not read as a number giving way to the scheme's port.
pub open spec fn url_host_port(s: Seq<char>) -> (Seq<char>, u16) {
    let a = authority(s);
    let colon = first_index(a, ':');
    if colon < a.len() {
        let port = match parse_port_spec(a.subrange(colon + 1, a.len() as int)) {
            Some(p) => p,
            None => scheme_port(s),
        };
        (a.subrange(0, colon), port)
    } else {
        (a, scheme_port(s))
    }
}

/// The host and port of a bare destination: split at its last `:` where what
/// follows reads as a port, else the whole text with the mode's default port.
pub open spec fn bare_host_port(s: Seq<char>, mode: PingMode) -> (Seq<char>, u16) {
    let colon = last_index(s, ':');
    if colon >= 0 {
        match parse_port_spec(s.subrange(colon + 1, s.len() as int)) {
            Some(p) => (s.subrange(0, colon), p),
            None => (s, mode.spec_default_port()),
        }
    } else {
        (s, mode.spec_default_port())
    }
}

/// The URL requested for a bare destination in an HTTP mode.
pub open spec fn https_url(host: Seq<char>, port: u16) -> Seq<char> {
    https_scheme() + host + seq![':'] + decimal(port as nat)
}

/// Resolution of a user-supplied destination for a probe mode.
pub open spec fn resolve(s: Seq<char>, mode: PingMode) -> DestinationView {
    if has_scheme(s) {
        let (host, port) = url_host_port(s);
        DestinationView { display: s, host, port, url: Some(s) }
    } else {
        let (host, port) = bare_host_port(s, mode);
        DestinationView {
            display: s,
            host,
            port,
            url: if mode.is_http() { Some(https_url(host, port)) } else { None },
        }
    }
}

pub open spec fn opt_view(o: Option<String>) -> Option<Seq<char>> {
    match o {
        Some(s) => Some(s@),
        None => None,
    }
}

/// Where and how a target is reached.
#[derive(Debug, Clone)]
pub struct Destination {
    pub display: String,
    pub host: String,
    pub port: u16,
    pub url: Option<String>,
}

impl View for Destination {
    type V = DestinationView;

    open spec fn view(&self) -> DestinationView {
        DestinationView {
            display: self.display@,
            host: self.host@,
            port: self.port,
            url: opt_view(self.url),
        }
    }
}

impl Destination {
    /// The URL an HTTP probe requests: the resolved URL, else the text as given.
    pub fn request_url(&self) -> (r: &str)
        ensures
            r@ == match self.url {
                Some(u) => u@,
                None => self.display@,
            },
    {
        match &self.url {
            Some(u) => u.as_str(),
            None => self.display.as_str(),
        }
    }
}

/// Resolves a destination string for a probe mode. Never fails: text that is
/// not a well-formed address still yields a destination, which the probe
/// then fails to reach.
pub fn parse_destination(input: &str, mode: PingMode) -> (r: Destination)
    ensures
        r@ == resolve(input@, mode),
{
    let n = input.unicode_len();
    let http = starts_with(input, "http://");
    let https = starts_with(input, "https://");
    proof {
        reveal_strlit("http://");
        reveal_strlit("https://");
        assert("http://"@ =~= http_scheme());
        assert("https://"@ =~= https_scheme());
    }
    if http || https {
        let skip: usize = if http { 7 } else { 8 };
        let default_port: u16 = if http { 80 } else { 443 };
        let rest = input.substring_char(skip, n);
        let host_part = match find_first(rest, '/') {
            Some(k) => rest.substring_char(0, k),
            None => {
                assert(rest@.subrange(0, rest@.len() as int) =~= rest@);
                rest
            },
        };
        assert(host_part@ == authority(input@));
        let m = host_part.unicode_len();
        let (host, port) = match find_first(host_part, ':') {
            Some(k) => {
                let port = match parse_port(host_part.substring_char(k + 1, m)) {
                    Some(p) => p,
                    None => default_port,
                };
                (host_part.substring_char(0, k).to_owned(), port)
            },
            None => (host_part.to_owned(), default_port),
        };
        Destination { display: input.to_owned(), host, port, url: Some(input.to_owned()) }
    } else {
        let (host, port) = match find_last(input, ':') {
            Some(k) => match parse_port(input.substring_char(k + 1, n)) {
                Some(p) => (input.substring_char(0, k).to_owned(), p),
                None => (input.to_owned(), mode.default_port()),
            },
            None => (input.to_owned(), mode.default_port()),
        };
        let url = match mode {
            PingMode::HttpGet | PingMode::HttpHead => {
                let mut u = "https://".to_owned();
                u.append(host.as_str());
                u.append(":");
                u.append(decimal_string(port as u64).as_str());
                proof {
                    reveal_strlit(":");
                    assert(u@ =~= https_url(host@, port));
                }
                Some(u)
            },
            _ => None,
        };
        Destination { display: input.to_owned(), host, port, url }
    }
}

/// Resolution is total and never leaves an HTTP mode without a URL; a
/// destination written without a scheme gets no URL in TCP or ICMP mode. (A
/// destination written as a URL keeps it as its URL in every mode.)
pub proof fn lemma_resolve_url_presence(s: Seq<char>, mode: PingMode)
    ensures
        resolve(s, mode).display == s,
        mode.is_http() ==> resolve(s, mode).url is Some,
        !mode.is_http() && !has_scheme(s) ==> resolve(s, mode).url is None,
{
}

/// Resolving the same text in the same mode twice gives the same destination.
pub proof fn lemma_resolve_idempotent(s: Seq<char>, mode: PingMode, a: Destination, b: Destination)
    requires
        a@ == resolve(s, mode),
        b@ == resolve(s, mode),
    ensures
        a@ == b@,
{
}

/// The result of one probe of one target.
#[derive(Debug, Clone)]
pub struct PingOutcome {
    pub host: String,
    pub mode: PingMode,
    /// Time the probe took, in nanoseconds; present exactly on success.
    pub latency_ns: Option<u64>,
    /// The HTTP status received, for HTTP modes on success.
    pub status: Option<u16>,
    pub success: bool,
    /// What went wrong; present exactly on failure.
    pub error: Option<String>,
}

impl PingOutcome {
    /// Latency is present exactly on success, an error exactly on failure.
    pub open spec fn wf(&self) -> bool {
        &&& self.latency_ns is Some <==> self.success
        &&& self.error is Some <==> !self.success
    }

    pub fn success(host: &str, mode: PingMode, latency_ns: u64, status: Option<u16>) -> (r: Self)
        ensures
            r.wf(),
            r.success,
            r.host@ == host@,
            r.mode == mode,
            r.latency_ns == Some(latency_ns),
            r.status == status,
    {
        PingOutcome {
            host: host.to_owned(),
            mode,
            latency_ns: Some(latency_ns),
            status,
            success: true,
            error: None,
        }
    }

    pub fn failure(host: &str, mode: PingMode, error: String) -> (r: Self)
        ensures
            r.wf(),
            !r.success,
            r.host@ == host@,
            r.mode == mode,
            r.status is None,
            opt_view(r.error) == Some(error@),
    {
        PingOutcome {
            host: host.to_owned(),
            mode,
            latency_ns: None,
            status: None,
            success: false,
            error: Some(error),
        }
    }
}

} // verus!
