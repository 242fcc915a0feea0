//! Network probing helpers: what is decided from the output of `ipconfig`,
//! `ip` and `ifconfig`, and from the answers of the captive-portal probes.

use vstd::prelude::*;
use crate::text::{
    decimal, decimal_string, split_words, starts_with, starts_with_str, trim_whitespace, trimmed,
    words,
};
use crate::vpn::{LOCAL_PROXY_HOST, LOCAL_PROXY_PORT};

verus! {

/// The pieces of `s` between occurrences of `sep`, as `str::split` yields them.
pub open spec fn split_on(s: Seq<char>, sep: char) -> Seq<Seq<char>>
    decreases s.len(),
{
    if s.len() == 0 {
        seq![seq![]]
    } else {
        let prev = split_on(s.drop_last(), sep);
        if s.last() == sep {
            prev.push(seq![])
        } else {
            prev.update(prev.len() - 1, prev.last().push(s.last()))
        }
    }
}

pub proof fn lemma_split_nonempty(s: Seq<char>, sep: char)
    ensures
        split_on(s, sep).len() >= 1,
    decreases s.len(),
{
    if s.len() > 0 {
        lemma_split_nonempty(s.drop_last(), sep);
    }
}

/// Splits `s` at every `sep`.
pub fn split_char(s: &str, sep: char) -> (r: Vec<String>)
    ensures
        r@.map_values(|p: String| p@) == split_on(s@, sep),
{
    let n = s.unicode_len();
    let mut parts: Vec<String> = Vec::new();
    let mut start: usize = 0;
    let mut i: usize = 0;
    assert(s@.subrange(0, 0) =~= Seq::<char>::empty());
    assert(parts@.map_values(|p: String| p@) =~= Seq::<Seq<char>>::empty());
    assert(parts@.map_values(|p: String| p@).push(s@.subrange(0, 0)) =~= seq![seq![]]);
    while i < n
        invariant
            n == s@.len(),
            start <= i <= n,
            parts@.map_values(|p: String| p@).push(s@.subrange(start as int, i as int)) == split_on(
                s@.subrange(0, i as int),
                sep,
            ),
        decreases n - i,
    {
        let c = s.get_char(i);
        let ghost prev = split_on(s@.subrange(0, i as int), sep);
        proof {
            let next = s@.subrange(0, i + 1);
            assert(next.drop_last() =~= s@.subrange(0, i as int));
            assert(next.last() == c);
            lemma_split_nonempty(s@.subrange(0, i as int), sep);
        }
        if c == sep {
            let ghost done = parts@.map_values(|p: String| p@);
            let piece = String::from_str(s.substring_char(start, i));
            parts.push(piece);
            assert(parts@.map_values(|p: String| p@) =~= done.push(s@.subrange(start as int, i as int)));
            start = i + 1;
            assert(s@.subrange(start as int, i + 1) =~= Seq::<char>::empty());
            assert(parts@.map_values(|p: String| p@).push(s@.subrange(start as int, i + 1)) =~= prev.push(
                seq![],
            ));
        } else {
            assert(s@.subrange(start as int, i + 1) =~= s@.subrange(start as int, i as int).push(c));
            assert(parts@.map_values(|p: String| p@).push(s@.subrange(start as int, i + 1))
                =~= prev.update(prev.len() - 1, prev.last().push(c)));
        }
        i = i + 1;
    }
    parts.push(String::from_str(s.substring_char(start, n)));
    assert(s@.subrange(0, n as int) =~= s@);
    parts
}

/// Whether `pat` occurs in `s`.
pub open spec fn contains(s: Seq<char>, pat: Seq<char>) -> bool {
    exists|i: int| 0 <= i <= s.len() - pat.len() && #[trigger] s.subrange(i, i + pat.len()) == pat
}

/// Looks for `pat` in `s`, as `str::contains` does.
pub fn contains_str(s: &str, pat: &str) -> (r: bool)
    ensures
        r == contains(s@, pat@),
{
    let n = s.unicode_len();
    let k = pat.unicode_len();
    if k == 0 {
        assert(s@.subrange(0, 0 + pat@.len() as int) =~= pat@);
        return true;
    }
    if k > n {
        return false;
    }
    let mut i: usize = 0;
    while i <= n - k
        invariant
            n == s@.len(),
            k == pat@.len(),
            0 < k <= n,
            i <= n - k + 1,
            forall|j: int| 0 <= j < i ==> #[trigger] s@.subrange(j, j + k) != pat@,
        decreases n - k + 1 - i,
    {
        let piece = String::from_str(s.substring_char(i, i + k));
        let p = String::from_str(pat);
        if piece == p {
            return true;
        }
        i = i + 1;
    }
    false
}

pub open spec fn is_digit(c: char) -> bool {
    '0' <= c && c <= '9'
}

/// The value of a run of decimal digits.
pub open spec fn digits_value(d: Seq<char>) -> nat
    decreases d.len(),
{
    if d.len() == 0 {
        0
    } else {
        digits_value(d.drop_last()) * 10 + (d.last() as nat - '0' as nat) as nat
    }
}

/// `t` without a leading `+`.
pub open spec fn unsigned_part(t: Seq<char>) -> Seq<char> {
    if t.len() > 0 && t[0] == '+' {
        t.drop_first()
    } else {
        t
    }
}

pub open spec fn all_digits(d: Seq<char>) -> bool {
    forall|i: int| 0 <= i < d.len() ==> is_digit(#[trigger] d[i])
}

/// What `u8::from_str` accepts: an optional `+`, then one or more decimal
/// digits whose value fits in a byte.
pub open spec fn parsed_u8(t: Seq<char>) -> Option<u8> {
    let d = unsigned_part(t);
    if d.len() > 0 && all_digits(d) && digits_value(d) <= 255 {
        Some(digits_value(d) as u8)
    } else {
        None
    }
}

/// Parses a byte in decimal, as `u8::from_str` does.
pub fn parse_u8(t: &str) -> (r: Option<u8>)
    ensures
        r == parsed_u8(t@),
{
    let n = t.unicode_len();
    let mut start: usize = 0;
    if n > 0 && t.get_char(0) == '+' {
        start = 1;
    }
    let ghost d = unsigned_part(t@);
    assert(d =~= t@.subrange(start as int, n as int));
    if start == n {
        return None;
    }
    let mut v: u32 = 0;
    let mut over = false;
    let mut i: usize = start;
    while i < n
        invariant
            n == t@.len(),
            start < n,
            start <= i <= n,
            d == t@.subrange(start as int, n as int),
            d == unsigned_part(t@),
            forall|j: int| start <= j < i ==> is_digit(#[trigger] t@[j]),
            !over ==> v == digits_value(t@.subrange(start as int, i as int)) && v <= 255,
            over ==> digits_value(t@.subrange(start as int, i as int)) > 255,
        decreases n - i,
    {
        let c = t.get_char(i);
        if !('0' <= c && c <= '9') {
            assert(d[i - start] == c);
            return None;
        }
        let ghost before = t@.subrange(start as int, i as int);
        let ghost after = t@.subrange(start as int, i + 1);
        assert(after.drop_last() =~= before);
        assert(digits_value(after) == digits_value(before) * 10 + (c as nat - '0' as nat) as nat);
        if !over {
            v = v * 10 + (c as u32 - '0' as u32);
            if v > 255 {
                over = true;
            }
        } else {
            assert(digits_value(after) >= digits_value(before)) by (nonlinear_arith)
                requires
                    digits_value(after) == digits_value(before) * 10 + (c as nat - '0' as nat) as nat,
            ;
        }
        i = i + 1;
    }
    assert(all_digits(d)) by {
        assert forall|j: int| 0 <= j < d.len() implies is_digit(#[trigger] d[j]) by {
            assert(d[j] == t@[j + start]);
        }
    }
    if over {
        None
    } else {
        Some(v as u8)
    }
}

/// The private ranges: 10.0.0.0/8, 172.16.0.0/12 and 192.168.0.0/16.
pub open spec fn is_private_octets(a: u8, b: u8) -> bool {
    a == 10 || (a == 172 && 16 <= b && b <= 31) || (a == 192 && b == 168)
}

/// Whether `ip` is a dotted quad in one of the private IPv4 ranges.
pub open spec fn spec_is_private_ip(ip: Seq<char>) -> bool {
    let parts = split_on(ip, '.');
    &&& parts.len() == 4
    &&& forall|i: int| 0 <= i < 4 ==> (#[trigger] parsed_u8(parts[i])) is Some
    &&& is_private_octets(parsed_u8(parts[0])->0, parsed_u8(parts[1])->0)
}

pub fn is_private_ip(ip: &str) -> (r: bool)
    ensures
        r == spec_is_private_ip(ip@),
{
    let parts = split_char(ip, '.');
    let ghost views = parts@.map_values(|p: String| p@);
    if parts.len() != 4 {
        return false;
    }
    assert(views[0] == parts@[0]@ && views[1] == parts@[1]@ && views[2] == parts@[2]@ && views[3]
        == parts@[3]@);
    let a = parse_u8(parts[0].as_str());
    let b = parse_u8(parts[1].as_str());
    let c = parse_u8(parts[2].as_str());
    let d = parse_u8(parts[3].as_str());
    match (a, b, c, d) {
        (Some(a), Some(b), Some(_), Some(_)) => {
            assert(forall|i: int| 0 <= i < 4 ==> (#[trigger] parsed_u8(views[i])) is Some) by {
                assert forall|i: int| 0 <= i < 4 implies (#[trigger] parsed_u8(views[i])) is Some by {
                    if i == 0 {} else if i == 1 {} else if i == 2 {} else {}
                }
            }
            a == 10 || (a == 172 && 16 <= b && b <= 31) || (a == 192 && b == 168)
        },
        _ => {
            proof {
                if a is None {
                    assert(parsed_u8(views[0]) is None);
                } else if b is None {
                    assert(parsed_u8(views[1]) is None);
                } else if c is None {
                    assert(parsed_u8(views[2]) is None);
                } else {
                    assert(parsed_u8(views[3]) is None);
                }
            }
            false
        },
    }
}

/// A line of `ipconfig` output that names an IPv4 address, leaving out
/// link-local and carrier-grade NAT ones.
pub open spec fn is_ipv4_line(line: Seq<char>) -> bool {
    contains(line, "IPv4"@) && !contains(line, "169.254."@) && !contains(line, "100.127."@)
}

/// The address on the first IPv4 line that has a value after a colon.
pub open spec fn first_ipv4_address(lines: Seq<Seq<char>>) -> Option<Seq<char>>
    decreases lines.len(),
{
    if lines.len() == 0 {
        None
    } else if is_ipv4_line(lines[0]) && split_on(lines[0], ':').len() >= 2 {
        Some(trimmed(split_on(lines[0], ':')[1]))
    } else {
        first_ipv4_address(lines.drop_first())
    }
}

/// The LAN address that `ipconfig` reports, or `"unknown"`.
pub fn lan_ip_from_ipconfig(output: &str) -> (r: Result<String, String>)
    ensures
        first_ipv4_address(split_on(output@, '\n')) matches Some(ip) ==> (r matches Ok(a) && a@
            == ip),
        first_ipv4_address(split_on(output@, '\n')) is None ==> (r matches Err(e) && e@
            == "unknown"@),
{
    let lines = split_char(output, '\n');
    let ghost all = split_on(output@, '\n');
    let mut i: usize = 0;
    assert(all.subrange(0, all.len() as int) =~= all);
    while i < lines.len()
        invariant
            lines@.map_values(|p: String| p@) == all,
            all == split_on(output@, '\n'),
            i <= lines.len(),
            first_ipv4_address(all) == first_ipv4_address(all.subrange(i as int, all.len() as int)),
        decreases lines.len() - i,
    {
        let line = lines[i].as_str();
        assert(line@ == all[i as int]);
        let ghost rest = all.subrange(i as int, all.len() as int);
        assert(rest[0] == all[i as int]);
        assert(rest.drop_first() =~= all.subrange(i + 1, all.len() as int));
        if contains_str(line, "IPv4") && !contains_str(line, "169.254.") && !contains_str(
            line,
            "100.127.",
        ) {
            let fields = split_char(line, ':');
            if fields.len() >= 2 {
                assert(fields@.map_values(|p: String| p@)[1] == fields@[1]@);
                assert(first_ipv4_address(rest) == Some(trimmed(split_on(rest[0], ':')[1])));
                return Ok(trim_whitespace(fields[1].as_str()));
            }
        }
        assert(first_ipv4_address(rest) == first_ipv4_address(rest.drop_first()));
        i = i + 1;
    }
    Err(String::from_str("unknown"))
}

/// The LAN address printed by the `ip` pipeline, without surrounding blanks.
pub fn lan_ip_from_ip_output(output: &str) -> (r: String)
    ensures
        r@ == trimmed(output@),
{
    trim_whitespace(output)
}

/// What has been learnt from the `ifconfig` lines read so far.
pub struct IfconfigScan {
    pub interface: Seq<char>,
    pub up: bool,
    pub running: bool,
    pub best: Option<Seq<char>>,
}

/// A line that opens an interface block: unindented, with a colon.
pub open spec fn is_interface_line(line: Seq<char>) -> bool {
    !starts_with(line, "\t"@) && !starts_with(line, " "@) && contains(line, ":"@)
}

pub open spec fn after_header(st: IfconfigScan, line: Seq<char>) -> IfconfigScan {
    if is_interface_line(line) {
        IfconfigScan {
            interface: split_on(line, ':')[0],
            up: contains(line, "UP"@),
            running: contains(line, "RUNNING"@),
            best: st.best,
        }
    } else {
        st
    }
}

/// The private address on an `inet` line of an interface that is up and
/// running. Loopback and link-local addresses are never private.
pub open spec fn inet_candidate(st: IfconfigScan, line: Seq<char>) -> Option<Seq<char>> {
    let t = trimmed(line);
    if starts_with(t, "inet "@) && st.up && st.running && words(t).len() >= 2
        && spec_is_private_ip(words(t)[1]) {
        Some(words(t)[1])
    } else {
        None
    }
}

/// The LAN address of the remaining lines: the first candidate of `en0`, else
/// the first candidate of any interface.
pub open spec fn scan_ifconfig(st: IfconfigScan, lines: Seq<Seq<char>>) -> Option<Seq<char>>
    decreases lines.len(),
{
    if lines.len() == 0 {
        st.best
    } else {
        let st1 = after_header(st, lines[0]);
        match inet_candidate(st1, lines[0]) {
            Some(ip) => if st1.interface == "en0"@ {
                Some(ip)
            } else {
                scan_ifconfig(
                    IfconfigScan {
                        best: if st1.best is None {
                            Some(ip)
                        } else {
                            st1.best
                        },
                        ..st1
                    },
                    lines.drop_first(),
                )
            },
            None => scan_ifconfig(st1, lines.drop_first()),
        }
    }
}

pub open spec fn text_opt_view(o: Option<String>) -> Option<Seq<char>> {
    match o {
        Some(t) => Some(t@),
        None => None,
    }
}

pub open spec fn initial_scan() -> IfconfigScan {
    IfconfigScan { interface: seq![], up: false, running: false, best: None }
}

/// The LAN address that `ifconfig` reports, preferring `en0`.
pub fn lan_ip_from_ifconfig(output: &str) -> (r: Result<String, String>)
    ensures
        scan_ifconfig(initial_scan(), split_on(output@, '\n')) matches Some(ip) ==> (r matches Ok(
            a,
        ) && a@ == ip),
        scan_ifconfig(initial_scan(), split_on(output@, '\n')) is None ==> (r matches Err(e) && e@
            == "No LAN IP found"@),
{
    let lines = split_char(output, '\n');
    let ghost all = split_on(output@, '\n');
    let mut best: Option<String> = None;
    let mut interface = String::new();
    let mut up = false;
    let mut running = false;
    let mut i: usize = 0;
    assert(all.subrange(0, all.len() as int) =~= all);
    assert(interface@ =~= Seq::<char>::empty());
    while i < lines.len()
        invariant
            lines@.map_values(|p: String| p@) == all,
            all == split_on(output@, '\n'),
            i <= lines.len(),
            scan_ifconfig(initial_scan(), all) == scan_ifconfig(
                IfconfigScan {
                    interface: interface@,
                    up,
                    running,
                    best: text_opt_view(best),
                },
                all.subrange(i as int, all.len() as int),
            ),
        decreases lines.len() - i,
    {
        let line = lines[i].as_str();
        let ghost rest = all.subrange(i as int, all.len() as int);
        let ghost st = IfconfigScan {
            interface: interface@,
            up,
            running,
            best: text_opt_view(best),
        };
        assert(line@ == all[i as int]);
        assert(rest[0] == all[i as int]);
        assert(rest.drop_first() =~= all.subrange(i + 1, all.len() as int));
        if !starts_with_str(line, "\t") && !starts_with_str(line, " ") && contains_str(line, ":") {
            let fields = split_char(line, ':');
            proof {
                lemma_split_nonempty(line@, ':');
            }
            assert(fields@.map_values(|p: String| p@)[0] == fields@[0]@);
            interface = fields[0].clone();
            up = contains_str(line, "UP");
            running = contains_str(line, "RUNNING");
        }
        let ghost st1 = IfconfigScan {
            interface: interface@,
            up,
            running,
            best: text_opt_view(best),
        };
        assert(st1 == after_header(st, line@));
        let t = trim_whitespace(line);
        let mut candidate: Option<String> = None;
        if starts_with_str(t.as_str(), "inet ") && up && running {
            let parts = split_words(t.as_str());
            if parts.len() >= 2 {
                assert(parts@.map_values(|w: String| w@)[1] == parts@[1]@);
                if is_private_ip(parts[1].as_str()) {
                    candidate = Some(parts[1].clone());
                }
            }
        }
        assert(text_opt_view(candidate) == inet_candidate(st1, line@));
        match candidate {
            Some(ip) => {
                let is_en0 = {
                    let en0 = String::from_str("en0");
                    interface == en0
                };
                if is_en0 {
                    return Ok(ip);
                }
                if best.is_none() {
                    best = Some(ip);
                }
            },
            None => {},
        }
        i = i + 1;
    }
    match best {
        Some(b) => Ok(b),
        None => Err(String::from_str("No LAN IP found")),
    }
}

/// Asked when the captive portal redirects; also the fallback answer.
pub const DEFAULT_CAPTIVE_URL: &'static str = "http://captive.oneoh.cloud";

/// Answers 200 without redirecting when the network is open.
pub const CAPTIVE_PROBE_URL: &'static str = "http://captive.apple.com/";

/// Answers 204 when the proxy reaches the internet.
pub const PING_URL: &'static str = "https://www.google.com/generate_204";

/// Budget of each captive-portal or ping request.
pub const PROBE_TIMEOUT_MS: u64 = 10000;

pub open spec fn is_redirection(status: u16) -> bool {
    300 <= status && status <= 399
}

pub open spec fn is_success(status: u16) -> bool {
    200 <= status && status <= 299
}

/// The network state from the captive-portal probe: 0 when it answered 200,
/// 1 when it redirected (authentication needed), -1 otherwise. `status` is
/// `None` when the request failed.
pub fn captive_portal_status(status: Option<u16>) -> (r: i8)
    ensures
        r == (match status {
            Some(code) => if code == 200 {
                0i8
            } else if is_redirection(code) {
                1i8
            } else {
                -1i8
            },
            None => -1i8,
        }),
{
    match status {
        Some(code) => if code == 200 {
            0
        } else if 300 <= code && code <= 399 {
            1
        } else {
            -1
        },
        None => -1,
    }
}

/// Where the captive portal sends the browser: the `Location` of a
/// redirection when it has a readable one, `DEFAULT_CAPTIVE_URL` otherwise.
pub fn captive_redirect_url(status: Option<u16>, location: Option<String>) -> (r: String)
    ensures
        (status matches Some(code) && is_redirection(code)) && location is Some ==> r@
            == location->0@,
        !(status matches Some(code) && is_redirection(code)) || location is None ==> r@
            == DEFAULT_CAPTIVE_URL@,
{
    match (status, location) {
        (Some(code), Some(url)) if 300 <= code && code <= 399 => url,
        _ => String::from_str(DEFAULT_CAPTIVE_URL),
    }
}

/// Whether the ping through the local proxy answered with a success status.
pub fn ping_succeeded(status: Option<u16>) -> (r: bool)
    ensures
        r == (status matches Some(code) && is_success(code)),
{
    match status {
        Some(code) => 200 <= code && code <= 299,
        None => false,
    }
}

/// `http://<host>:<port>` of the local proxy listener.
pub fn local_proxy_url() -> (r: String)
    ensures
        r@ == "http://"@ + LOCAL_PROXY_HOST@ + ":"@ + decimal(LOCAL_PROXY_PORT as nat),
{
    String::from_str("http://").concat(LOCAL_PROXY_HOST).concat(":").concat(
        decimal_string(LOCAL_PROXY_PORT as u64).as_str(),
    )
}

} // verus!
