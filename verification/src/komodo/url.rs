//! Which hosts may be called.

use vstd::prelude::*;
use vstd::string::*;

use crate::text;

verus! {

/// The network that may be called: what the addresses of its hosts have before
/// the last number.
pub const NETWORK: &'static str = "192.168.66.";

/// What follows the first `://` of a text, if it has one.
pub open spec fn after_scheme(s: Seq<char>) -> Option<Seq<char>>
    decreases s.len(),
{
    if s.len() == 0 {
        None
    } else if "://"@.is_prefix_of(s) {
        Some(s.skip("://"@.len() as int))
    } else {
        after_scheme(s.skip(1))
    }
}

/// What stands before the first slash or colon of a text.
pub open spec fn before_mark(s: Seq<char>) -> Seq<char>
    decreases s.len(),
{
    if s.len() == 0 || s[0] == '/' || s[0] == ':' {
        Seq::empty()
    } else {
        seq![s[0]] + before_mark(s.skip(1))
    }
}

/// The host of an address; it is empty where the address has none.
pub open spec fn host_of(url: Seq<char>) -> Seq<char> {
    match after_scheme(url) {
        Some(rest) => before_mark(rest),
        None => Seq::empty(),
    }
}

/// What stands before the first `://` of an address.
pub open spec fn scheme_of(url: Seq<char>) -> Seq<char> {
    match after_scheme(url) {
        Some(rest) => url.take(url.len() - rest.len() - 3),
        None => Seq::empty(),
    }
}

/// Whether a text is a word in letters of either case; `lower` and `upper` are
/// the word in small and in capital letters.
pub open spec fn is_word(s: Seq<char>, lower: Seq<char>, upper: Seq<char>) -> bool {
    &&& s.len() == lower.len()
    &&& s.len() == upper.len()
    &&& forall|i: int| 0 <= i < s.len() ==> #[trigger] s[i] == lower[i] || s[i] == upper[i]
}

/// Whether a scheme is `http` or `https`; the case of its letters does not
/// matter.
pub open spec fn is_http(scheme: Seq<char>) -> bool {
    is_word(scheme, "http"@, "HTTP"@) || is_word(scheme, "https"@, "HTTPS"@)
}

/// What stands before the first slash, question mark or hash of a text.
pub open spec fn before_path(s: Seq<char>) -> Seq<char>
    decreases s.len(),
{
    if s.len() == 0 || s[0] == '/' || s[0] == '?' || s[0] == '#' {
        Seq::empty()
    } else {
        seq![s[0]] + before_path(s.skip(1))
    }
}

/// What an address has between its scheme and its path: the host with its port,
/// and whatever else is written there.
pub open spec fn authority_of(url: Seq<char>) -> Seq<char> {
    match after_scheme(url) {
        Some(rest) => before_path(rest),
        None => Seq::empty(),
    }
}

/// The number that decimal digits make.
pub open spec fn decimal(digits: Seq<char>) -> int
    decreases digits.len(),
{
    if digits.len() == 0 {
        0
    } else {
        10 * decimal(digits.drop_last()) + (digits.last() as int - '0' as int)
    }
}

/// Whether a text is made of decimal digits.
pub open spec fn is_decimal(s: Seq<char>) -> bool {
    s.len() > 0 && forall|i: int| 0 <= i < s.len() ==> '0' <= #[trigger] s[i] <= '9'
}

/// Whether a text is a decimal number from 0 to 255.
pub open spec fn is_octet(s: Seq<char>) -> bool {
    is_decimal(s) && decimal(s) <= 255
}

/// Whether a text is an address in the network: that of the network followed by
/// one number from 0 to 255.
pub open spec fn is_in_network(address: Seq<char>) -> bool {
    NETWORK@.is_prefix_of(address) && is_octet(address.skip(NETWORK@.len() as int))
}

/// The host of an address without a query behind it.
pub open spec fn plain_host(url: Seq<char>) -> Seq<char> {
    before_path(host_of(url))
}

/// Whether an address is plainly one in the network: it is one of HTTP, names no
/// user, and its host is written as the network's followed by a decimal number
/// from 0 to 255.
pub open spec fn is_plain(url: Seq<char>) -> bool {
    &&& is_http(scheme_of(url))
    &&& !authority_of(url).contains('@')
    &&& !authority_of(url).contains('\\')
    &&& is_in_network(plain_host(url))
}

/// What `reqwest` makes of an address: its scheme, and its host if it has one.
/// `None` where it cannot take the text for an address.
pub uninterp spec fn parsed(url: Seq<char>) -> Option<(Seq<char>, Option<Seq<char>>)>;

/// `reqwest::Url::parse`, which every call with an address in a text goes
/// through: the scheme in small letters and the host as it is then called, an
/// address of four numbers in decimal however it was written. They depend on the
/// text alone.
#[verifier::external_body]
fn parse(url: &str) -> (r: Option<(String, Option<String>)>)
    ensures
        r.deep_view() == parsed(url@),
{
    match reqwest::Url::parse(url) {
        Ok(u) => Some((u.scheme().to_string(), match u.host_str() {
            Some(h) => Some(h.to_string()),
            None => None,
        })),
        Err(_) => None,
    }
}

/// The host that is called for an address, given what `reqwest` makes of it, and
/// `None` where nothing is called: `reqwest` calls by HTTP alone.
pub open spec fn destination(
    url: Seq<char>,
    seen: Option<(Seq<char>, Option<Seq<char>>)>,
) -> Option<Seq<char>> {
    if is_plain(url) {
        Some(plain_host(url))
    } else {
        match seen {
            Some((scheme, host)) => if scheme == "http"@ || scheme == "https"@ {
                host
            } else {
                None
            },
            None => None,
        }
    }
}

/// Whether an address may be called, given what `reqwest` makes of it: its host
/// begins as those of the network do, and no other host is called for it.
pub open spec fn allows(
    url: Seq<char>,
    seen: Option<(Seq<char>, Option<Seq<char>>)>,
) -> bool {
    &&& NETWORK@.is_prefix_of(host_of(url))
    &&& destination(url, seen) matches Some(host) ==> is_in_network(host)
}

/// Whether an address may be called.
pub open spec fn is_allowed(url: Seq<char>) -> bool {
    allows(url, parsed(url))
}

/// The error of an address that may not be called.
pub open spec fn not_allowed(url: Seq<char>) -> Seq<char> {
    "URL host "@ + host_of(url) + " not in allowed range 192.168.66.0/24"@
}

/// Where the first `://` of the characters ends.
fn scheme_end(x: &Vec<char>) -> (r: Option<usize>)
    ensures
        match r {
            Some(end) => 3 <= end <= x@.len() && after_scheme(x@) == Some(x@.skip(end as int)),
            None => after_scheme(x@) is None,
        },
{
    proof {
        reveal_strlit("://");
    }
    let n: usize = x.len();
    let mut i: usize = 0;
    assert(x@.skip(0) =~= x@);
    while i < n
        invariant
            i <= n == x@.len(),
            "://"@ == seq![':', '/', '/'],
            after_scheme(x@) == after_scheme(x@.skip(i as int)),
        decreases n - i,
    {
        let ghost rest = x@.skip(i as int);
        assert(rest.skip(1) =~= x@.skip(i + 1));
        if n - i >= 3 && x[i] == ':' && x[i + 1] == '/' && x[i + 2] == '/' {
            assert("://"@.is_prefix_of(rest)) by {
                assert("://"@ =~= rest.subrange(0, 3));
            }
            assert(rest.skip(3) =~= x@.skip(i + 3));
            return Some(i + 3);
        }
        assert(!"://"@.is_prefix_of(rest)) by {
            if "://"@.is_prefix_of(rest) {
                assert(rest.subrange(0, 3) == "://"@);
                assert(rest[0] == rest.subrange(0, 3)[0]);
                assert(rest[1] == rest.subrange(0, 3)[1]);
                assert(rest[2] == rest.subrange(0, 3)[2]);
            }
        }
        i += 1;
    }
    None
}

/// The host of an address.
pub fn host(url: &str) -> (r: String)
    ensures
        r@ == host_of(url@),
{
    let x = text::chars_of(url);
    match scheme_end(&x) {
        Some(from) => {
            let n: usize = x.len();
            let mut to: usize = from;
            let ghost rest = x@.skip(from as int);
            assert(x@.subrange(from as int, from as int) + before_mark(x@.skip(from as int))
                =~= before_mark(rest));
            while to < n && x[to] != '/' && x[to] != ':'
                invariant
                    from <= to <= n == x@.len(),
                    rest == x@.skip(from as int),
                    x@.subrange(from as int, to as int) + before_mark(x@.skip(to as int))
                        == before_mark(rest),
                decreases n - to,
            {
                let ghost left = x@.skip(to as int);
                assert(left.skip(1) =~= x@.skip(to + 1));
                assert(x@.subrange(from as int, to as int) + before_mark(left) =~= x@.subrange(
                    from as int,
                    to + 1,
                ) + before_mark(x@.skip(to + 1)));
                to += 1;
            }
            let r = text::string_of(&x, from, to);
            assert(before_mark(x@.skip(to as int)) =~= Seq::empty());
            assert(r@ =~= before_mark(rest));
            r
        },
        None => String::new(),
    }
}

/// Whether `s` is a word in letters of either case.
fn same_word(s: &str, lower: &str, upper: &str) -> (r: bool)
    ensures
        r == is_word(s@, lower@, upper@),
{
    let x = text::chars_of(s);
    let low = text::chars_of(lower);
    let up = text::chars_of(upper);
    if x.len() != low.len() || x.len() != up.len() {
        return false;
    }
    let mut i: usize = 0;
    while i < x.len()
        invariant
            i <= x@.len() == low@.len() == up@.len(),
            x@ == s@,
            low@ == lower@,
            up@ == upper@,
            forall|k: int| 0 <= k < i ==> #[trigger] s@[k] == lower@[k] || s@[k] == upper@[k],
        decreases x@.len() - i,
    {
        if x[i] != low[i] && x[i] != up[i] {
            assert(!(s@[i as int] == lower@[i as int] || s@[i as int] == upper@[i as int]));
            return false;
        }
        i += 1;
    }
    true
}

/// Where the first slash, question mark or hash of the characters from `from`
/// on stands.
fn path_start(x: &Vec<char>, from: usize) -> (to: usize)
    requires
        from <= x@.len(),
    ensures
        from <= to <= x@.len(),
        x@.subrange(from as int, to as int) == before_path(x@.skip(from as int)),
{
    let n: usize = x.len();
    let mut to: usize = from;
    let ghost all = before_path(x@.skip(from as int));
    assert(x@.subrange(from as int, from as int) + all =~= all);
    while to < n && x[to] != '/' && x[to] != '?' && x[to] != '#'
        invariant
            from <= to <= n == x@.len(),
            x@.subrange(from as int, to as int) + before_path(x@.skip(to as int)) == all,
        decreases n - to,
    {
        let ghost left = x@.skip(to as int);
        assert(left.skip(1) =~= x@.skip(to + 1));
        assert(x@.subrange(from as int, to as int) + before_path(left) =~= x@.subrange(
            from as int,
            to + 1,
        ) + before_path(x@.skip(to + 1)));
        to += 1;
    }
    assert(before_path(x@.skip(to as int)) =~= Seq::empty());
    assert(x@.subrange(from as int, to as int) =~= all);
    to
}

/// More digits make no smaller number.
proof fn decimal_grows(s: Seq<char>, i: int)
    requires
        is_decimal(s),
        0 <= i <= s.len(),
    ensures
        0 <= decimal(s.take(i)) <= decimal(s),
    decreases s.len(),
{
    if i == s.len() {
        assert(s.take(i) =~= s);
        if i > 0 {
            decimal_is_natural(s);
        }
    } else {
        let init = s.drop_last();
        assert(s.take(i) =~= init.take(i));
        assert('0' <= s[s.len() - 1] <= '9');
        if init.len() > 0 {
            assert forall|k: int| 0 <= k < init.len() implies '0' <= #[trigger] init[k] <= '9' by {
                assert(s[k] == init[k]);
            }
            decimal_grows(init, i);
        } else {
            assert(init.take(i) =~= init);
        }
    }
}

proof fn decimal_is_natural(s: Seq<char>)
    requires
        is_decimal(s),
    ensures
        0 <= decimal(s),
    decreases s.len(),
{
    let init = s.drop_last();
    assert('0' <= s[s.len() - 1] <= '9');
    if init.len() > 0 {
        assert forall|k: int| 0 <= k < init.len() implies '0' <= #[trigger] init[k] <= '9' by {
            assert(s[k] == init[k]);
        }
        decimal_is_natural(init);
    }
}

/// The digit that a character is.
fn digit(c: char) -> (r: Option<u32>)
    ensures
        r is Some <==> '0' <= c <= '9',
        r matches Some(d) ==> d == c as int - '0' as int,
{
    if '0' <= c && c <= '9' {
        Some(c as u32 - '0' as u32)
    } else {
        None
    }
}

/// Whether the characters from `from` up to `to` are a decimal number from 0 to
/// 255.
fn octet(x: &Vec<char>, from: usize, to: usize) -> (r: bool)
    requires
        from <= to <= x@.len(),
    ensures
        r == is_octet(x@.subrange(from as int, to as int)),
{
    if from == to {
        return false;
    }
    let ghost s = x@.subrange(from as int, to as int);
    let mut value: u32 = 0;
    let mut i: usize = from;
    assert(s.take(0) =~= Seq::empty());
    while i < to
        invariant
            from <= i <= to <= x@.len(),
            s == x@.subrange(from as int, to as int),
            forall|k: int| 0 <= k < i - from ==> '0' <= #[trigger] s[k] <= '9',
            value == decimal(s.take(i - from)),
            value <= 255,
        decreases to - i,
    {
        let ghost n = i - from;
        assert(s[n] == x@[i as int]);
        assert(s.take(n + 1).drop_last() =~= s.take(n));
        match digit(x[i]) {
            Some(d) => {
                value = 10 * value + d;
            },
            None => {
                return false;
            },
        }
        if value > 255 {
            proof {
                if is_decimal(s) {
                    decimal_grows(s, n + 1);
                }
            }
            return false;
        }
        i += 1;
    }
    assert(s.take(to - from) =~= s);
    true
}

/// Whether a text is an address in the network.
fn in_network(address: &str) -> (r: bool)
    ensures
        r == is_in_network(address@),
{
    if !text::starts_with(address, NETWORK) {
        return false;
    }
    let x = text::chars_of(address);
    let from = text::chars_of(NETWORK).len();
    let r = octet(&x, from, x.len());
    assert(x@.subrange(from as int, x@.len() as int) =~= address@.skip(from as int));
    r
}

/// Whether a character stands among those from `from` up to `to`.
fn holds(x: &Vec<char>, from: usize, to: usize, c: char) -> (r: bool)
    requires
        from <= to <= x@.len(),
    ensures
        r == x@.subrange(from as int, to as int).contains(c),
{
    let ghost s = x@.subrange(from as int, to as int);
    let mut i: usize = from;
    while i < to
        invariant
            from <= i <= to <= x@.len(),
            s == x@.subrange(from as int, to as int),
            forall|k: int| 0 <= k < i - from ==> s[k] != c,
        decreases to - i,
    {
        assert(s[i - from] == x@[i as int]);
        if x[i] == c {
            return true;
        }
        i += 1;
    }
    false
}

/// Whether an address is plainly one in the network.
fn plain(url: &str) -> (r: bool)
    ensures
        r == is_plain(url@),
{
    let x = text::chars_of(url);
    match scheme_end(&x) {
        Some(from) => {
            let scheme = text::string_of(&x, 0, from - 3);
            assert(scheme@ =~= scheme_of(url@));
            let to = path_start(&x, from);
            let host = text::chars_of(host(url).as_str());
            assert(host@.skip(0) =~= host@);
            let end = path_start(&host, 0);
            let address = text::string_of(&host, 0, end);
            (same_word(scheme.as_str(), "http", "HTTP") || same_word(
                scheme.as_str(),
                "https",
                "HTTPS",
            )) && !holds(&x, from, to, '@') && !holds(&x, from, to, '\\') && in_network(
                address.as_str(),
            )
        },
        None => {
            proof {
                reveal_strlit("http");
                reveal_strlit("https");
            }
            false
        },
    }
}

/// The error of an address that may not be called.
pub fn refused(url: &str) -> (r: Option<String>)
    ensures
        r is None <==> is_allowed(url@),
        r matches Some(message) ==> message@ == not_allowed(url@),
{
    refused_as(url, &parse(url))
}

/// The error of an address that may not be called, given what `reqwest` makes of
/// it.
pub fn refused_as(url: &str, seen: &Option<(String, Option<String>)>) -> (r: Option<String>)
    ensures
        r is None <==> allows(url@, seen.deep_view()),
        r matches Some(message) ==> message@ == not_allowed(url@),
{
    let host = host(url);
    let called = match seen {
        Some((scheme, Some(host))) => {
            !(text::same(scheme.as_str(), "http") || text::same(scheme.as_str(), "https"))
                || in_network(host.as_str())
        },
        _ => true,
    };
    if text::starts_with(host.as_str(), NETWORK) && (plain(url) || called) {
        None
    } else {
        Some(
            String::from_str("URL host ").concat(host.as_str()).concat(
                " not in allowed range 192.168.66.0/24",
            ),
        )
    }
}

/// A host holds no slash and no colon.
pub proof fn host_has_no_mark(s: Seq<char>)
    ensures
        !before_mark(s).contains('/'),
        !before_mark(s).contains(':'),
    decreases s.len(),
{
    if s.len() > 0 && s[0] != '/' && s[0] != ':' {
        host_has_no_mark(s.skip(1));
        let rest = before_mark(s.skip(1));
        let all = seq![s[0]] + rest;
        assert forall|i: int| 0 <= i < all.len() implies all[i] != '/' && all[i] != ':' by {
            if i > 0 {
                assert(rest.contains(all[i]));
            }
        }
    }
}

/// An address that is plainly one in the network may be called, whatever is made
/// of it. Between its scheme and its path it has the network's address with one
/// number from 0 to 255, with a colon and a port behind it or not.
pub proof fn plain_is_allowed(
    url: Seq<char>,
    seen: Option<(Seq<char>, Option<Seq<char>>)>,
)
    requires
        is_plain(url),
    ensures
        allows(url, seen),
        ({
            let address = plain_host(url);
            let authority = authority_of(url);
            &&& address == NETWORK@ + address.skip(NETWORK@.len() as int)
            &&& is_octet(address.skip(NETWORK@.len() as int))
            &&& address.is_prefix_of(authority)
            &&& authority.len() > address.len() ==> authority[address.len() as int] == ':'
        }),
{
    reveal_strlit("http");
    reveal_strlit("https");
    let address = plain_host(url);
    assert(address =~= NETWORK@ + address.skip(NETWORK@.len() as int));
    path_leads(host_of(url));
    assert(NETWORK@ =~= host_of(url).subrange(0, NETWORK@.len() as int));
    match after_scheme(url) {
        Some(rest) => {
            host_leads(rest);
        },
        None => {},
    }
}

proof fn path_leads(s: Seq<char>)
    ensures
        before_path(s).is_prefix_of(s),
    decreases s.len(),
{
    let front = before_path(s);
    if s.len() > 0 && s[0] != '/' && s[0] != '?' && s[0] != '#' {
        path_leads(s.skip(1));
        let rest = before_path(s.skip(1));
        assert(rest =~= s.skip(1).subrange(0, rest.len() as int));
        assert(front =~= s.subrange(0, front.len() as int));
    } else {
        assert(front =~= s.subrange(0, 0));
    }
}

proof fn host_leads(s: Seq<char>)
    ensures
        ({
            let host = before_path(before_mark(s));
            let authority = before_path(s);
            &&& host.is_prefix_of(authority)
            &&& authority.len() > host.len() ==> authority[host.len() as int] == ':'
        }),
    decreases s.len(),
{
    let host = before_path(before_mark(s));
    let authority = before_path(s);
    if s.len() > 0 && s[0] != '/' && s[0] != ':' && s[0] != '?' && s[0] != '#' {
        let rest = s.skip(1);
        host_leads(rest);
        let more = before_mark(rest);
        assert(before_mark(s) == seq![s[0]] + more);
        assert((seq![s[0]] + more).skip(1) =~= more);
        assert(host == seq![s[0]] + before_path(more));
        assert(host =~= authority.subrange(0, host.len() as int)) by {
            let h = before_path(more);
            let a = before_path(rest);
            assert(h =~= a.subrange(0, h.len() as int));
        }
    } else {
        assert(host =~= Seq::empty());
        assert(authority.subrange(0, 0) =~= Seq::empty());
    }
}

} // verus!
