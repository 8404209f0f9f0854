//! How an address is read, and which addresses may be called.

use vstd::prelude::*;

use super::url;

verus! {

/// Whether the first `://` of `front + "://"` is the one at its end.
pub open spec fn is_front(front: Seq<char>) -> bool {
    forall|i: int|
        0 <= i < front.len() ==> !"://"@.is_prefix_of(#[trigger] (front + "://"@).skip(i))
}

proof fn scheme_is_cut_off(front: Seq<char>, rest: Seq<char>)
    requires
        is_front(front),
    ensures
        url::after_scheme(front + "://"@ + rest) == Some(rest),
    decreases front.len(),
{
    reveal_strlit("://");
    let mark = "://"@;
    let all = front + mark + rest;
    if front.len() == 0 {
        assert(mark =~= all.subrange(0, 3));
        assert(all.skip(3) =~= rest);
    } else {
        let short = front + mark;
        assert(short.skip(0) =~= short);
        if mark.is_prefix_of(all) {
            assert(short.subrange(0, 3) =~= all.subrange(0, 3));
            assert(mark.is_prefix_of(short));
        }
        let next = front.skip(1);
        assert forall|i: int| 0 <= i < next.len() implies !mark.is_prefix_of(
            #[trigger] (next + mark).skip(i),
        ) by {
            assert((next + mark).skip(i) =~= short.skip(i + 1));
        }
        scheme_is_cut_off(next, rest);
        assert(all.skip(1) =~= next + mark + rest);
    }
}

proof fn nothing_is_cut_off(s: Seq<char>)
    requires
        forall|i: int| 0 <= i < s.len() ==> !"://"@.is_prefix_of(#[trigger] s.skip(i)),
    ensures
        url::after_scheme(s) is None,
    decreases s.len(),
{
    if s.len() > 0 {
        assert(s.skip(0) =~= s);
        assert forall|i: int| 0 <= i < s.skip(1).len() implies !"://"@.is_prefix_of(
            #[trigger] s.skip(1).skip(i),
        ) by {
            assert(s.skip(1).skip(i) =~= s.skip(i + 1));
        }
        nothing_is_cut_off(s.skip(1));
    }
}

proof fn host_is_cut_off(host: Seq<char>, rest: Seq<char>)
    requires
        !host.contains('/'),
        !host.contains(':'),
        rest.len() == 0 || rest[0] == '/' || rest[0] == ':',
    ensures
        url::before_mark(host + rest) == host,
    decreases host.len(),
{
    let all = host + rest;
    if host.len() == 0 {
        assert(all =~= rest);
    } else {
        assert(all[0] == host[0]);
        assert(host.contains(host[0]));
        let next = host.skip(1);
        assert forall|c: char| next.contains(c) implies host.contains(c) by {
            let i: int = choose|i: int| 0 <= i < next.len() && next[i] == c;
            assert(host[i + 1] == c);
        }
        host_is_cut_off(next, rest);
        assert(all.skip(1) =~= next + rest);
        assert(seq![all[0]] + next =~= host);
    }
}

proof fn path_is_cut_off(front: Seq<char>, rest: Seq<char>)
    requires
        !front.contains('/'),
        !front.contains('?'),
        !front.contains('#'),
        rest.len() == 0 || rest[0] == '/' || rest[0] == '?' || rest[0] == '#',
    ensures
        url::before_path(front + rest) == front,
    decreases front.len(),
{
    let all = front + rest;
    if front.len() == 0 {
        assert(all =~= rest);
    } else {
        assert(all[0] == front[0]);
        assert(front.contains(front[0]));
        let next = front.skip(1);
        assert forall|c: char| next.contains(c) implies front.contains(c) by {
            let i: int = choose|i: int| 0 <= i < next.len() && next[i] == c;
            assert(front[i + 1] == c);
        }
        path_is_cut_off(next, rest);
        assert(all.skip(1) =~= next + rest);
        assert(seq![all[0]] + next =~= front);
    }
}

/// The host of an address stands between its first `://` and the slash or the
/// colon behind that; an address without a `://` has none. The error of an
/// address names its host.
pub proof fn hosts_follow_the_scheme(scheme: Seq<char>, host: Seq<char>, rest: Seq<char>)
    requires
        is_front(scheme),
        !host.contains('/'),
        !host.contains(':'),
        rest.len() == 0 || rest[0] == '/' || rest[0] == ':',
    ensures
        url::host_of(scheme + "://"@ + (host + rest)) == host,
        url::scheme_of(scheme + "://"@ + (host + rest)) == scheme,
        url::not_allowed(scheme + "://"@ + (host + rest)) == "URL host "@ + host
            + " not in allowed range 192.168.66.0/24"@,
{
    reveal_strlit("://");
    let all = scheme + "://"@ + (host + rest);
    scheme_is_cut_off(scheme, host + rest);
    host_is_cut_off(host, rest);
    assert(all.take(scheme.len() as int) =~= scheme);
}

/// An address without a `://` has no host.
pub proof fn no_scheme_no_host(s: Seq<char>)
    requires
        forall|i: int| 0 <= i < s.len() ==> !"://"@.is_prefix_of(#[trigger] s.skip(i)),
    ensures
        url::host_of(s).len() == 0,
{
    nothing_is_cut_off(s);
}

/// What names the host, the port and the user of an address stands between its
/// first `://` and the slash, the question mark or the hash behind that.
pub proof fn authority_ends_at_the_path(
    scheme: Seq<char>,
    authority: Seq<char>,
    rest: Seq<char>,
)
    requires
        is_front(scheme),
        !authority.contains('/'),
        !authority.contains('?'),
        !authority.contains('#'),
        rest.len() == 0 || rest[0] == '/' || rest[0] == '?' || rest[0] == '#',
    ensures
        url::authority_of(scheme + "://"@ + (authority + rest)) == authority,
        url::before_path(authority + rest) == authority,
{
    scheme_is_cut_off(scheme, authority + rest);
    path_is_cut_off(authority, rest);
}

/// The addresses of the network are `192.168.66.` and one number in decimal
/// digits up to 255, and no others. The digits of a number count ten times those
/// before them.
pub proof fn addresses_of_the_network(s: Seq<char>, digit: char)
    ensures
        url::is_in_network("192.168.66."@ + s) <==> s.len() > 0 && (forall|i: int|
            0 <= i < s.len() ==> '0' <= #[trigger] s[i] <= '9') && url::decimal(s) <= 255,
        url::is_in_network(s) ==> "192.168.66."@.is_prefix_of(s),
        url::decimal(Seq::empty()) == 0,
        url::decimal(s.push(digit)) == 10 * url::decimal(s) + (digit as int - '0' as int),
{
    let all = "192.168.66."@ + s;
    assert("192.168.66."@ =~= all.subrange(0, "192.168.66."@.len() as int));
    assert(all.skip("192.168.66."@.len() as int) =~= s);
    assert(s.push(digit).drop_last() =~= s);
}

/// An address may be called where its host begins with `192.168.66.`, and where
/// no host outside the network is called for it: it is plainly one of HTTP in the
/// network, or whatever is made of it is not one of HTTP, or has no host, or has
/// one in the network.
pub proof fn only_the_network_is_called(
    scheme: Seq<char>,
    host: Seq<char>,
    rest: Seq<char>,
    seen: Option<(Seq<char>, Option<Seq<char>>)>,
)
    requires
        is_front(scheme),
        !host.contains('/'),
        !host.contains(':'),
        rest.len() == 0 || rest[0] == '/' || rest[0] == ':',
    ensures
        ({
            let address = scheme + "://"@ + (host + rest);
            let authority = url::before_path(host + rest);
            let http = (scheme.len() == 4 && forall|i: int|
                0 <= i < 4 ==> #[trigger] scheme[i] == "http"@[i] || scheme[i] == "HTTP"@[i]) || (
            scheme.len() == 5 && forall|i: int|
                0 <= i < 5 ==> #[trigger] scheme[i] == "https"@[i] || scheme[i] == "HTTPS"@[i]);
            let plain = http && !authority.contains('@') && !authority.contains('\\')
                && url::is_in_network(url::before_path(host));
            let safe = match seen {
                Some((scheme, Some(host))) => (scheme == "http"@ || scheme == "https"@)
                    ==> url::is_in_network(host),
                _ => true,
            };
            url::allows(address, seen) <==> "192.168.66."@.is_prefix_of(host) && (plain || safe)
        }),
{
    reveal_strlit("http");
    reveal_strlit("HTTP");
    reveal_strlit("https");
    reveal_strlit("HTTPS");
    hosts_follow_the_scheme(scheme, host, rest);
    scheme_is_cut_off(scheme, host + rest);
}

/// An address of HTTP whose host is one of the network may be called, whatever
/// path follows; one whose host begins otherwise may not.
pub proof fn network_addresses_are_called(
    scheme: Seq<char>,
    number: Seq<char>,
    path: Seq<char>,
    other: Seq<char>,
    seen: Option<(Seq<char>, Option<Seq<char>>)>,
)
    requires
        scheme == "http"@ || scheme == "https"@,
        number.len() > 0,
        forall|i: int| 0 <= i < number.len() ==> '0' <= #[trigger] number[i] <= '9',
        url::decimal(number) <= 255,
        path.len() == 0 || path[0] == '/',
        !other.contains('/'),
        !other.contains(':'),
        !"192.168.66."@.is_prefix_of(other),
    ensures
        url::allows(scheme + "://"@ + ("192.168.66."@ + number + path), seen),
        !url::allows(scheme + "://"@ + (other + path), seen),
{
    reveal_strlit("http");
    reveal_strlit("https");
    reveal_strlit("://");
    reveal_strlit("192.168.66.");
    let host = "192.168.66."@ + number;
    assert(is_front(scheme)) by {
        assert forall|i: int| 0 <= i < scheme.len() implies !"://"@.is_prefix_of(
            #[trigger] (scheme + "://"@).skip(i),
        ) by {
            let tail = (scheme + "://"@).skip(i);
            assert(tail[0] == scheme[i]);
            if "://"@.is_prefix_of(tail) {
                assert(tail.subrange(0, 3)[0] == ':');
            }
        }
    }
    assert forall|i: int| 0 <= i < host.len() implies '0' <= #[trigger] host[i] <= '9' || host[i]
        == '.' by {
        if i >= 11 {
            assert(host[i] == number[i - 11]);
        }
    }
    assert("192.168.66."@ =~= host.subrange(0, 11));
    addresses_of_the_network(number, '0');
    path_is_cut_off(host, path);
    path_is_cut_off(host, Seq::empty());
    assert(host + Seq::<char>::empty() =~= host);
    only_the_network_is_called(scheme, host, path, seen);
    only_the_network_is_called(scheme, other, path, seen);
}

} // verus!
