//! Forwarding requests upstream: hop-by-hop headers and the buffered body limit.
use vstd::prelude::*;

verus! {

/// Largest upstream body, in bytes, that a policy-gated download buffers: 20 MiB.
pub const BODY_LIMIT: usize = 20971520;

/// `a` and `b` agree up to ASCII case, where `b` is written in lower case.
pub open spec fn eq_lower(a: Seq<char>, b: Seq<char>) -> bool {
    a.len() == b.len() && forall|i: int|
        0 <= i < a.len() ==> (a[i] == b[i] || ('A' <= a[i] && a[i] <= 'Z' && a[i] as u32 + 32
            == b[i] as u32))
}

/// Headers that describe one connection and must not travel past the proxy.
pub open spec fn is_hop_by_hop(name: Seq<char>) -> bool {
    eq_lower(name, "connection"@) || eq_lower(name, "host"@) || eq_lower(name, "upgrade"@)
        || eq_lower(name, "keep-alive"@)
}

/// Headers as name and value characters.
pub open spec fn header_views(h: Seq<(String, String)>) -> Seq<(Seq<char>, Seq<char>)> {
    h.map_values(|p: (String, String)| (p.0@, p.1@))
}

/// `h` without its hop-by-hop headers, the others in their order.
pub open spec fn without_hop_by_hop(h: Seq<(Seq<char>, Seq<char>)>) -> Seq<(Seq<char>, Seq<char>)>
    decreases h.len(),
{
    if h.len() == 0 {
        h
    } else {
        let head = without_hop_by_hop(h.drop_last());
        if is_hop_by_hop(h.last().0) {
            head
        } else {
            head.push(h.last())
        }
    }
}

/// Whether `a` equals the lower-case `b` up to ASCII case.
pub fn matches_lower(a: &str, b: &str) -> (r: bool)
    ensures
        r == eq_lower(a@, b@),
{
    let n = a.unicode_len();
    if n != b.unicode_len() {
        return false;
    }
    let mut i: usize = 0;
    while i < n
        invariant
            n == a@.len(),
            n == b@.len(),
            i <= n,
            forall|j: int|
                0 <= j < i ==> (a@[j] == b@[j] || ('A' <= a@[j] && a@[j] <= 'Z' && a@[j] as u32
                    + 32 == b@[j] as u32)),
        decreases n - i,
    {
        let x = a.get_char(i);
        let y = b.get_char(i);
        if !(x == y || ('A' <= x && x <= 'Z' && (x as u32) + 32 == y as u32)) {
            return false;
        }
        i = i + 1;
    }
    true
}

/// Whether `name` is one of the hop-by-hop headers.
pub fn hop_by_hop(name: &str) -> (r: bool)
    ensures
        r == is_hop_by_hop(name@),
{
    matches_lower(name, "connection") || matches_lower(name, "host") || matches_lower(name, "upgrade")
        || matches_lower(name, "keep-alive")
}

/// The headers to forward: all of `headers` but `connection`, `host`, `upgrade`
/// and `keep-alive`, in their order. Used on requests and on responses alike.
pub fn strip_hop_by_hop(headers: &Vec<(String, String)>) -> (r: Vec<(String, String)>)
    ensures
        header_views(r@) == without_hop_by_hop(header_views(headers@)),
        forall|i: int| 0 <= i < r@.len() ==> !is_hop_by_hop(#[trigger] r@[i].0@),
{
    let mut r: Vec<(String, String)> = Vec::new();
    let mut i: usize = 0;
    while i < headers.len()
        invariant
            i <= headers@.len(),
            header_views(r@) == without_hop_by_hop(header_views(headers@.subrange(0, i as int))),
            forall|j: int| 0 <= j < r@.len() ==> !is_hop_by_hop(#[trigger] r@[j].0@),
        decreases headers@.len() - i,
    {
        let ghost before = header_views(headers@.subrange(0, i as int));
        let ghost after = header_views(headers@.subrange(0, i + 1));
        assert(after.drop_last() =~= before);
        assert(after.last() == (headers@[i as int].0@, headers@[i as int].1@));
        let (name, value) = &headers[i];
        if !hop_by_hop(name.as_str()) {
            let ghost old_r = r@;
            r.push((name.clone(), value.clone()));
            assert(header_views(r@) =~= header_views(old_r).push(after.last()));
        }
        i = i + 1;
    }
    assert(headers@.subrange(0, headers@.len() as int) =~= headers@);
    r
}

} // verus!
