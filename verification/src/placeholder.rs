//! Expansion of `{ip}` and `{interface:NAME}` in configured base URLs.
use vstd::prelude::*;

use crate::ip::{interface_address, interface_ip, ipv4_text, NetInterface};
use crate::text::{
    append_all, append_range, chars_of, index_of, lemma_index_of, lemma_index_of_none,
    matches_at, replace_all, replace_chars, starts_with, string_from, string_of,
};

verus! {

/// The public-IP placeholder.
pub open spec fn ip_tag() -> Seq<char> {
    seq!['{', 'i', 'p', '}']
}

/// The opening of an interface placeholder.
pub open spec fn interface_tag() -> Seq<char> {
    seq!['{', 'i', 'n', 't', 'e', 'r', 'f', 'a', 'c', 'e', ':']
}

/// Expands the interface placeholders of `s` from left to right: each
/// `{interface:NAME}` becomes the IPv4 address of interface `NAME`, or stays as
/// it is when that interface has none. An opening without a closing `}` ends
/// the expansion.
pub open spec fn expand_interfaces(s: Seq<char>, ifaces: Seq<NetInterface>) -> Seq<char>
    decreases s.len(),
{
    match index_of(s, interface_tag()) {
        None => s,
        Some(start) => {
            let rest = s.skip(start);
            match index_of(rest, seq!['}']) {
                None => s,
                Some(k) => if 0 <= start && 11 <= k && start + k < s.len() {
                    let name = rest.subrange(11, k);
                    let replacement = match interface_address(ifaces, name) {
                        Some(o) => ipv4_text(o),
                        None => rest.take(k + 1),
                    };
                    s.take(start) + replacement + expand_interfaces(s.skip(start + k + 1), ifaces)
                } else {
                    s
                },
            }
        },
    }
}

/// `base` with `{ip}` replaced by `public_ip`, then its interface placeholders
/// expanded.
pub open spec fn resolved(base: Seq<char>, public_ip: Seq<char>, ifaces: Seq<NetInterface>) -> Seq<
    char,
> {
    expand_interfaces(replace_all(base, ip_tag(), public_ip), ifaces)
}

/// First position at or after `from` where `p` occurs in `v`.
fn find_from(v: &Vec<char>, from: usize, p: &Vec<char>) -> (r: Option<usize>)
    requires
        from <= v@.len(),
    ensures
        match r {
            Some(j) => from <= j <= v@.len() && starts_with(v@.skip(j as int), p@) && forall|m: int|
                from <= m < j ==> !starts_with(#[trigger] v@.skip(m), p@),
            None => forall|m: int| from <= m <= v@.len() ==> !starts_with(#[trigger] v@.skip(m), p@),
        },
{
    let mut j = from;
    loop
        invariant
            from <= j <= v@.len(),
            forall|m: int| from <= m < j ==> !starts_with(#[trigger] v@.skip(m), p@),
        decreases v@.len() - j,
    {
        if matches_at(v, j, p) {
            return Some(j);
        }
        if j == v.len() {
            return None;
        }
        j = j + 1;
    }
}

/// Expands the interface placeholders of `v`.
#[verifier::rlimit(40)]
fn expand_chars(v: &Vec<char>, ifaces: &Vec<NetInterface>) -> (out: Vec<char>)
    ensures
        out@ == expand_interfaces(v@, ifaces@),
{
    let tag: Vec<char> = vec!['{', 'i', 'n', 't', 'e', 'r', 'f', 'a', 'c', 'e', ':'];
    let close: Vec<char> = vec!['}'];
    assert(tag@ =~= interface_tag());
    assert(close@ =~= seq!['}']);
    let mut out: Vec<char> = Vec::new();
    let mut pos: usize = 0;
    assert(v@.skip(0) =~= v@);
    loop
        invariant
            pos <= v@.len(),
            tag@ == interface_tag(),
            close@ == seq!['}'],
            out@ + expand_interfaces(v@.skip(pos as int), ifaces@) == expand_interfaces(
                v@,
                ifaces@,
            ),
        decreases v@.len() - pos,
    {
        let ghost t = v@.skip(pos as int);
        let ghost before = out@;
        let found = find_from(v, pos, &tag);
        if found.is_none() {
            proof {
                assert forall|m: int| 0 <= m <= t.len() implies !starts_with(
                    #[trigger] t.skip(m),
                    interface_tag(),
                ) by {
                    assert(t.skip(m) =~= v@.skip(pos + m));
                }
                lemma_index_of_none(t, interface_tag());
            }
            append_range(&mut out, v, pos, v.len());
            assert(v@.subrange(pos as int, v@.len() as int) =~= t);
            return out;
        }
        let j = found.unwrap();
        proof {
            assert forall|m: int| 0 <= m < j - pos implies !starts_with(
                #[trigger] t.skip(m),
                interface_tag(),
            ) by {
                assert(t.skip(m) =~= v@.skip(pos + m));
            }
            assert(t.skip(j - pos) =~= v@.skip(j as int));
            lemma_index_of(t, interface_tag(), j - pos);
        }
        let ghost rest = t.skip(j - pos);
        assert(rest =~= v@.skip(j as int));
        let found_close = find_from(v, j, &close);
        if found_close.is_none() {
            proof {
                assert forall|m: int| 0 <= m <= rest.len() implies !starts_with(
                    #[trigger] rest.skip(m),
                    seq!['}'],
                ) by {
                    assert(rest.skip(m) =~= v@.skip(j + m));
                }
                lemma_index_of_none(rest, seq!['}']);
            }
            append_range(&mut out, v, pos, v.len());
            assert(v@.subrange(pos as int, v@.len() as int) =~= t);
            return out;
        }
        let k = found_close.unwrap();
        proof {
            assert forall|m: int| 0 <= m < k - j implies !starts_with(
                #[trigger] rest.skip(m),
                seq!['}'],
            ) by {
                assert(rest.skip(m) =~= v@.skip(j + m));
            }
            assert(rest.skip(k - j) =~= v@.skip(k as int));
            lemma_index_of(rest, seq!['}'], k - j);
            // the closing brace cannot lie inside the opening tag
            if k < j + 11 {
                assert(v@.skip(j as int).take(11)[k - j] == interface_tag()[k - j]);
                assert(v@.skip(k as int).take(1)[0] == '}');
                assert(false);
            }
            assert(v@.skip(k as int).len() >= 1);
            assert(v@.skip(k as int).take(1)[0] == v@[k as int]);
        }
        assert(k < v.len());
        append_range(&mut out, v, pos, j);
        let name = string_of(v, j + 11, k);
        match interface_ip(ifaces, name.as_str()) {
            Ok(ip) => {
                let ipv = chars_of(ip.as_str());
                append_all(&mut out, &ipv);
            },
            Err(_) => {
                append_range(&mut out, v, j, k + 1);
            },
        }
        proof {
            let start = j - pos;
            let kk = k - j;
            assert(rest.subrange(11, kk) =~= v@.subrange(j + 11, k as int));
            assert(rest.take(kk + 1) =~= v@.subrange(j as int, k + 1));
            assert(t.take(start) =~= v@.subrange(pos as int, j as int));
            assert(t.skip(start + kk + 1) =~= v@.skip(k + 1));
            let replacement = match interface_address(ifaces@, rest.subrange(11, kk)) {
                Some(o) => ipv4_text(o),
                None => rest.take(kk + 1),
            };
            assert(out@ =~= before + t.take(start) + replacement);
            let tail = expand_interfaces(v@.skip(k + 1), ifaces@);
            assert(expand_interfaces(t, ifaces@) == t.take(start) + replacement + tail);
            assert(before + (t.take(start) + replacement + tail) =~= out@ + tail);
        }
        pos = k + 1;
    }
}

/// `base` with every `{ip}` replaced by `public_ip` and every
/// `{interface:NAME}` replaced by the IPv4 address of interface `NAME` among
/// `ifaces`; a placeholder naming an interface without such an address is
/// left as it is.
pub fn resolve_placeholder(base: &str, public_ip: &str, ifaces: &Vec<NetInterface>) -> (r: String)
    ensures
        r@ == resolved(base@, public_ip@, ifaces@),
{
    let v = chars_of(base);
    let ip = chars_of(public_ip);
    let pat: Vec<char> = vec!['{', 'i', 'p', '}'];
    assert(pat@ =~= ip_tag());
    let replaced = replace_chars(&v, &pat, &ip);
    let out = expand_chars(&replaced, ifaces);
    string_from(&out)
}

proof fn lemma_index_of_none_nowhere(s: Seq<char>, p: Seq<char>, j: int)
    requires
        index_of(s, p) is None,
        0 <= j <= s.len(),
    ensures
        !starts_with(s.skip(j), p),
    decreases s.len(),
{
    assert(s.skip(0) =~= s);
    if j > 0 {
        assert(s.drop_first().skip(j - 1) =~= s.skip(j));
        lemma_index_of_none_nowhere(s.drop_first(), p, j - 1);
    }
}

proof fn lemma_replace_absent(s: Seq<char>, pat: Seq<char>, rep: Seq<char>)
    requires
        index_of(s, pat) is None,
    ensures
        replace_all(s, pat, rep) == s,
    decreases s.len(),
{
    if s.len() > 0 {
        lemma_index_of_none_nowhere(s, pat, 0);
        assert(s.skip(0) =~= s);
        assert(index_of(s.drop_first(), pat) is None);
        lemma_replace_absent(s.drop_first(), pat, rep);
        assert(seq![s[0]] + s.drop_first() =~= s);
    }
}

/// A base in which neither `{ip}` nor `{interface:` occurs is reported as it
/// is.
pub proof fn law_plain_base_unchanged(base: Seq<char>, public_ip: Seq<char>, ifaces: Seq<NetInterface>)
    requires
        index_of(base, ip_tag()) is None,
        index_of(base, interface_tag()) is None,
    ensures
        resolved(base, public_ip, ifaces) == base,
{
    lemma_replace_absent(base, ip_tag(), public_ip);
}

/// No `{` in `s`.
pub open spec fn no_brace(s: Seq<char>) -> bool {
    forall|i: int| 0 <= i < s.len() ==> s[i] != '{'
}

proof fn lemma_replace_after_plain(p: Seq<char>, x: Seq<char>, pat: Seq<char>, rep: Seq<char>)
    requires
        no_brace(p),
        pat.len() > 0,
        pat[0] == '{',
    ensures
        replace_all(p + x, pat, rep) == p + replace_all(x, pat, rep),
    decreases p.len(),
{
    if p.len() == 0 {
        assert(p + x =~= x);
        assert(p + replace_all(x, pat, rep) =~= replace_all(x, pat, rep));
    } else {
        let s = p + x;
        assert(s[0] == p[0]);
        if starts_with(s, pat) {
            assert(s.take(pat.len() as int)[0] == s[0]);
        }
        assert(s.drop_first() =~= p.drop_first() + x);
        lemma_replace_after_plain(p.drop_first(), x, pat, rep);
        assert(seq![p[0]] + (p.drop_first() + replace_all(x, pat, rep)) =~= p + replace_all(
            x,
            pat,
            rep,
        ));
    }
}

proof fn lemma_no_interface_tag(t: Seq<char>)
    requires
        no_brace(t),
    ensures
        index_of(t, interface_tag()) is None,
{
    assert forall|j: int| 0 <= j <= t.len() implies !starts_with(
        #[trigger] t.skip(j),
        interface_tag(),
    ) by {
        if starts_with(t.skip(j), interface_tag()) {
            assert(t.skip(j).take(11)[0] == t[j]);
        }
    }
    lemma_index_of_none(t, interface_tag());
}

/// `{ip}` is replaced by the public IP: a base made of plain text, `{ip}`
/// and plain text resolves to the first text, the address, and the second
/// text.
pub proof fn law_ip_placeholder_filled(
    p: Seq<char>,
    q: Seq<char>,
    ip: Seq<char>,
    ifaces: Seq<NetInterface>,
)
    requires
        no_brace(p),
        no_brace(q),
        no_brace(ip),
    ensures
        resolved(p + ip_tag() + q, ip, ifaces) == p + ip + q,
{
    let tag = ip_tag();
    assert(p + tag + q =~= p + (tag + q));
    lemma_replace_after_plain(p, tag + q, tag, ip);
    let s = tag + q;
    assert(s.take(4) =~= tag);
    assert(s.skip(4) =~= q);
    lemma_replace_after_plain(q, Seq::empty(), tag, ip);
    assert(q + Seq::<char>::empty() =~= q);
    assert(q + Seq::<char>::empty() =~= q);
    let t = p + ip + q;
    assert(p + (ip + q) =~= t);
    assert forall|i: int| 0 <= i < t.len() implies t[i] != '{' by {
        if i < p.len() {
            assert(t[i] == p[i]);
        } else if i < p.len() + ip.len() {
            assert(t[i] == ip[i - p.len()]);
        } else {
            assert(t[i] == q[i - p.len() - ip.len()]);
        }
    }
    lemma_no_interface_tag(t);
}

} // verus!
