//! IPv4 text recognition, extraction from free-form responses, and the
//! IPv4 address of a named network interface.
use vstd::prelude::*;

use crate::text::{
    chars_of, lead_count, lemma_lead_count, push_char, push_decimal, decimal_text, string_of,
    trim_bounds, trimmed,
};

verus! {

/// ASCII decimal digit.
pub open spec fn is_digit(c: char) -> bool {
    48 <= c as u32 && c as u32 <= 57
}

pub open spec fn digit_value(c: char) -> nat {
    (c as u32 - 48) as nat
}

/// Value of a string of decimal digits.
pub open spec fn decimal_value(p: Seq<char>) -> nat
    decreases p.len(),
{
    if p.len() == 0 {
        0
    } else {
        decimal_value(p.drop_last()) * 10 + digit_value(p.last())
    }
}

/// One octet of dotted-decimal notation: one to three digits, no leading zero
/// unless the octet is `0` itself, value at most 255.
pub open spec fn is_octet(p: Seq<char>) -> bool {
    &&& 1 <= p.len() <= 3
    &&& forall|k: int| 0 <= k < p.len() ==> is_digit(#[trigger] p[k])
    &&& (p.len() == 1 || p[0] != '0')
    &&& decimal_value(p) <= 255
}

/// `s` is `n` octets separated by single dots, each octet read greedily.
pub open spec fn dotted_octets(s: Seq<char>, n: nat) -> bool
    decreases n,
{
    let d = lead_count(s, |c: char| is_digit(c));
    &&& is_octet(s.take(d as int))
    &&& if n <= 1 {
        d == s.len()
    } else {
        d < s.len() && s[d as int] == '.' && dotted_octets(s.skip(d + 1int), (n - 1) as nat)
    }
}

/// The text that `Ipv4Addr`'s `FromStr` accepts: dotted-decimal notation with
/// four octets, no octal or hexadecimal forms.
pub open spec fn is_ipv4_text(s: Seq<char>) -> bool {
    dotted_octets(s, 4)
}

/// A character that may stand inside an address run.
pub open spec fn is_address_char(c: char) -> bool {
    is_digit(c) || c == '.'
}

/// The first maximal run of digits and dots in `s` that is an IPv4 address.
pub open spec fn first_address_run(s: Seq<char>) -> Option<Seq<char>>
    decreases s.len(),
{
    if s.len() == 0 {
        None
    } else {
        let r = lead_count(s, |c: char| is_address_char(c));
        if r > 0 && is_ipv4_text(s.take(r as int)) {
            Some(s.take(r as int))
        } else if r >= s.len() {
            None
        } else {
            first_address_run(s.skip(r + 1int))
        }
    }
}

/// An optional string seen as an optional character sequence.
pub open spec fn opt_text(o: Option<String>) -> Option<Seq<char>> {
    match o {
        Some(s) => Some(s@),
        None => None,
    }
}

/// What a public-IP service's response yields: the trimmed text if it is an
/// address, else the first address found in it.
pub open spec fn response_address(text: Seq<char>) -> Option<Seq<char>> {
    if is_ipv4_text(trimmed(text)) {
        Some(trimmed(text))
    } else {
        first_address_run(trimmed(text))
    }
}

fn digit_at(v: &Vec<char>, i: usize) -> (b: bool)
    requires
        i < v@.len(),
    ensures
        b == is_digit(v@[i as int]),
{
    let u = v[i] as u32;
    48 <= u && u <= 57
}

/// End of the run of digits that starts at `lo`.
fn digit_run_end(v: &Vec<char>, lo: usize, hi: usize) -> (e: usize)
    requires
        lo <= hi <= v@.len(),
    ensures
        lo <= e <= hi,
        lead_count(v@.subrange(lo as int, hi as int), |c: char| is_digit(c)) == e - lo,
{
    let mut e = lo;
    while e < hi && digit_at(v, e)
        invariant
            lo <= e <= hi <= v@.len(),
            forall|k: int| lo <= k < e ==> is_digit(#[trigger] v@[k]),
        decreases hi - e,
    {
        e = e + 1;
    }
    proof {
        let t = v@.subrange(lo as int, hi as int);
        assert forall|k: int| 0 <= k < e - lo implies is_digit(#[trigger] t[k]) by {
            assert(t[k] == v@[lo + k]);
        }
        lemma_lead_count(t, |c: char| is_digit(c), e - lo);
    }
    e
}

/// Whether the digits `v[lo..hi]` form an octet.
fn octet_at(v: &Vec<char>, lo: usize, hi: usize) -> (b: bool)
    requires
        lo <= hi <= v@.len(),
        forall|k: int| lo <= k < hi ==> is_digit(#[trigger] v@[k]),
    ensures
        b == is_octet(v@.subrange(lo as int, hi as int)),
{
    let ghost p = v@.subrange(lo as int, hi as int);
    assert forall|k: int| 0 <= k < p.len() implies is_digit(#[trigger] p[k]) by {
        assert(p[k] == v@[lo + k]);
    }
    if hi - lo < 1 || hi - lo > 3 {
        return false;
    }
    if hi - lo > 1 && v[lo] == '0' {
        return false;
    }
    let mut val: u32 = 0;
    let mut i = lo;
    while i < hi
        invariant
            lo <= i <= hi <= v@.len(),
            hi - lo <= 3,
            forall|k: int| lo <= k < hi ==> is_digit(#[trigger] v@[k]),
            val == decimal_value(v@.subrange(lo as int, i as int)),
            i - lo == 0 ==> val == 0,
            i - lo == 1 ==> val < 10,
            i - lo == 2 ==> val < 100,
            i - lo == 3 ==> val < 1000,
        decreases hi - i,
    {
        let d = (v[i] as u32) - 48;
        assert(is_digit(v@[i as int]));
        proof {
            let q = v@.subrange(lo as int, i + 1);
            assert(q.drop_last() =~= v@.subrange(lo as int, i as int));
            assert(q.last() == v@[i as int]);
        }
        val = val * 10 + d;
        i = i + 1;
    }
    val <= 255
}

/// Whether `v[lo..hi]` is an IPv4 address in dotted-decimal notation.
pub fn ipv4_at(v: &Vec<char>, lo: usize, hi: usize) -> (b: bool)
    requires
        lo <= hi <= v@.len(),
    ensures
        b == is_ipv4_text(v@.subrange(lo as int, hi as int)),
{
    let mut pos = lo;
    let mut k: usize = 0;
    while k < 4
        invariant
            lo <= pos <= hi <= v@.len(),
            k < 4,
            is_ipv4_text(v@.subrange(lo as int, hi as int)) == dotted_octets(
                v@.subrange(pos as int, hi as int),
                (4 - k) as nat,
            ),
        decreases 4 - k,
    {
        let ghost t = v@.subrange(pos as int, hi as int);
        let e = digit_run_end(v, pos, hi);
        proof {
            assert(t.take(e - pos) =~= v@.subrange(pos as int, e as int));
            assert(forall|j: int| pos <= j < e ==> is_digit(#[trigger] v@[j])) by {
                assert forall|j: int| pos <= j < e implies is_digit(#[trigger] v@[j]) by {
                    lemma_lead_prefix(t, |c: char| is_digit(c), j - pos);
                    assert(t[j - pos] == v@[j]);
                }
            }
        }
        if !octet_at(v, pos, e) {
            return false;
        }
        if k == 3 {
            return e == hi;
        }
        if e == hi || v[e] != '.' {
            return false;
        }
        proof {
            assert(t[e - pos] == v@[e as int]);
            assert(t.skip(e - pos + 1) =~= v@.subrange(e + 1, hi as int));
        }
        pos = e + 1;
        k = k + 1;
    }
    false
}

/// Characters before `lead_count` all satisfy the predicate.
pub proof fn lemma_lead_prefix(s: Seq<char>, p: spec_fn(char) -> bool, j: int)
    requires
        0 <= j < lead_count(s, p),
    ensures
        j < s.len(),
        p(s[j]),
    decreases j,
{
    if j > 0 {
        lemma_lead_prefix(s.drop_first(), p, j - 1);
    }
}

} // verus!

verus! {

fn address_char_at(v: &Vec<char>, i: usize) -> (b: bool)
    requires
        i < v@.len(),
    ensures
        b == is_address_char(v@[i as int]),
{
    digit_at(v, i) || v[i] == '.'
}

/// The first address run inside `v[lo..hi]`.
fn first_address_in(v: &Vec<char>, lo: usize, hi: usize) -> (r: Option<String>)
    requires
        lo <= hi <= v@.len(),
    ensures
        opt_text(r) == first_address_run(v@.subrange(lo as int, hi as int)),
{
    let mut pos = lo;
    loop
        invariant
            lo <= pos <= hi <= v@.len(),
            first_address_run(v@.subrange(lo as int, hi as int)) == first_address_run(
                v@.subrange(pos as int, hi as int),
            ),
        decreases hi - pos,
    {
        let ghost t = v@.subrange(pos as int, hi as int);
        if pos == hi {
            return None;
        }
        let mut e = pos;
        while e < hi && address_char_at(v, e)
            invariant
                pos <= e <= hi <= v@.len(),
                forall|k: int| pos <= k < e ==> is_address_char(#[trigger] v@[k]),
            decreases hi - e,
        {
            e = e + 1;
        }
        proof {
            assert forall|k: int| 0 <= k < e - pos implies is_address_char(#[trigger] t[k]) by {
                assert(t[k] == v@[pos + k]);
            }
            if e < hi {
                assert(t[e - pos] == v@[e as int]);
            }
            lemma_lead_count(t, |c: char| is_address_char(c), e - pos);
            assert(t.take(e - pos) =~= v@.subrange(pos as int, e as int));
        }
        if e > pos && ipv4_at(v, pos, e) {
            return Some(string_of(v, pos, e));
        }
        if e == hi {
            return None;
        }
        proof {
            assert(t.skip(e - pos + 1) =~= v@.subrange(e + 1, hi as int));
        }
        pos = e + 1;
    }
}

/// The first IPv4 address that appears in `text`, as a maximal run of digits
/// and dots.
pub fn extract_ipv4(text: &str) -> (r: Option<String>)
    ensures
        opt_text(r) == first_address_run(text@),
{
    let v = chars_of(text);
    proof {
        assert(v@.subrange(0, v@.len() as int) =~= v@);
    }
    first_address_in(&v, 0, v.len())
}

/// The address in a public-IP service's response: the whole trimmed text when
/// it is an address, else the first address inside it.
pub fn response_ipv4(text: &str) -> (r: Option<String>)
    ensures
        opt_text(r) == response_address(text@),
{
    let v = chars_of(text);
    let (a, b) = trim_bounds(&v);
    if ipv4_at(&v, a, b) {
        Some(string_of(&v, a, b))
    } else {
        first_address_in(&v, a, b)
    }
}

/// Whether `text` is an IPv4 address in dotted-decimal notation.
pub fn is_ipv4(text: &str) -> (b: bool)
    ensures
        b == is_ipv4_text(text@),
{
    let v = chars_of(text);
    proof {
        assert(v@.subrange(0, v@.len() as int) =~= v@);
    }
    ipv4_at(&v, 0, v.len())
}

/// Dotted-decimal text of an IPv4 address.
pub open spec fn ipv4_text(o: [u8; 4]) -> Seq<char> {
    decimal_text(o[0] as nat) + seq!['.'] + decimal_text(o[1] as nat) + seq!['.']
        + decimal_text(o[2] as nat) + seq!['.'] + decimal_text(o[3] as nat)
}

/// Formats an IPv4 address in dotted-decimal notation.
pub fn format_ipv4(o: [u8; 4]) -> (s: String)
    ensures
        s@ == ipv4_text(o),
{
    let mut s = String::new();
    push_decimal(&mut s, o[0] as u64);
    push_char(&mut s, '.');
    push_decimal(&mut s, o[1] as u64);
    push_char(&mut s, '.');
    push_decimal(&mut s, o[2] as u64);
    push_char(&mut s, '.');
    push_decimal(&mut s, o[3] as u64);
    assert(s@ =~= ipv4_text(o));
    s
}

/// One address of a network interface, as the operating system lists it.
pub struct NetInterface {
    pub name: String,
    /// The address when it is an IPv4 one.
    pub ipv4: Option<[u8; 4]>,
}

/// The IPv4 address of the first entry named `name` that has one.
pub open spec fn interface_address(ifaces: Seq<NetInterface>, name: Seq<char>) -> Option<[u8; 4]>
    decreases ifaces.len(),
{
    if ifaces.len() == 0 {
        None
    } else if ifaces[0].name@ == name && ifaces[0].ipv4 is Some {
        ifaces[0].ipv4
    } else {
        interface_address(ifaces.drop_first(), name)
    }
}

/// Why no address could be had.
#[derive(Debug, Clone, Copy, PartialEq, Eq, Structural)]
pub enum IpError {
    /// No interface of that name has an IPv4 address.
    InterfaceNotFound,
}

/// The IPv4 address of interface `name` among `ifaces`, in dotted-decimal
/// notation.
pub fn interface_ip(ifaces: &Vec<NetInterface>, name: &str) -> (r: Result<String, IpError>)
    ensures
        match r {
            Ok(ip) => exists|o: [u8; 4]|
                interface_address(ifaces@, name@) == Some(o) && ip@ == ipv4_text(o),
            Err(e) => interface_address(ifaces@, name@) is None && e == IpError::InterfaceNotFound,
        },
{
    let wanted = name.to_owned();
    let mut i: usize = 0;
    assert(ifaces@.skip(0) =~= ifaces@);
    while i < ifaces.len()
        invariant
            i <= ifaces@.len(),
            wanted@ == name@,
            interface_address(ifaces@, name@) == interface_address(ifaces@.skip(i as int), name@),
        decreases ifaces@.len() - i,
    {
        proof {
            assert(ifaces@.skip(i as int).drop_first() =~= ifaces@.skip(i + 1));
            assert(ifaces@.skip(i as int)[0] == ifaces@[i as int]);
        }
        if ifaces[i].name == wanted {
            if let Some(o) = ifaces[i].ipv4 {
                return Ok(format_ipv4(o));
            }
        }
        i = i + 1;
    }
    Err(IpError::InterfaceNotFound)
}

/// Whatever address is found in a text is an IPv4 address in dotted-decimal
/// notation.
pub proof fn lemma_first_address_run_is_ipv4(s: Seq<char>)
    ensures
        first_address_run(s) matches Some(r) ==> is_ipv4_text(r),
    decreases s.len(),
{
    if s.len() > 0 {
        let r = lead_count(s, |c: char| is_address_char(c));
        if !(r > 0 && is_ipv4_text(s.take(r as int))) && r < s.len() {
            lemma_first_address_run_is_ipv4(s.skip(r + 1int));
        }
    }
}

} // verus!
