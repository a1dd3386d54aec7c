//! Domain extraction and denylist lookup for email addresses.

use crate::config::Config;
use vstd::prelude::*;
use vstd::string::StrSliceExecFns;

verus! {

/// The address without its final character when that character is a full stop.
/// At most one full stop is removed.
pub open spec fn strip_trailing_dot(s: Seq<char>) -> Seq<char> {
    if s.len() > 0 && s.last() == '.' {
        s.drop_last()
    } else {
        s
    }
}

/// `i` is where the first segment of `s` ends: no '@' stands before `i`, and
/// `i` is either the position of an '@' or the end of `s`.
pub open spec fn is_segment_end(s: Seq<char>, i: int) -> bool {
    &&& 0 <= i <= s.len()
    &&& forall|j: int| 0 <= j < i ==> s[j] != '@'
    &&& (i < s.len() ==> s[i] == '@')
}

/// Number of characters of `s` before its first '@', or the length of `s`
/// when it holds none.
pub open spec fn segment_len(s: Seq<char>) -> int {
    choose|i: int| is_segment_end(s, i)
}

/// The characters of `s` before its first '@'; all of `s` when it holds none.
pub open spec fn first_segment(s: Seq<char>) -> Seq<char> {
    s.take(segment_len(s))
}

/// The domain of an address: after at most one trailing full stop is
/// removed, the characters between the first '@' and the next one (or the
/// end). An address without '@' has no domain.
pub open spec fn domain_of(email: Seq<char>) -> Option<Seq<char>> {
    let s = strip_trailing_dot(email);
    if s.contains('@') {
        Some(first_segment(s.skip(segment_len(s) + 1)))
    } else {
        None
    }
}

/// Whether an address is unwanted with respect to a denylist: it is at least
/// three characters long, it has a domain, and the denylist holds exactly
/// that domain.
pub open spec fn is_unwanted(email: Seq<char>, denylist: Set<Seq<char>>) -> bool {
    &&& email.len() >= 3
    &&& domain_of(email) matches Some(d) && denylist.contains(d)
}

/// Every sequence has a segment end at or after any position that no '@' precedes.
proof fn lemma_segment_end_exists(s: Seq<char>, n: int)
    requires
        0 <= n <= s.len(),
        forall|j: int| 0 <= j < n ==> s[j] != '@',
    ensures
        exists|i: int| is_segment_end(s, i),
    decreases s.len() - n,
{
    if n < s.len() && s[n] != '@' {
        lemma_segment_end_exists(s, n + 1);
    } else {
        assert(is_segment_end(s, n));
    }
}

/// A segment end is unique, so finding one gives `segment_len`.
pub proof fn lemma_segment_len_is(s: Seq<char>, i: int)
    requires
        is_segment_end(s, i),
    ensures
        segment_len(s) == i,
{
    let k = segment_len(s);
    assert(is_segment_end(s, k));
    if k < i {
        assert(s[k] == '@');
    } else if i < k {
        assert(s[i] == '@');
    }
}

/// `segment_len` is a segment end: it lies within `s`, nothing before it is
/// an '@', and it equals the length of `s` exactly when `s` holds no '@'.
pub proof fn lemma_segment_len(s: Seq<char>)
    ensures
        is_segment_end(s, segment_len(s)),
        segment_len(s) == s.len() <==> !s.contains('@'),
{
    lemma_segment_end_exists(s, 0);
    let k = segment_len(s);
    if k < s.len() {
        assert(s[k] == '@');
    }
}

/// The first segment of a sequence holds no '@'.
pub proof fn lemma_first_segment_has_no_at(s: Seq<char>)
    ensures
        !first_segment(s).contains('@'),
{
    lemma_segment_len(s);
}

/// Removing a trailing full stop neither adds nor removes an '@', so an
/// address has a domain exactly when it holds an '@', and then the domain
/// itself holds none.
pub proof fn lemma_domain_exists_iff_at(email: Seq<char>)
    ensures
        domain_of(email) is Some <==> email.contains('@'),
        domain_of(email) matches Some(d) ==> !d.contains('@'),
{
    let s = strip_trailing_dot(email);
    if email.contains('@') {
        let i = choose|i: int| 0 <= i < email.len() && email[i] == '@';
        assert(s[i] == '@');
    }
    if s.contains('@') {
        let i = choose|i: int| 0 <= i < s.len() && s[i] == '@';
        assert(email[i] == '@');
        lemma_first_segment_has_no_at(s.skip(segment_len(s) + 1));
    }
}

/// An address without '@', or shorter than three characters, is unwanted
/// under no denylist.
pub proof fn lemma_unwanted_needs_at_and_length(email: Seq<char>, denylist: Set<Seq<char>>)
    ensures
        !email.contains('@') ==> !is_unwanted(email, denylist),
        email.len() < 3 ==> !is_unwanted(email, denylist),
{
    lemma_domain_exists_iff_at(email);
}

/// Returns the domain of `email_address`, if it has one.
///
/// One trailing full stop is ignored. The domain is what stands between the
/// first '@' and the next one, or the end of the address; anything after a
/// second '@' is discarded.
pub fn extract_domain(email_address: &str) -> (domain: Option<&str>)
    ensures
        match domain {
            Some(d) => domain_of(email_address@) == Some(d@),
            None => domain_of(email_address@) is None,
        },
        domain is Some <==> email_address@.contains('@'),
        domain matches Some(d) ==> !d@.contains('@'),
{
    let ghost full = email_address@;
    let n: usize = email_address.unicode_len();
    let mut first: Option<usize> = None;
    let mut second: Option<usize> = None;
    let mut last: Option<char> = None;
    let mut idx: usize = 0;
    for c in it: email_address.chars()
        invariant
            it.seq() == full,
            idx == it.index(),
            n == full.len(),
            idx == 0 ==> last is None,
            idx > 0 ==> last == Some(full[idx - 1]),
            first is None ==> second is None && forall|j: int| 0 <= j < idx ==> full[j] != '@',
            first matches Some(a) ==> a < idx && is_segment_end(full, a as int),
            first is Some && second is None ==> forall|j: int|
                first->0 < j < idx ==> full[j] != '@',
            first is Some && second is Some ==> {
                &&& first->0 < second->0 < idx
                &&& full[second->0 as int] == '@'
                &&& forall|j: int| first->0 < j < second->0 ==> full[j] != '@'
            },
    {
        if c == '@' {
            if first.is_none() {
                first = Some(idx);
            } else if second.is_none() {
                second = Some(idx);
            }
        }
        last = Some(c);
        idx = idx + 1;
    }
    let end: usize = if last == Some('.') {
        n - 1
    } else {
        n
    };
    let ghost s = strip_trailing_dot(full);
    assert(s == full.take(end as int));
    match first {
        None => {
            assert(!full.contains('@'));
            assert(!s.contains('@'));
            None
        },
        Some(a) => {
            let from: usize = a + 1;
            let to: usize = match second {
                Some(b) => b,
                None => end,
            };
            proof {
                assert(full[a as int] == '@');
                assert(s[a as int] == '@');
                lemma_segment_len_is(s, a as int);
                let rest = s.skip(from as int);
                assert(forall|j: int| 0 <= j < rest.len() ==> rest[j] == full[j + from]);
                lemma_segment_len_is(rest, to - from);
                assert(full.subrange(from as int, to as int) =~= first_segment(rest));
                lemma_first_segment_has_no_at(rest);
            }
            Some(email_address.substring_char(from, to))
        },
    }
}

/// Tells whether the domain of `email_address` is on the denylist of `config`.
///
/// The match is exact and case-sensitive. An address without '@', or shorter
/// than three characters, is never unwanted.
pub fn is_email_unwanted(email_address: &str, config: &Config) -> (unwanted: bool)
    ensures
        unwanted == is_unwanted(email_address@, config.denylist()),
        !email_address@.contains('@') ==> !unwanted,
        email_address@.len() < 3 ==> !unwanted,
{
    if email_address.unicode_len() < 3 {
        return false;
    }
    match extract_domain(email_address) {
        Some(domain) => config.contains(domain),
        None => false,
    }
}

/// The domain of an address whose local part holds no '@' is read from what
/// follows the first '@' alone: its first segment, one trailing full stop
/// aside.
pub proof fn lemma_domain_after_local_part(local: Seq<char>, rest: Seq<char>)
    requires
        !local.contains('@'),
    ensures
        domain_of(local + seq!['@'] + rest) == Some(first_segment(strip_trailing_dot(rest))),
{
    let email = local + seq!['@'] + rest;
    let s = strip_trailing_dot(email);
    let tail = strip_trailing_dot(rest);
    let at = local.len() as int;
    assert(s =~= local + seq!['@'] + tail);
    assert(s[at] == '@');
    assert forall|j: int| 0 <= j < at implies s[j] != '@' by {
        assert(s[j] == local[j]);
    }
    lemma_segment_len_is(s, at);
    assert(s.skip(at + 1) =~= tail);
}

/// An address put together from a local part and a domain gives that domain
/// back, provided neither holds an '@' and the domain does not end in a full
/// stop.
pub proof fn lemma_domain_of_plain_address(local: Seq<char>, domain: Seq<char>)
    requires
        !local.contains('@'),
        !domain.contains('@'),
        domain.len() == 0 || domain.last() != '.',
    ensures
        domain_of(local + seq!['@'] + domain) == Some(domain),
{
    lemma_domain_after_local_part(local, domain);
    lemma_segment_len(domain);
    assert(domain.take(domain.len() as int) =~= domain);
}

/// A full stop appended to an address that does not end in one changes
/// nothing about its domain.
pub proof fn lemma_trailing_dot_ignored(email: Seq<char>)
    requires
        email.len() == 0 || email.last() != '.',
    ensures
        domain_of(email + seq!['.']) == domain_of(email),
{
    assert(strip_trailing_dot(email + seq!['.']) =~= email);
}

/// Only an exact match counts. Where `domain` is on the denylist and
/// `longer` extends it, the address `user@longer` is not unwanted on account
/// of `domain`: it is unwanted only if what is read as the domain of that
/// address, the first segment of `longer` with one trailing full stop set
/// aside, is itself on the denylist.
pub proof fn lemma_extension_not_unwanted(
    denylist: Set<Seq<char>>,
    domain: Seq<char>,
    longer: Seq<char>,
)
    requires
        denylist.contains(domain),
        domain.is_prefix_of(longer),
        longer != domain,
        !denylist.contains(first_segment(strip_trailing_dot(longer))),
    ensures
        !is_unwanted(seq!['u', 's', 'e', 'r', '@'] + longer, denylist),
{
    let local = seq!['u', 's', 'e', 'r'];
    assert(!local.contains('@'));
    assert(local + seq!['@'] + longer =~= seq!['u', 's', 'e', 'r', '@'] + longer);
    lemma_domain_after_local_part(local, longer);
}

} // verus!
