//! The domain allow-list: decides whether a source host may be
//! fetched from.
//!
//! The list is a comma-separated set of patterns. The single pattern
//! `*` admits every host; a pattern starting with `*.` admits every
//! host under that suffix (subdomains only, not the bare domain); any
//! other pattern admits exactly itself.

use vstd::prelude::*;
use vstd::string::StringSliceAdditionalSpecFns;

verus! {

/// `h` ends with `t`.
pub open spec fn spec_ends_with(h: Seq<u8>, t: Seq<u8>) -> bool {
    h.len() >= t.len() && h.skip(h.len() - t.len()) == t
}

/// The host matches one pattern: a `*.`-pattern by its dotted suffix,
/// any other pattern by equality.
pub open spec fn spec_pattern_matches(host: Seq<u8>, p: Seq<u8>) -> bool {
    if p.len() >= 2 && p[0] == 0x2a && p[1] == 0x2e {
        // "*." wildcard: the host must end with ".suffix"
        spec_ends_with(host, p.skip(1))
    } else {
        host == p
    }
}

/// `[s, e)` is one comma-separated segment of `w`: bounded by commas
/// (or the ends of `w`) and holding none itself.
pub open spec fn spec_is_segment(w: Seq<u8>, s: int, e: int) -> bool {
    &&& 0 <= s <= e <= w.len()
    &&& (s == 0 || w[s - 1] == 0x2c)
    &&& (e == w.len() || w[e] == 0x2c)
    &&& forall|j: int| s <= j < e ==> w[j] != 0x2c
}

/// Some segment of `w` is a pattern the host matches.
pub open spec fn spec_seg_match(host: Seq<u8>, w: Seq<u8>, s: int, e: int) -> bool {
    spec_is_segment(w, s, e) && spec_pattern_matches(host, w.subrange(s, e))
}

/// The host is admitted: the whole list is `*`, or one of its
/// segments matches.
pub open spec fn spec_allowed(host: Seq<u8>, w: Seq<u8>) -> bool {
    w == seq![0x2au8] || exists|s: int, e: int| spec_seg_match(host, w, s, e)
}

/// Compares `len` bytes of `a` from `aoff` with `len` bytes of `b`
/// from `boff`.
fn bytes_eq_at(a: &[u8], aoff: usize, b: &[u8], boff: usize, len: usize) -> (r: bool)
    requires
        aoff + len <= a@.len(),
        boff + len <= b@.len(),
    ensures
        r <==> (forall|j: int| aoff <= j < aoff + len ==> a@[j] == b@[boff + (j - aoff)]),
{
    let a_len = a.len();
    let b_len = b.len();
    let mut k: usize = 0;
    while k < len
        invariant
            0 <= k <= len,
            aoff + len <= a_len == a@.len(),
            boff + len <= b_len == b@.len(),
            forall|j: int| aoff <= j < aoff + k ==> a@[j] == b@[boff + (j - aoff)],
        decreases len - k,
    {
        if a[aoff + k] != b[boff + k] {
            return false;
        }
        k += 1;
    }
    true
}

/// Whether the host matches the pattern standing at `[s, e)` of `w`.
fn pattern_matches_at(host: &[u8], w: &[u8], s: usize, e: usize) -> (r: bool)
    requires
        s <= e <= w@.len(),
    ensures
        r == spec_pattern_matches(host@, w@.subrange(s as int, e as int)),
{
    let ghost p = w@.subrange(s as int, e as int);
    let plen = e - s;
    if plen >= 2 && w[s] == 0x2a && w[s + 1] == 0x2e {
        let tlen = plen - 1;
        proof {
            assert(p.skip(1) =~= w@.subrange(s as int + 1, e as int));
        }
        if host.len() < tlen {
            return false;
        }
        let hoff = host.len() - tlen;
        let r = bytes_eq_at(host, hoff, w, s + 1, tlen);
        proof {
            if r {
                assert(host@.skip(hoff as int) =~= w@.subrange(s as int + 1, e as int));
            } else {
                let j = choose|j: int|
                    hoff <= j < hoff + tlen && host@[j] != w@[s as int + 1 + (j - hoff)];
                assert(host@.skip(hoff as int)[j - hoff] != w@.subrange(
                    s as int + 1,
                    e as int,
                )[j - hoff]);
            }
        }
        r
    } else {
        if host.len() != plen {
            return false;
        }
        let r = bytes_eq_at(host, 0, w, s, plen);
        proof {
            if r {
                assert(host@ =~= w@.subrange(s as int, e as int));
            } else {
                let j = choose|j: int| 0 <= j < plen && host@[j] != w@[s as int + j];
                assert(host@[j] != w@.subrange(s as int, e as int)[j]);
            }
        }
        r
    }
}

/// Decides whether `host` is admitted by the comma-separated
/// allow-list `whitelist`.
pub fn check_domain_whitelist(host: &str, whitelist: &str) -> (r: bool)
    ensures
        r == spec_allowed(host.spec_bytes(), whitelist.spec_bytes()),
{
    let hb = host.as_bytes();
    let w = whitelist.as_bytes();
    let n = w.len();
    if n == 1 && w[0] == 0x2a {
        proof {
            assert(w@ =~= seq![0x2au8]);
        }
        return true;
    }
    let mut s: usize = 0;
    let mut i: usize = 0;
    while i < n
        invariant
            0 <= s <= i <= n,
            n == w@.len(),
            hb@ == host.spec_bytes(),
            w@ == whitelist.spec_bytes(),
            s == 0 || (s >= 1 && s - 1 < n && w@[s as int - 1] == 0x2c),
            forall|j: int| s <= j < i ==> w@[j] != 0x2c,
            // every segment that ends before `i` has been tried and failed
            forall|s2: int, e2: int|
                spec_is_segment(w@, s2, e2) && e2 < i as int ==> !spec_pattern_matches(
                    hb@,
                    w@.subrange(s2, e2),
                ),
        decreases n - i,
    {
        if w[i] == 0x2c {
            // `[s, i)` is a segment; it is the only one ending at `i`
            assert forall|s2: int| spec_is_segment(w@, s2, i as int) implies s2 == s as int by {
                if s2 < s as int {
                    assert(w@[s as int - 1] == 0x2c);
                    assert(w@[s as int - 1] != 0x2c);
                } else if s2 > s as int {
                    assert(w@[s2 - 1] == 0x2c);
                    assert(w@[s2 - 1] != 0x2c);
                }
            }
            if pattern_matches_at(hb, w, s, i) {
                proof {
                    assert(spec_seg_match(hb@, w@, s as int, i as int));
                    assert(spec_allowed(hb@, w@));
                }
                return true;
            }
            proof {
                assert forall|s2: int, e2: int|
                    spec_is_segment(w@, s2, e2) && e2 < i as int + 1 implies !spec_pattern_matches(
                    hb@,
                    w@.subrange(s2, e2),
                ) by {
                    if e2 == i as int {
                        assert(s2 == s as int);
                    }
                }
            }
            s = i + 1;
        } else {
            proof {
                assert forall|s2: int, e2: int|
                    spec_is_segment(w@, s2, e2) && e2 < i as int + 1 implies !spec_pattern_matches(
                    hb@,
                    w@.subrange(s2, e2),
                ) by {
                    if e2 == i as int {
                        // `i` is not a comma, so no segment ends here
                        assert(w@[i as int] != 0x2c);
                        assert(false);
                    }
                }
            }
        }
        i += 1;
    }
    // the final segment, `[s, n)`
    assert forall|s2: int| spec_is_segment(w@, s2, n as int) implies s2 == s as int by {
        if s2 < s as int {
            assert(w@[s as int - 1] == 0x2c);
            assert(w@[s as int - 1] != 0x2c);
        } else if s2 > s as int {
            assert(w@[s2 - 1] == 0x2c);
            assert(w@[s2 - 1] != 0x2c);
        }
    }
    if pattern_matches_at(hb, w, s, n) {
        proof {
            assert(spec_seg_match(hb@, w@, s as int, n as int));
            assert(spec_allowed(hb@, w@));
        }
        return true;
    }
    proof {
        assert forall|s2: int, e2: int| !spec_seg_match(hb@, w@, s2, e2) by {
            if spec_is_segment(w@, s2, e2) {
                if e2 == n as int {
                    assert(s2 == s as int);
                } else {
                    assert(e2 < n as int);
                }
            }
        }
        assert(w@ != seq![0x2au8]) by {
            if w@ == seq![0x2au8] {
                assert(w@.len() == 1 && w@[0] == 0x2a);
            }
        }
    }
    false
}

} // verus!
