use vstd::prelude::*;
use crate::error::ResolveError;
use crate::text::{chars_of, push_chars, string_of};

verus! {

/// A Lightning Address `username@domain`: both parts non-empty, neither holding `@`.
#[derive(Debug, Clone)]
pub struct LightningAddress {
    pub username: String,
    pub domain: String,
}

/// No character of `s` is `@`.
pub open spec fn at_free(s: Seq<char>) -> bool {
    forall|i: int| 0 <= i < s.len() ==> s[i] != '@'
}

/// `s` is `u@d` with `u` and `d` non-empty and free of `@`.
pub open spec fn splits_into(s: Seq<char>, u: Seq<char>, d: Seq<char>) -> bool {
    &&& u.len() > 0
    &&& d.len() > 0
    &&& at_free(u)
    &&& at_free(d)
    &&& s == u + seq!['@'] + d
}

/// `s` holds exactly one `@`, with a non-empty part on each side.
pub open spec fn is_valid_address(s: Seq<char>) -> bool {
    exists|k: int|
        0 < k < s.len() - 1 && s[k] == '@' && at_free(s.take(k)) && at_free(s.skip(k + 1))
}

/// The discovery URL `https://{domain}/.well-known/lnurlp/{username}`.
pub open spec fn well_known_url_spec(username: Seq<char>, domain: Seq<char>) -> Seq<char> {
    "https://"@ + domain + "/.well-known/lnurlp/"@ + username
}

impl LightningAddress {
    /// The URL at which the payee's pay descriptor is published.
    pub fn well_known_url(&self) -> (r: String)
        ensures
            r@ == well_known_url_spec(self.username@, self.domain@),
    {
        proof {
            reveal_strlit("https://");
            reveal_strlit("/.well-known/lnurlp/");
        }
        let mut v = chars_of("https://");
        push_chars(&mut v, &chars_of(self.domain.as_str()));
        push_chars(&mut v, &chars_of("/.well-known/lnurlp/"));
        push_chars(&mut v, &chars_of(self.username.as_str()));
        string_of(v.as_slice())
    }

    pub open spec fn well_formed(&self) -> bool {
        &&& self.username@.len() > 0
        &&& self.domain@.len() > 0
        &&& at_free(self.username@)
        &&& at_free(self.domain@)
    }
}

/// Splits `user@domain` on its `@`; fails with `InvalidAddress` unless exactly one `@`
/// is present and both sides are non-empty.
pub fn parse_lnaddress(lnaddress: &str) -> (r: Result<LightningAddress, ResolveError>)
    ensures
        r is Ok <==> is_valid_address(lnaddress@),
        r matches Ok(a) ==> a.well_formed() && splits_into(lnaddress@, a.username@, a.domain@),
        r matches Err(e) ==> e == ResolveError::InvalidAddress,
{
    let cs = chars_of(lnaddress);
    let n = cs.len();
    let mut k: usize = 0;
    while k < n && cs[k] != '@'
        invariant
            k <= n,
            n == cs@.len(),
            at_free(cs@.take(k as int)),
        decreases n - k,
    {
        assert(cs@.take(k as int + 1) =~= cs@.take(k as int).push(cs@[k as int]));
        k = k + 1;
    }
    if k == n {
        assert(cs@.take(n as int) =~= cs@);
        assert(!is_valid_address(lnaddress@)) by {
            if exists|j: int| 0 < j < cs@.len() - 1 && cs@[j] == '@' {
                let j = choose|j: int| 0 < j < cs@.len() - 1 && cs@[j] == '@';
                assert(cs@.take(n as int)[j] == '@');
            }
        }
        return Err(ResolveError::InvalidAddress);
    }
    if k == 0 || k + 1 == n {
        assert(!is_valid_address(lnaddress@)) by {
            if is_valid_address(lnaddress@) {
                let j = choose|j: int|
                    0 < j < cs@.len() - 1 && cs@[j] == '@' && at_free(cs@.take(j))
                        && at_free(cs@.skip(j + 1));
                if j < k {
                    assert(cs@.take(k as int)[j] == '@');
                } else if j > k {
                    assert(cs@.take(j)[k as int] == '@');
                }
            }
        }
        return Err(ResolveError::InvalidAddress);
    }
    let mut m: usize = k + 1;
    while m < n && cs[m] != '@'
        invariant
            k < m <= n,
            n == cs@.len(),
            forall|i: int| k < i < m ==> cs@[i] != '@',
        decreases n - m,
    {
        m = m + 1;
    }
    if m < n {
        assert(!is_valid_address(lnaddress@)) by {
            if is_valid_address(lnaddress@) {
                let j = choose|j: int|
                    0 < j < cs@.len() - 1 && cs@[j] == '@' && at_free(cs@.take(j))
                        && at_free(cs@.skip(j + 1));
                if j < k {
                    assert(cs@.take(k as int)[j] == '@');
                } else if j == k {
                    assert(cs@.skip(j + 1)[m - j - 1] == '@');
                } else {
                    assert(cs@.take(j)[k as int] == '@');
                }
            }
        }
        return Err(ResolveError::InvalidAddress);
    }
    let username = string_of(vstd::slice::slice_subrange(cs.as_slice(), 0, k));
    let domain = string_of(vstd::slice::slice_subrange(cs.as_slice(), k + 1, n));
    let ghost u = cs@.take(k as int);
    let ghost d = cs@.skip(k as int + 1);
    assert(at_free(d)) by {
        assert forall|i: int| 0 <= i < d.len() implies d[i] != '@' by {
            assert(d[i] == cs@[k + 1 + i]);
        }
    }
    assert(cs@ =~= u + seq!['@'] + d);
    assert(is_valid_address(lnaddress@));
    Ok(LightningAddress { username, domain })
}

} // verus!
