//! Plain data exchanged with the remote reading-list service, and the pure
//! logic of the session layer: joining link titles and classifying a login
//! response body.  The transport itself and the page scraping live outside
//! the engine.

use vstd::prelude::*;

use vstd::string::StringSliceAdditionalSpecFns;

verus! {

/// A scraped hyperlink: its display title and its location.
pub struct Link {
    pub title: String,
    pub location: String,
}

/// The titles of `list` joined with `sep` between neighbours.
pub open spec fn spec_joined(titles: Seq<Seq<char>>, sep: Seq<char>) -> Seq<char>
    decreases titles.len(),
{
    if titles.len() == 0 {
        Seq::empty()
    } else if titles.len() == 1 {
        titles[0]
    } else {
        spec_joined(titles.drop_last(), sep) + sep + titles.last()
    }
}

/// Join the titles of a list of links with a separator.
pub fn list_to_str(list: &Vec<Link>, sep: &str) -> (r: String)
    ensures
        r@ == spec_joined(list@.map_values(|l: Link| l.title@), sep@),
{
    let ghost titles = list@.map_values(|l: Link| l.title@);
    let mut out = String::new();
    let mut k: usize = 0;
    while k < list.len()
        invariant
            0 <= k <= list@.len(),
            titles == list@.map_values(|l: Link| l.title@),
            out@ == spec_joined(titles.take(k as int), sep@),
        decreases list@.len() - k,
    {
        if k > 0 {
            out.append(sep);
        }
        out.append(list[k].title.as_str());
        proof {
            assert(titles.take(k + 1).drop_last() =~= titles.take(k as int));
            assert(titles.take(k + 1).last() == titles[k as int]);
            if k == 0 {
                assert(titles.take(1) =~= seq![titles[0]]);
            }
        }
        k = k + 1;
    }
    proof {
        assert(titles.take(titles.len() as int) =~= titles);
    }
    out
}

/// `n` occurs as a contiguous byte substring of `h`.
pub open spec fn spec_contains_bytes(h: Seq<u8>, n: Seq<u8>) -> bool {
    exists|i: int|
        0 <= i <= h.len() - n.len() && #[trigger] h.subrange(i, i + n.len() as int) =~= n
}

/// Whether `needle` occurs in `hay`, by bytes.
pub fn contains_sub(hay: &str, needle: &str) -> (r: bool)
    ensures
        r == spec_contains_bytes(hay.spec_bytes(), needle.spec_bytes()),
{
    let h = hay.as_bytes();
    let n = needle.as_bytes();
    let hl = h.len();
    let nl = n.len();
    if nl > hl {
        proof {
            assert(!spec_contains_bytes(h@, n@));
        }
        return false;
    }
    let mut i: usize = 0;
    while i <= hl - nl
        invariant
            nl <= hl,
            hl == h@.len(),
            nl == n@.len(),
            h@ == hay.spec_bytes(),
            n@ == needle.spec_bytes(),
            0 <= i <= hl - nl + 1,
            forall|p: int|
                0 <= p < i ==> !(#[trigger] h@.subrange(p, p + nl as int) =~= n@),
        decreases hl - nl - i + 1,
    {
        let mut j: usize = 0;
        let mut matched = true;
        while j < nl
            invariant
                nl <= hl,
                hl == h@.len(),
                nl == n@.len(),
                0 <= i <= hl - nl,
                0 <= j <= nl,
                matched == (forall|q: int| 0 <= q < j ==> h@[i + q] == n@[q]),
            decreases nl - j,
        {
            let hb = h[i + j];
            let nb = n[j];
            if hb != nb {
                matched = false;
                proof {
                    assert(h@[i + j as int] != n@[j as int]);
                }
                j = nl;
            } else {
                proof {
                    assert(h@[i + j as int] == n@[j as int]);
                    if matched {
                        assert forall|q: int| 0 <= q < j + 1 implies h@[i + q] == n@[q] by {
                            if q == j {
                                assert(h@[i + j as int] == n@[j as int]);
                            }
                        }
                    }
                }
                j = j + 1;
            }
        }
        if matched {
            proof {
                assert(h@.subrange(i as int, i + nl as int) =~= n@);
            }
            return true;
        }
        proof {
            assert(!(h@.subrange(i as int, i + nl as int) =~= n@));
        }
        i = i + 1;
    }
    proof {
        assert forall|p: int|
            0 <= p <= h@.len() - n@.len() implies !(#[trigger] h@.subrange(p, p + n@.len() as int)
            =~= n@) by {}
    }
    false
}

/// Whether a login response body reports a signed-in session.
///
/// A body carrying the failed-login notice means no; one carrying the
/// success or already-signed-in notice means yes; anything else means no.
pub open spec fn spec_login_outcome(body: Seq<u8>) -> bool {
    if spec_contains_bytes(
        body,
        "The password or user name you entered doesn't match our records.".spec_bytes(),
    ) {
        false
    } else {
        spec_contains_bytes(body, "Successfully logged in.".spec_bytes()) || spec_contains_bytes(
            body,
            "You are already signed in.".spec_bytes(),
        )
    }
}

/// Classify a login response body: the failed-login notice wins, then the
/// success and already-signed-in notices; an unrecognized body counts as not
/// signed in.
pub fn login_outcome(body: &str) -> (r: bool)
    ensures
        r == spec_login_outcome(body.spec_bytes()),
{
    if contains_sub(body, "The password or user name you entered doesn't match our records.") {
        false
    } else if contains_sub(body, "Successfully logged in.") {
        true
    } else if contains_sub(body, "You are already signed in.") {
        true
    } else {
        false
    }
}

} // verus!
