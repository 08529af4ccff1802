//! The compute half of the link-store client: building the page request's
//! path from the cursor, and classifying what came back.
//!
//! The read itself — an authenticated GET of the built path — is plain
//! transport and stays with the unverified driver, which hands the status
//! and decoded body back to `page_result`.

use vstd::prelude::*;
use vstd::string::StringExecFns;

use crate::models::{FetchError, Link};
use crate::tags::push_char;

verus! {

/// The decimal digit character of `d`.
pub open spec fn digit_char(d: int) -> char {
    ((48 + d) as u8) as char
}

/// The decimal spelling of `n`, most significant digit first.
pub open spec fn dec_digits(n: nat) -> Seq<char>
    decreases n,
{
    if n < 10 {
        seq![digit_char(n as int)]
    } else {
        dec_digits(n / 10).push(digit_char((n % 10) as int))
    }
}

/// The decimal spelling of a signed cursor: a minus sign before the
/// magnitude for negative values.
pub open spec fn spec_i64_digits(v: i64) -> Seq<char> {
    if v >= 0 {
        dec_digits(v as nat)
    } else {
        seq!['-'] + dec_digits((-(v as int)) as nat)
    }
}

/// The request path that asks the store for the page after `cursor`.
pub open spec fn spec_links_path(base_url: Seq<char>, cursor: i64) -> Seq<char> {
    base_url + "/api/v1/links?cursor="@ + spec_i64_digits(cursor) + "&sort=1"@
}

fn push_decimal(out: &mut String, n: u64)
    ensures
        final(out)@ == old(out)@ + dec_digits(n as nat),
    decreases n,
{
    let d: u8 = (n % 10) as u8;
    let c: char = (48 + d) as char;
    if n < 10 {
        push_char(out, c);
        proof {
            assert(out@ =~= old(out)@ + dec_digits(n as nat));
        }
    } else {
        push_decimal(out, n / 10);
        push_char(out, c);
        proof {
            assert(out@ =~= old(out)@ + dec_digits(n as nat));
        }
    }
}

/// The path of the page request for `cursor`, exactly as the store's read
/// API expects it: `{base_url}/api/v1/links?cursor={cursor}&sort=1`.
pub fn links_request_path(base_url: &str, cursor: i64) -> (p: String)
    ensures
        p@ == spec_links_path(base_url@, cursor),
{
    let mut p = base_url.to_owned();
    p.append("/api/v1/links?cursor=");
    if cursor >= 0 {
        push_decimal(&mut p, cursor as u64);
    } else {
        p.append("-");
        let magnitude: u64 = ((-(cursor + 1)) as u64) + 1;
        proof {
            assert(magnitude as int == -(cursor as int));
        }
        push_decimal(&mut p, magnitude);
    }
    p.append("&sort=1");
    proof {
        reveal_strlit("-");
        assert(p@ =~= spec_links_path(base_url@, cursor));
    }
    p
}

/// Classify one page response. A non-2xx status is an `HttpStatus` error
/// carrying the status and body; a 2xx response whose body lacked the
/// expected page array is a `Parse` error; a 2xx response with the array
/// yields exactly those links.
pub fn page_result(status: u16, parsed: Option<Vec<Link>>, detail: String) -> (r: Result<
    Vec<Link>,
    FetchError,
>)
    ensures
        !(200 <= status < 300) ==> (r matches Err(e) && e == (FetchError::HttpStatus {
            status,
            body: detail,
        })),
        (200 <= status < 300) && parsed is None ==> (r matches Err(e) && e
            == (FetchError::Parse { detail })),
        (200 <= status < 300) ==> (parsed matches Some(links) ==> (r matches Ok(ls) && ls
            == links)),
{
    if !(200 <= status && status < 300) {
        Err(FetchError::HttpStatus { status, body: detail })
    } else {
        match parsed {
            Some(links) => Ok(links),
            None => Err(FetchError::Parse { detail }),
        }
    }
}

} // verus!
