use vstd::prelude::*;

use crate::envelope::opt_view;
use crate::json::str_eq;

verus! {

/// The host label of `hostname` relative to `domain`: what stands before
/// `"." + domain`, if `hostname` ends with it.
pub open spec fn relative_host_of(hostname: Seq<char>, domain: Seq<char>) -> Option<Seq<char>> {
    let n = hostname.len();
    let d = domain.len();
    if n >= d + 1 && hostname.subrange(n - d, n as int) == domain && hostname[n - d - 1] == '.' {
        Some(hostname.subrange(0, n - d - 1))
    } else {
        None
    }
}

/// Strips `"." + domain` from the end of `hostname`; `None` where `hostname`
/// does not end with it.
pub fn relative_host(hostname: &str, domain: &str) -> (r: Option<String>)
    ensures
        opt_view(r) == relative_host_of(hostname@, domain@),
{
    let n = hostname.unicode_len();
    let d = domain.unicode_len();
    if n <= d {
        return None;
    }
    if !str_eq(hostname.substring_char(n - d, n), domain) {
        return None;
    }
    if hostname.get_char(n - d - 1) != '.' {
        return None;
    }
    Some(String::from_str(hostname.substring_char(0, n - d - 1)))
}

/// A hostname splits as `host + "." + domain` exactly when `relative_host_of`
/// gives `host`.
pub proof fn lemma_relative_host_splits(hostname: Seq<char>, domain: Seq<char>, host: Seq<char>)
    ensures
        (relative_host_of(hostname, domain) == Some(host)) <==> (hostname == host + seq!['.']
            + domain),
{
    let n = hostname.len();
    let d = domain.len();
    if relative_host_of(hostname, domain) == Some(host) {
        assert(hostname =~= host + seq!['.'] + domain);
    }
    if hostname == host + seq!['.'] + domain {
        assert(hostname.subrange(n - d, n as int) =~= domain);
        assert(hostname.subrange(0, n - d - 1) =~= host);
    }
}

} // verus!
