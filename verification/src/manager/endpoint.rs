use vstd::prelude::*;
use vstd::string::*;
use crate::decimal::{decimal_string, decimal_text};

verus! {

pub const STATUS_OK: u16 = 200;
pub const STATUS_BAD_REQUEST: u16 = 400;
pub const STATUS_NOT_ACCEPTABLE: u16 = 406;
pub const STATUS_REQUEST_TIMEOUT: u16 = 408;
pub const STATUS_INTERNAL_SERVER_ERROR: u16 = 500;
pub const STATUS_SERVICE_UNAVAILABLE: u16 = 503;

/// Why the layers in front of the allocation handlers refused a request.
pub enum MiddlewareError {
    /// The request took longer than the request timeout.
    Timeout,
    /// Too many requests were under way.
    Overloaded,
    /// Another failure, with its text.
    Other(String),
}

/// The status and body of the answer to a refused request.
pub open spec fn error_answer(e: MiddlewareError) -> (u16, Seq<char>) {
    match e {
        MiddlewareError::Timeout => (STATUS_REQUEST_TIMEOUT, "request timed out"@),
        MiddlewareError::Overloaded => (STATUS_SERVICE_UNAVAILABLE, "service is overloaded, try again later"@),
        MiddlewareError::Other(t) => (STATUS_INTERNAL_SERVER_ERROR, "Unhandled internal error: "@ + t@),
    }
}

/// Answers a request that the layers in front of the handlers refused.
pub fn handle_error(e: MiddlewareError) -> (r: (u16, String))
    ensures
        (r.0, r.1@) == error_answer(e),
{
    match e {
        MiddlewareError::Timeout => (STATUS_REQUEST_TIMEOUT, String::from_str("request timed out")),
        MiddlewareError::Overloaded => (
            STATUS_SERVICE_UNAVAILABLE,
            String::from_str("service is overloaded, try again later"),
        ),
        MiddlewareError::Other(t) => {
            let s = String::from_str("Unhandled internal error: ");
            (STATUS_INTERNAL_SERVER_ERROR, s.concat(t.as_str()))
        },
    }
}

/// `needle` occurs in `hay` starting at `i`.
pub open spec fn occurs_at(hay: Seq<char>, needle: Seq<char>, i: int) -> bool {
    0 <= i && i + needle.len() <= hay.len() && hay.subrange(i, i + needle.len()) == needle
}

pub open spec fn contains_text(hay: Seq<char>, needle: Seq<char>) -> bool {
    exists|i: int| occurs_at(hay, needle, i)
}

/// Whether `needle` occurs in `hay`, as `str::contains` tells.
pub fn contains(hay: &str, needle: &str) -> (b: bool)
    ensures
        b == contains_text(hay@, needle@),
{
    let n = hay.unicode_len();
    let m = needle.unicode_len();
    if m > n {
        assert forall|i: int| !occurs_at(hay@, needle@, i) by {}
        return false;
    }
    let mut i: usize = 0;
    while i <= n - m
        invariant
            n == hay@.len(),
            m == needle@.len(),
            m <= n,
            forall|k: int| 0 <= k < i ==> !occurs_at(hay@, needle@, k),
        decreases n - m + 1 - i,
    {
        let mut j: usize = 0;
        let mut same = true;
        while j < m && same
            invariant
                n == hay@.len(),
                m == needle@.len(),
                i + m <= n,
                j <= m,
                same == forall|q: int| 0 <= q < j ==> hay@[i + q] == needle@[q],
            decreases m - j,
        {
            if hay.get_char(i + j) != needle.get_char(j) {
                same = false;
            }
            j = j + 1;
        }
        if same {
            assert(hay@.subrange(i as int, i + m) =~= needle@);
            assert(occurs_at(hay@, needle@, i as int));
            return true;
        }
        proof {
            let q = choose|q: int| 0 <= q < j && hay@[i + q] != needle@[q];
            if occurs_at(hay@, needle@, i as int) {
                assert(hay@.subrange(i as int, i + m)[q] == hay@[i + q]);
            }
        }
        i = i + 1;
    }
    assert forall|k: int| !occurs_at(hay@, needle@, k) by {
        if 0 <= k && k + m <= n {
            assert(k < i);
        }
    }
    false
}

/// Whether a request to `path` is counted in the request metrics: requests
/// for the metrics themselves are not.
pub fn records_metrics(path: &str, metrics_path: &str) -> (b: bool)
    ensures
        b == !contains_text(path@, metrics_path@),
{
    !contains(path, metrics_path)
}

/// The labels under which a request is counted: its method, its path, and
/// the status of the answer in decimal.
pub fn metric_labels(method: String, path: String, status: u16) -> (labels: Vec<(&'static str, String)>)
    ensures
        labels@.len() == 3,
        labels@[0].0@ == "method"@,
        labels@[0].1@ == method@,
        labels@[1].0@ == "path"@,
        labels@[1].1@ == path@,
        labels@[2].0@ == "status"@,
        labels@[2].1@ == decimal_text(status as nat),
{
    let mut labels: Vec<(&'static str, String)> = Vec::new();
    labels.push(("method", method));
    labels.push(("path", path));
    labels.push(("status", decimal_string(status as u64)));
    labels
}

/// The status of the answer to a removal: success where the session's udp
/// proxy or, failing that, its tcp proxy was removed.
pub fn delete_proxy_status(udp_deleted: bool, tcp_deleted: bool) -> (s: u16)
    ensures
        s == if udp_deleted || tcp_deleted { STATUS_OK } else { STATUS_BAD_REQUEST },
{
    if udp_deleted || tcp_deleted {
        STATUS_OK
    } else {
        STATUS_BAD_REQUEST
    }
}

/// The status of the answer to an allocation: success, or not acceptable.
pub fn allocate_proxy_status(allocated: bool) -> (s: u16)
    ensures
        s == if allocated { STATUS_OK } else { STATUS_NOT_ACCEPTABLE },
{
    if allocated {
        STATUS_OK
    } else {
        STATUS_NOT_ACCEPTABLE
    }
}

/// The status of the answer to a status request: the service is up.
pub fn status_proxy() -> (s: u16)
    ensures
        s == STATUS_OK,
{
    STATUS_OK
}

} // verus!
