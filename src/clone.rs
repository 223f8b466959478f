//! Outcome reporting for authenticated clones of optional dependencies. A
//! failed clone is reported and the run goes on.

use vstd::prelude::*;
use vstd::string::*;
use crate::gitlink::occurs_in;

verus! {

/// The line reported after `url` was cloned into `path`.
pub open spec fn cloned_text(url: Seq<char>, path: Seq<char>) -> Seq<char> {
    "Finished cloning "@ + url + " into "@ + path
}

/// The line reported when cloning `url` failed with `cause`, with a hint that
/// access to the private remote may be missing.
pub open spec fn clone_failure_text(url: Seq<char>, cause: Seq<char>) -> Seq<char> {
    "Failed to clone "@ + url
        + ". Is Your Git Account Part Of The NVIDIAGameWorks UELA Group?. Error: "@ + cause
}

/// The report of a clone of `url` into `path`: `Ok` with the success line
/// when `failure` is `None`, else `Err` with the failure line, which the
/// caller shows before going on.
pub fn clone_report(url: &str, path: &str, failure: Option<&str>) -> (r: Result<String, String>)
    ensures
        match failure {
            None => r is Ok && r->Ok_0@ == cloned_text(url@, path@),
            Some(cause) => r is Err && r->Err_0@ == clone_failure_text(url@, cause@),
        },
{
    match failure {
        None => {
            let mut s = String::from_str("Finished cloning ");
            s.append(url);
            s.append(" into ");
            s.append(path);
            Ok(s)
        },
        Some(cause) => {
            let mut s = String::from_str("Failed to clone ");
            s.append(url);
            s.append(". Is Your Git Account Part Of The NVIDIAGameWorks UELA Group?. Error: ");
            s.append(cause);
            Err(s)
        },
    }
}

/// A failed clone's report names the URL that failed.
pub proof fn lemma_failure_names_url(url: Seq<char>, cause: Seq<char>)
    ensures
        occurs_in(clone_failure_text(url, cause), url),
{
    let t = clone_failure_text(url, cause);
    let k: int = "Failed to clone "@.len() as int;
    assert(t.subrange(k, k + url.len()) =~= url);
    assert(crate::gitlink::occurs_at(t, url, k));
}

} // verus!
