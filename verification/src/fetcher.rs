//! Resolving fetched asset text into the shapes the packer consumes.
//!
//! The reads themselves (local files, HTTP) happen outside the library;
//! each source arrives here as a `Result` carrying either its text or the
//! reason the read failed.  These functions state exactly how the texts
//! are aggregated and how the first failure aborts the run.

use vstd::prelude::*;

use crate::errors::PackError;

verus! {

/// True when every fetch in the list succeeded.
pub open spec fn all_fetches_ok(fetched: Seq<Result<String, String>>) -> bool {
    forall|i: int| 0 <= i < fetched.len() ==> fetched[i] is Ok
}

/// The concatenation of the fetched texts, in order, no separator.
pub open spec fn spec_concat_texts(fetched: Seq<Result<String, String>>) -> Seq<char>
    decreases fetched.len(),
{
    if fetched.len() == 0 {
        Seq::empty()
    } else {
        spec_concat_texts(fetched.drop_last()) + fetched.last()->Ok_0@
    }
}

/// Collects one text per fetched script source, in order.  The first
/// failed fetch aborts with its reason; nothing after it is consulted.
pub fn get_local_scripts_text(fetched: Vec<Result<String, String>>) -> (r: Result<
    Vec<String>,
    PackError,
>)
    ensures
        r is Ok <==> all_fetches_ok(fetched@),
        r is Ok ==> {
            &&& r->Ok_0@.len() == fetched@.len()
            &&& forall|i: int| 0 <= i < fetched@.len()
                ==> r->Ok_0@[i] == fetched@[i]->Ok_0
        },
        r is Err ==> exists|i: int| {
            &&& 0 <= i < fetched@.len()
            &&& fetched@[i] is Err
            &&& (forall|j: int| 0 <= j < i ==> fetched@[j] is Ok)
            &&& r->Err_0 matches PackError::FetchFailed { reason }
                && reason@ == fetched@[i]->Err_0@
        },
{
    let mut texts: Vec<String> = Vec::new();
    let n = fetched.len();
    for k in 0..n
        invariant
            n == fetched@.len(),
            texts@.len() == k,
            forall|j: int| 0 <= j < k ==> fetched@[j] is Ok,
            forall|j: int| 0 <= j < k ==> texts@[j] == fetched@[j]->Ok_0,
    {
        match &fetched[k] {
            Ok(text) => {
                texts.push(text.clone());
            },
            Err(reason) => {
                return Err(PackError::FetchFailed { reason: reason.clone() });
            },
        }
    }
    Ok(texts)
}

/// Concatenates every fetched stylesheet's text, in order, with no
/// separator.  The first failed fetch aborts with its reason.
pub fn get_css_string(fetched: Vec<Result<String, String>>) -> (r: Result<String, PackError>)
    ensures
        r is Ok <==> all_fetches_ok(fetched@),
        r is Ok ==> r->Ok_0@ == spec_concat_texts(fetched@),
        r is Err ==> exists|i: int| {
            &&& 0 <= i < fetched@.len()
            &&& fetched@[i] is Err
            &&& (forall|j: int| 0 <= j < i ==> fetched@[j] is Ok)
            &&& r->Err_0 matches PackError::FetchFailed { reason }
                && reason@ == fetched@[i]->Err_0@
        },
{
    let mut css = String::new();
    let n = fetched.len();
    for k in 0..n
        invariant
            n == fetched@.len(),
            forall|j: int| 0 <= j < k ==> fetched@[j] is Ok,
            css@ == spec_concat_texts(fetched@.take(k as int)),
    {
        match &fetched[k] {
            Ok(text) => {
                css.append(text.as_str());
                proof {
                    assert(fetched@.take(k + 1).drop_last() =~= fetched@.take(k as int));
                }
            },
            Err(reason) => {
                return Err(PackError::FetchFailed { reason: reason.clone() });
            },
        }
    }
    proof {
        assert(fetched@.take(n as int) =~= fetched@);
    }
    Ok(css)
}

} // verus!
