//! The resilient dispatcher and its error classifier.
//!
//! A dispatch builds the fallback order (the primary host first, then the
//! backup slots in a random order), tries the attempt function on each
//! host's URL in turn, and classifies every outcome as success, retryable
//! (try the next host) or fatal (stop at once). Exhausting every host with
//! retryable outcomes fails with [`Error::Timeout`].

use crate::app_id::RefAppId;
use crate::error::BadRequestError;
use crate::error::Error;
use crate::error::RequestFailure;
use crate::error::UnexpectedResponseError;
use crate::host::spec_host;
use crate::host::Host;
use crate::text::opt_str_view;
use crate::text::opt_string_view;
use rand::seq::SliceRandom;
use vstd::prelude::*;

verus! {

/// What one attempt against one host produced at the transport level. The
/// transport collaborator reduces its result to this shape; the classifier
/// below is a pure function of it.
#[derive(Clone, Debug)]
pub enum TransportOutcome {
    /// The transport gave up waiting for a response.
    TimedOut,
    /// The transport failed in another way; the text describes the failure.
    Failed(String),
    /// A response arrived with this status and body.
    Received { status: u16, body: String },
}

/// What the dispatcher should do after one attempt.
pub enum AttemptOutcome<T> {
    /// The attempt succeeded; stop and hand the value to the caller.
    Success(T),
    /// The attempt failed in a host-specific way; try the next host.
    Retryable,
    /// The attempt failed in a way no other host can fix; stop at once.
    Fatal(Error),
}

/// The `message` (string) and `status` (unsigned integer) fields of a JSON
/// error body, where the body is a JSON object carrying them.
pub uninterp spec fn json_error_fields(body: Seq<char>) -> (Option<Seq<char>>, Option<u64>);

/// Relies on `serde_json::from_str`: parses the body as JSON and hands out
/// the top-level `message` (string) and `status` (unsigned integer) fields
/// of the parsed object, or `None` for each field the body does not carry
/// in that shape. A body that is not a JSON object yields `(None, None)`.
#[verifier::external_body]
fn extract_error_fields(body: &str) -> (r: (Option<String>, Option<u64>))
    ensures
        opt_string_view(r.0) == json_error_fields(body@).0,
        r.1 == json_error_fields(body@).1,
{
    let mut message = None;
    let mut status = None;
    if let Ok(serde_json::Value::Object(map)) = serde_json::from_str::<serde_json::Value>(body) {
        if let Some(serde_json::Value::String(m)) = map.get("message") {
            message = Some(m.clone());
        }
        if let Some(serde_json::Value::Number(n)) = map.get("status") {
            status = n.as_u64();
        }
    }
    (message, status)
}

/// The classification of a received response, by the rules of the error
/// classifier:
/// server errors are retryable; 404 with an index-name context names the
/// missing index; 400 carries the decoded `{message}` body, or preserves
/// the decode failure when the body is not of that shape; any other
/// client error carries the decoded `{message, status}` body, with the
/// same decode-failure fallback; everything else is a success whose body
/// is handed to the caller's own decode step.
pub open spec fn classified_response(
    status: u16,
    body: Seq<char>,
    index: Option<Seq<char>>,
    r: AttemptOutcome<String>,
) -> bool {
    if 500 <= status && status <= 599 {
        r is Retryable
    } else if status == 404 && index is Some {
        &&& r matches AttemptOutcome::Fatal(e)
        &&& e matches Error::IndexNotFound(n)
        &&& n@ == index->0
    } else if status == 400 {
        match json_error_fields(body).0 {
            Some(m) => {
                &&& r matches AttemptOutcome::Fatal(e)
                &&& e matches Error::RequestError(f)
                &&& f matches RequestFailure::BadRequest(b)
                &&& b.message@ == m
            },
            None => r == AttemptOutcome::<String>::Fatal(
                Error::RequestError(RequestFailure::UndecodableBody { status: 400u16 }),
            ),
        }
    } else if 400 <= status && status <= 499 {
        match json_error_fields(body) {
            (Some(m), Some(s)) => if s <= u16::MAX as u64 {
                &&& r matches AttemptOutcome::Fatal(e)
                &&& e matches Error::RequestError(f)
                &&& f matches RequestFailure::Unexpected(u)
                &&& u.message@ == m
                &&& u.status == s as u16
            } else {
                r == AttemptOutcome::<String>::Fatal(
                    Error::RequestError(RequestFailure::UndecodableBody { status }),
                )
            },
            _ => r == AttemptOutcome::<String>::Fatal(
                Error::RequestError(RequestFailure::UndecodableBody { status }),
            ),
        }
    } else {
        r matches AttemptOutcome::Success(b) && b@ == body
    }
}

/// Classifies one transport outcome, in an optional index-name context:
/// a transport timeout is retryable, another transport failure is fatal,
/// and a received response is classified by [`classified_response`].
pub fn classify_outcome(outcome: TransportOutcome, index: Option<&str>) -> (r: AttemptOutcome<
    String,
>)
    ensures
        outcome is TimedOut ==> r is Retryable,
        outcome matches TransportOutcome::Failed(m) ==> r == AttemptOutcome::<String>::Fatal(
            Error::RequestError(RequestFailure::Transport(m)),
        ),
        outcome matches TransportOutcome::Received { status, body } ==> classified_response(
            status,
            body@,
            opt_str_view(index),
            r,
        ),
{
    match outcome {
        TransportOutcome::TimedOut => AttemptOutcome::Retryable,
        TransportOutcome::Failed(m) => AttemptOutcome::Fatal(
            Error::RequestError(RequestFailure::Transport(m)),
        ),
        TransportOutcome::Received { status, body } => classify_response(status, body, index),
    }
}

/// Classifies a received response; see [`classified_response`] for the
/// rules.
pub fn classify_response(status: u16, body: String, index: Option<&str>) -> (r: AttemptOutcome<
    String,
>)
    ensures
        classified_response(status, body@, opt_str_view(index), r),
{
    if 500 <= status && status <= 599 {
        return AttemptOutcome::Retryable;
    }
    if status == 404 {
        if let Some(name) = index {
            return AttemptOutcome::Fatal(Error::IndexNotFound(name.to_owned()));
        }
    }
    if status == 400 {
        let (message, _) = extract_error_fields(body.as_str());
        return match message {
            Some(message) => AttemptOutcome::Fatal(
                Error::RequestError(RequestFailure::BadRequest(BadRequestError { message })),
            ),
            None => AttemptOutcome::Fatal(
                Error::RequestError(RequestFailure::UndecodableBody { status: 400 }),
            ),
        };
    }
    if 400 <= status && status <= 499 {
        let (message, body_status) = extract_error_fields(body.as_str());
        return match (message, body_status) {
            (Some(message), Some(s)) => if s <= u16::MAX as u64 {
                AttemptOutcome::Fatal(
                    Error::RequestError(
                        RequestFailure::Unexpected(
                            UnexpectedResponseError { message, status: s as u16 },
                        ),
                    ),
                )
            } else {
                AttemptOutcome::Fatal(
                    Error::RequestError(RequestFailure::UndecodableBody { status }),
                )
            },
            _ => AttemptOutcome::Fatal(
                Error::RequestError(RequestFailure::UndecodableBody { status }),
            ),
        };
    }
    AttemptOutcome::Success(body)
}

/// Relies on rand's `SliceRandom::shuffle`: permutes the elements in place
/// by swaps; which permutation comes out depends on the thread-local
/// generator, so only the multiset of elements (and hence the length) is
/// promised.
#[verifier::external_body]
fn shuffle_backups(v: &mut Vec<usize>)
    ensures
        final(v)@.len() == old(v)@.len(),
        final(v)@.to_multiset() == old(v)@.to_multiset(),
{
    v.as_mut_slice().shuffle(&mut rand::thread_rng());
}

/// The backup slots every tenant has beside its primary host.
pub open spec fn backup_slots() -> Seq<usize> {
    seq![1usize, 2usize, 3usize]
}

/// The order in which hosts are tried for one dispatch: the primary host
/// (slot 0) always first, then the fixed backup slots as a random
/// permutation — no duplicates, no omissions. The randomization spreads
/// load across backups; it is not needed for correctness.
pub fn fallback_order() -> (r: Vec<usize>)
    ensures
        r@.len() == 4,
        r@[0] == 0usize,
        r@.skip(1).to_multiset() == backup_slots().to_multiset(),
        forall|i: int| 1 <= i < 4 ==> 1 <= #[trigger] r@[i] <= 3,
{
    let mut backups: Vec<usize> = Vec::new();
    backups.push(1);
    backups.push(2);
    backups.push(3);
    proof {
        assert(backups@ =~= backup_slots());
    }
    shuffle_backups(&mut backups);
    let mut order: Vec<usize> = Vec::new();
    order.push(0);
    order.push(backups[0]);
    order.push(backups[1]);
    order.push(backups[2]);
    proof {
        broadcast use vstd::seq_lib::group_to_multiset_ensures;

        assert(order@.skip(1) =~= backups@);
        assert forall|i: int| 1 <= i < 4 implies 1 <= #[trigger] order@[i] <= 3 by {
            let x = order@[i];
            assert(backups@[i - 1] == x);
            assert(backups@.contains(x));
            assert(backups@.to_multiset().count(x) > 0);
            assert(backup_slots().to_multiset().count(x) > 0);
            assert(backup_slots().contains(x));
        }
    }
    order
}

/// The URL of one attempt: the scheme, the resolved host, the API version
/// and the route.
pub open spec fn spec_attempt_url(host: Seq<char>, route: Seq<char>) -> Seq<char> {
    "https://"@ + host + "/1/"@ + route
}

/// Builds the URL for one attempt against the given backup slot (slot 0 is
/// the primary host).
pub fn attempt_url(app_id: RefAppId<'_>, slot: usize, route: &str) -> (r: String)
    ensures
        r@ == spec_attempt_url(spec_host(app_id@, false, Some(slot)), route@),
{
    let host = Host::with_backup(app_id, Some(slot)).resolve();
    let mut out = String::from_str("https://");
    out.append(host.as_str());
    out.append("/1/");
    out.append(route);
    proof {
        assert(out@ =~= spec_attempt_url(spec_host(app_id@, false, Some(slot)), route@));
    }
    out
}

/// Whether `url` is one of the URLs a dispatch for this tenant and route
/// may try.
pub open spec fn is_fallback_url(url: Seq<char>, app_id: Seq<char>, route: Seq<char>) -> bool {
    exists|slot: usize|
        slot <= 3 && url == spec_attempt_url(spec_host(app_id, false, Some(slot)), route)
}

/// Builds the URLs of one dispatch, in the order they will be attempted:
/// the primary host's URL first, then the backup hosts' URLs in a random
/// permutation of the fixed backup set.
pub fn attempt_urls(app_id: RefAppId<'_>, route: &str) -> (r: Vec<String>)
    ensures
        r@.len() == 4,
        r@[0]@ == spec_attempt_url(spec_host(app_id@, false, None), route@),
        forall|i: int| 0 <= i < 4 ==> is_fallback_url(#[trigger] r@[i]@, app_id@, route@),
        exists|slots: Seq<usize>|
            {
                &&& slots.len() == 4
                &&& slots[0] == 0usize
                &&& slots.skip(1).to_multiset() == backup_slots().to_multiset()
                &&& forall|i: int|
                    0 <= i < 4 ==> #[trigger] r@[i]@ == spec_attempt_url(
                        spec_host(app_id@, false, Some(slots[i])),
                        route@,
                    )
            },
{
    let order = fallback_order();
    let mut urls: Vec<String> = Vec::new();
    let n = order.len();
    let mut i: usize = 0;
    while i < n
        invariant
            i <= n,
            n == 4,
            order@.len() == 4,
            order@[0] == 0usize,
            order@.skip(1).to_multiset() == backup_slots().to_multiset(),
            forall|j: int| 1 <= j < 4 ==> 1 <= #[trigger] order@[j] <= 3,
            urls@.len() == i,
            forall|j: int|
                0 <= j < i ==> #[trigger] urls@[j]@ == spec_attempt_url(
                    spec_host(app_id@, false, Some(order@[j])),
                    route@,
                ),
        decreases n - i,
    {
        let url = attempt_url(app_id, order[i], route);
        urls.push(url);
        i += 1;
    }
    proof {
        assert forall|j: int| 0 <= j < 4 implies is_fallback_url(
            #[trigger] urls@[j]@,
            app_id@,
            route@,
        ) by {
            let slot = order@[j];
            assert(slot <= 3);
            assert(urls@[j]@ == spec_attempt_url(spec_host(app_id@, false, Some(slot)), route@));
        }
        assert(spec_host(app_id@, false, Some(0usize)) =~= spec_host(app_id@, false, None));
        assert(urls@[0]@ == spec_attempt_url(spec_host(app_id@, false, None), route@));
    }
    urls
}

/// Tries `attempt` on each URL in order and returns the outcome together
/// with the number of attempts made.
///
/// The contract pins the dispatch policy down:
/// every attempt before the deciding one was retryable; a success or a
/// fatal error is the attempt function's own outcome for the URL at which
/// the dispatch stopped; a timeout means every URL was attempted and each
/// was retryable.
///
/// Two laws follow and are stated as conditional clauses: an attempt
/// function that can only be retryable exhausts all URLs — exactly as many
/// attempts as URLs — and fails with [`Error::Timeout`]; an attempt
/// function that can only be fatal stops after the first attempt with that
/// attempt's error.
pub fn dispatch_attempts<T, F: Fn(String) -> AttemptOutcome<T>>(urls: &Vec<String>, attempt: F) -> (r:
    (Result<T, Error>, usize))
    requires
        forall|url: String| #[trigger] attempt.requires((url,)),
    ensures
        r.1 <= urls@.len(),
        forall|i: int|
            0 <= i < r.1 - 1 ==> attempt.ensures((urls@[i],), AttemptOutcome::<T>::Retryable),
        r.0 matches Ok(t) ==> 1 <= r.1 && attempt.ensures(
            (urls@[r.1 - 1],),
            AttemptOutcome::Success(t),
        ),
        r.0 matches Err(e) ==> {
            ||| {
                &&& e == Error::Timeout
                &&& r.1 == urls@.len()
                &&& forall|i: int|
                    0 <= i < r.1 ==> attempt.ensures((urls@[i],), AttemptOutcome::<T>::Retryable)
            }
            ||| (1 <= r.1 && attempt.ensures((urls@[r.1 - 1],), AttemptOutcome::Fatal(e)))
        },
        (forall|u: String, o: AttemptOutcome<T>| attempt.ensures((u,), o) ==> o is Retryable)
            ==> r.0 == Err::<T, Error>(Error::Timeout) && r.1 == urls@.len(),
        (urls@.len() > 0 && (forall|u: String, o: AttemptOutcome<T>|
            attempt.ensures((u,), o) ==> o is Fatal)) ==> r.1 == 1 && (r.0 matches Err(e)
            && attempt.ensures((urls@[0],), AttemptOutcome::Fatal(e))),
{
    let n = urls.len();
    let mut i: usize = 0;
    while i < n
        invariant
            i <= n,
            n == urls@.len(),
            forall|url: String| #[trigger] attempt.requires((url,)),
            forall|j: int|
                0 <= j < i ==> attempt.ensures((urls@[j],), AttemptOutcome::<T>::Retryable),
        decreases n - i,
    {
        let url = urls[i].clone();
        match attempt(url) {
            AttemptOutcome::Success(t) => {
                return (Ok(t), i + 1);
            },
            AttemptOutcome::Retryable => {
                i += 1;
            },
            AttemptOutcome::Fatal(e) => {
                proof {
                    if i > 0 {
                        assert(attempt.ensures((urls@[0],), AttemptOutcome::<T>::Retryable));
                    }
                }
                return (Err(e), i + 1);
            },
        }
    }
    proof {
        if n > 0 {
            assert(attempt.ensures((urls@[0],), AttemptOutcome::<T>::Retryable));
        }
    }
    (Err(Error::Timeout), n)
}

/// Dispatches one operation for a tenant: builds the randomized fallback
/// URLs for the route and tries `attempt` on each in turn, returning the
/// first success, the first fatal error, or [`Error::Timeout`] once every
/// host was tried in vain.
pub fn dispatch<T, F: Fn(String) -> AttemptOutcome<T>>(
    app_id: RefAppId<'_>,
    route: &str,
    attempt: F,
) -> (r: Result<T, Error>)
    requires
        forall|url: String| #[trigger] attempt.requires((url,)),
    ensures
        r matches Ok(t) ==> exists|url: String|
            #[trigger] attempt.ensures((url,), AttemptOutcome::Success(t)) && is_fallback_url(
                url@,
                app_id@,
                route@,
            ),
        r matches Err(e) ==> e == Error::Timeout || exists|url: String|
            #[trigger] attempt.ensures((url,), AttemptOutcome::Fatal(e)) && is_fallback_url(
                url@,
                app_id@,
                route@,
            ),
        (forall|u: String, o: AttemptOutcome<T>| attempt.ensures((u,), o) ==> o is Retryable)
            ==> r == Err::<T, Error>(Error::Timeout),
{
    let urls = attempt_urls(app_id, route);
    let (result, attempts) = dispatch_attempts(&urls, attempt);
    proof {
        if result is Ok {
            let t = result->Ok_0;
            let url = urls@[attempts - 1];
            assert(attempt.ensures((url,), AttemptOutcome::Success(t)) && is_fallback_url(
                url@,
                app_id@,
                route@,
            ));
        }
        if result is Err && result->Err_0 != Error::Timeout {
            let e = result->Err_0;
            let url = urls@[attempts - 1];
            assert(attempt.ensures((url,), AttemptOutcome::Fatal(e)) && is_fallback_url(
                url@,
                app_id@,
                route@,
            ));
        }
    }
    result
}

} // verus!
