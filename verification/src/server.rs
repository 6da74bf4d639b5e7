//! The state-access contract, the HTTP-level decision logic for the three
//! CRUD endpoints, and the laws relating saves, deletes and reads.

use vstd::prelude::*;
use vstd::string::StrSliceExecFns;
use vstd::string::StringSliceAdditionalSpecFns;

verus! {

/// Failure of the underlying storage medium: a poisoned lock, a lost
/// connection, a failed remote call. Carries a description of the cause
/// for diagnosis; the cause is never shown to HTTP clients.
pub struct BackendError {
    pub cause: String,
}

/// Outcome of one request against the state endpoints: a status code and
/// the raw response body.
pub struct HttpResponse {
    pub status: u16,
    pub body: Vec<u8>,
}

/// What a read observes in a key-value mapping: the current value, or
/// absence. Absence is a normal outcome, never an error.
pub open spec fn lookup(m: Map<Seq<char>, Seq<u8>>, k: Seq<char>) -> Option<Seq<u8>> {
    if m.contains_key(k) {
        Some(m[k])
    } else {
        None
    }
}

/// The contract every state backend satisfies. A backend holds a mapping
/// from keys to byte values (`model`); `get_state` reads it, `save_state`
/// upserts, `delete_state` removes if present. The `store` parameter names
/// the logical namespace; the service operates against a single store, so
/// backends need not partition by it.
///
/// A backend whose `reliable()` holds can never fail: its operations are
/// owed an `Ok`. The in-memory backend is reliable; a remote backend is
/// not, since the connection or the remote side may fail at any call.
pub trait StateClient: Sized {
    /// The key-value mapping currently held by this backend.
    spec fn model(&self) -> Map<Seq<char>, Seq<u8>>;

    /// Whether this backend's operations are guaranteed to succeed.
    spec fn reliable(&self) -> bool;

    /// Returns the value stored under `key`, or `None` if absent.
    fn get_state(&self, store: &str, key: &str) -> (r: Result<Option<Vec<u8>>, BackendError>)
        ensures
            (match r {
                Ok(Some(v)) => lookup(self.model(), key@) == Some(v@),
                Ok(None) => lookup(self.model(), key@) is None,
                Err(_) => true,
            }),
            self.reliable() ==> r is Ok,
    ;

    /// Upserts `value` under `key`. An empty value is a legal byte
    /// sequence to store, distinct from absence.
    fn save_state(&mut self, store: &str, key: &str, value: Vec<u8>) -> (r: Result<
        (),
        BackendError,
    >)
        ensures
            r is Ok ==> final(self).model() == old(self).model().insert(key@, value@),
            old(self).reliable() ==> r is Ok && final(self).reliable(),
    ;

    /// Removes the entry under `key` if present; succeeds silently when
    /// the key is absent.
    fn delete_state(&mut self, store: &str, key: &str) -> (r: Result<(), BackendError>)
        ensures
            r is Ok ==> final(self).model() == old(self).model().remove(key@),
            old(self).reliable() ==> r is Ok && final(self).reliable(),
    ;
}

/// Shared state of the HTTP surface: the backend committed at startup and
/// the configured store name. The backend is chosen once and never
/// replaced for the process lifetime.
pub struct AppState<C: StateClient> {
    pub state_client: C,
    pub store_name: String,
}

/// How the remote backend reads a "get state" reply: the sidecar answers
/// with a bare payload, and an empty payload means the key is absent,
/// while any non-empty payload is the stored value itself.
pub fn interpret_state_payload(data: Vec<u8>) -> (r: Option<Vec<u8>>)
    ensures
        data@.len() == 0 ==> r is None,
        data@.len() > 0 ==> (r matches Some(v) && v@ == data@),
{
    if data.is_empty() {
        None
    } else {
        Some(data)
    }
}

/// Whether a request key is acceptable: only the empty key is rejected,
/// as a validation error, before any backend is touched.
pub fn validate_key(key: &str) -> (ok: bool)
    ensures
        ok == (key@.len() > 0),
{
    !key.is_empty()
}

/// The response to a request whose key failed validation: 400 with a
/// plain "missing key" body.
pub fn reject_empty_key() -> (r: HttpResponse)
    ensures
        r.status == 400,
        r.body@ == "missing key".spec_bytes(),
{
    HttpResponse { status: 400, body: "missing key".as_bytes_vec() }
}

/// Maps the backend outcome of a read to its response: 200 carrying the
/// stored bytes, 404 when the key is absent, 500 on backend failure. The
/// backend's cause is not leaked to the client.
pub fn get_response(outcome: Result<Option<Vec<u8>>, BackendError>) -> (r: HttpResponse)
    ensures
        (match outcome {
            Ok(Some(v)) => r.status == 200 && r.body@ == v@,
            Ok(None) => r.status == 404 && r.body@ == "not found".spec_bytes(),
            Err(_) => r.status == 500 && r.body@ == "internal error".spec_bytes(),
        }),
{
    match outcome {
        Ok(Some(value)) => HttpResponse { status: 200, body: value },
        Ok(None) => HttpResponse { status: 404, body: "not found".as_bytes_vec() },
        Err(_) => HttpResponse { status: 500, body: "internal error".as_bytes_vec() },
    }
}

/// Maps the backend outcome of an upsert to its response: 204 on success,
/// 500 on backend failure.
pub fn save_response(outcome: Result<(), BackendError>) -> (r: HttpResponse)
    ensures
        (match outcome {
            Ok(()) => r.status == 204 && r.body@ == Seq::<u8>::empty(),
            Err(_) => r.status == 500 && r.body@ == "internal error".spec_bytes(),
        }),
{
    match outcome {
        Ok(()) => HttpResponse { status: 204, body: Vec::new() },
        Err(_) => HttpResponse { status: 500, body: "internal error".as_bytes_vec() },
    }
}

/// Maps the backend outcome of a removal to its response: 204 on success,
/// whether or not the key existed, 500 on backend failure.
pub fn delete_response(outcome: Result<(), BackendError>) -> (r: HttpResponse)
    ensures
        (match outcome {
            Ok(()) => r.status == 204 && r.body@ == Seq::<u8>::empty(),
            Err(_) => r.status == 500 && r.body@ == "internal error".spec_bytes(),
        }),
{
    match outcome {
        Ok(()) => HttpResponse { status: 204, body: Vec::new() },
        Err(_) => HttpResponse { status: 500, body: "internal error".as_bytes_vec() },
    }
}

/// Decision logic of the GET endpoint: an empty key is rejected with 400
/// before the backend is touched; otherwise the read maps to 200 with the
/// stored bytes, to 404 when the key is absent, and to 500 on backend
/// failure. A reliable backend never yields 500.
pub fn get_state<C: StateClient>(app: &AppState<C>, key: &str) -> (r: HttpResponse)
    ensures
        key@.len() == 0 ==> r.status == 400 && r.body@ == "missing key".spec_bytes(),
        key@.len() > 0 ==> r.status == 200 || r.status == 404 || r.status == 500,
        r.status == 200 ==> lookup(app.state_client.model(), key@) == Some(r.body@),
        r.status == 404 ==> lookup(app.state_client.model(), key@) is None && r.body@
            == "not found".spec_bytes(),
        r.status == 500 ==> r.body@ == "internal error".spec_bytes(),
        key@.len() > 0 && app.state_client.reliable() ==> r.status != 500,
{
    if !validate_key(key) {
        return reject_empty_key();
    }
    get_response(app.state_client.get_state(app.store_name.as_str(), key))
}

/// Decision logic of the POST endpoint: an empty key is rejected with 400
/// before the backend is touched and leaves the store unchanged;
/// otherwise the upsert maps to 204, or to 500 on backend failure. A
/// reliable backend never yields 500 and stays reliable.
pub fn save_state<C: StateClient>(app: &mut AppState<C>, key: &str, body: Vec<u8>) -> (r:
    HttpResponse)
    ensures
        key@.len() == 0 ==> r.status == 400 && r.body@ == "missing key".spec_bytes()
            && *final(app) == *old(app),
        key@.len() > 0 ==> r.status == 204 || r.status == 500,
        r.status == 204 ==> final(app).state_client.model() == old(app).state_client.model().insert(
            key@,
            body@,
        ) && r.body@ == Seq::<u8>::empty(),
        r.status == 500 ==> r.body@ == "internal error".spec_bytes(),
        old(app).state_client.reliable() ==> r.status != 500
            && final(app).state_client.reliable(),
        final(app).store_name == old(app).store_name,
{
    if !validate_key(key) {
        return reject_empty_key();
    }
    let store = &app.store_name;
    save_response(app.state_client.save_state(store.as_str(), key, body))
}

/// Decision logic of the DELETE endpoint: an empty key is rejected with
/// 400 before the backend is touched and leaves the store unchanged;
/// otherwise the removal maps to 204, or to 500 on backend failure,
/// whether or not the key existed. A reliable backend never yields 500
/// and stays reliable.
pub fn delete_state<C: StateClient>(app: &mut AppState<C>, key: &str) -> (r: HttpResponse)
    ensures
        key@.len() == 0 ==> r.status == 400 && r.body@ == "missing key".spec_bytes()
            && *final(app) == *old(app),
        key@.len() > 0 ==> r.status == 204 || r.status == 500,
        r.status == 204 ==> final(app).state_client.model() == old(app).state_client.model().remove(
            key@,
        ) && r.body@ == Seq::<u8>::empty(),
        r.status == 500 ==> r.body@ == "internal error".spec_bytes(),
        old(app).state_client.reliable() ==> r.status != 500
            && final(app).state_client.reliable(),
        final(app).store_name == old(app).store_name,
{
    if !validate_key(key) {
        return reject_empty_key();
    }
    let store = &app.store_name;
    delete_response(app.state_client.delete_state(store.as_str(), key))
}

/// The liveness, readiness and health endpoints all answer 200 "ok".
pub fn health_response() -> (r: HttpResponse)
    ensures
        r.status == 200,
        r.body@ == "ok".spec_bytes(),
{
    HttpResponse { status: 200, body: "ok".as_bytes_vec() }
}

/// Law: a save followed by a get of the same key returns exactly the
/// saved value.
pub proof fn lemma_save_then_get(m: Map<Seq<char>, Seq<u8>>, k: Seq<char>, v: Seq<u8>)
    ensures
        lookup(m.insert(k, v), k) == Some(v),
{
}

/// Law: after a delete, whether or not the key existed, a get of the same
/// key returns absent.
pub proof fn lemma_delete_then_get(m: Map<Seq<char>, Seq<u8>>, k: Seq<char>)
    ensures
        lookup(m.remove(k), k) is None,
{
}

/// Law: delete is idempotent. Deleting a key twice in a row leaves the
/// same absent state as deleting it once; that neither delete fails on a
/// reliable backend is owed by the `delete_state` contract.
pub proof fn lemma_delete_idempotent(m: Map<Seq<char>, Seq<u8>>, k: Seq<char>)
    ensures
        m.remove(k).remove(k) == m.remove(k),
{
    assert(m.remove(k).remove(k) =~= m.remove(k));
}

/// Law: of two saves to the same key, the later wins wholly. A get then
/// observes exactly the later value: never a mixture, never absence,
/// never a third value.
pub proof fn lemma_last_save_wins(
    m: Map<Seq<char>, Seq<u8>>,
    k: Seq<char>,
    v1: Seq<u8>,
    v2: Seq<u8>,
)
    ensures
        m.insert(k, v1).insert(k, v2) == m.insert(k, v2),
        lookup(m.insert(k, v1).insert(k, v2), k) == Some(v2),
{
    assert(m.insert(k, v1).insert(k, v2) =~= m.insert(k, v2));
}

/// Law: a save to one key leaves what a get observes under every other
/// key unchanged, and so does a delete.
pub proof fn lemma_other_keys_untouched(
    m: Map<Seq<char>, Seq<u8>>,
    k: Seq<char>,
    k2: Seq<char>,
    v: Seq<u8>,
)
    requires
        k2 != k,
    ensures
        lookup(m.insert(k, v), k2) == lookup(m, k2),
        lookup(m.remove(k), k2) == lookup(m, k2),
{
}

} // verus!
