use vstd::prelude::*;
use vstd::string::StringExecFns;

use crate::cache::Cache;
use crate::report::ReportBody;
use crate::report::ReportType;

verus! {

/// The deduplication key of a submission: the extension version and the
/// message joined by " - ". Used only for automatic submissions.
pub open spec fn dedup_key_spec(ext_version: Seq<char>, message: Seq<char>) -> Seq<char> {
    ext_version + " - "@ + message
}

/// The key under which a submission is deduplicated.
pub open spec fn submission_key(body: ReportBody) -> Seq<char> {
    dedup_key_spec(body.ext_version@, body.message@)
}

/// Whether a submission triggers an outbound dispatch, given the set of keys
/// seen so far: manual submissions always dispatch; an automatic one
/// dispatches exactly when its key has not been seen.
pub open spec fn dispatches(seen: Set<Seq<char>>, body: ReportBody) -> bool {
    body.report_type is Manual || !seen.contains(submission_key(body))
}

/// The set of seen keys after a submission is processed: an automatic
/// submission records its key; a manual one leaves the cache untouched.
pub open spec fn seen_after(seen: Set<Seq<char>>, body: ReportBody) -> Set<Seq<char>> {
    if body.report_type is Automatic {
        seen.insert(submission_key(body))
    } else {
        seen
    }
}

/// Builds the deduplication key for an automatic submission.
pub fn dedup_key(ext_version: &str, message: &str) -> (key: String)
    ensures
        key@ == dedup_key_spec(ext_version@, message@),
{
    let mut key = ext_version.to_owned();
    key.append(" - ");
    key.append(message);
    proof {
        assert(key@ =~= dedup_key_spec(ext_version@, message@));
    }
    key
}

/// The dedup-and-decide step of the dispatcher. The caller must run it under
/// exclusive access to the cache, so that the check and the insert form one
/// indivisible unit; the access must be released again before any outbound
/// send, so the sink's latency never serializes unrelated submissions.
///
/// Returns whether the submission must be dispatched, recording the key of a
/// previously unseen automatic submission. Note the key is recorded before
/// any send is attempted and is never rolled back: a failed send still
/// suppresses later identical automatic submissions.
pub fn should_dispatch(cache: &mut Cache, body: &ReportBody) -> (dispatch: bool)
    ensures
        dispatch == dispatches(old(cache)@, *body),
        final(cache)@ == seen_after(old(cache)@, *body),
{
    match body.report_type {
        ReportType::Manual => true,
        ReportType::Automatic => {
            let key = dedup_key(body.ext_version.as_str(), body.message.as_str());
            if cache.contains(key.as_str()) {
                proof {
                    assert(cache@ =~= seen_after(old(cache)@, *body));
                }
                false
            } else {
                cache.insert(key, true);
                true
            }
        },
    }
}

/// What the external notification sink reported for one send attempt.
#[derive(Clone, Copy, PartialEq, Eq, Structural, Debug)]
pub enum SinkOutcome {
    Delivered,
    Failed,
}

/// The dispatcher's failure taxonomy: the only runtime failure it surfaces is
/// an unsuccessful sink call. It is reported once, synchronously; no retry.
#[derive(Clone, Copy, PartialEq, Eq, Structural, Debug)]
pub enum HandleError {
    NotificationFailed,
}

/// Translates the end of one handling pass into the caller-visible result.
/// `outcome` is `None` when no send was attempted (a suppressed duplicate),
/// `Some` with the sink's report otherwise. Only a failed sink call yields an
/// error; a suppressed duplicate is acknowledged as success.
pub fn respond(outcome: Option<SinkOutcome>) -> (r: Result<String, HandleError>)
    ensures
        outcome matches Some(SinkOutcome::Failed) ==> (r matches Err(e) && e
            == HandleError::NotificationFailed),
        !(outcome matches Some(SinkOutcome::Failed)) ==> (r matches Ok(ack) && ack@ == "OK"@),
{
    match outcome {
        Some(SinkOutcome::Failed) => Err(HandleError::NotificationFailed),
        _ => Ok("OK".to_owned()),
    }
}

/// Dedup idempotence: an automatic submission whose key is unseen dispatches,
/// and once it has been processed, an identical submission never dispatches
/// again — so any number of sequential repeats yields exactly one dispatch.
pub proof fn lemma_dedup_idempotent(seen: Set<Seq<char>>, body: ReportBody)
    requires
        body.report_type is Automatic,
    ensures
        !seen.contains(submission_key(body)) ==> dispatches(seen, body),
        !dispatches(seen_after(seen, body), body),
{
}

/// Manual always-dispatch: a manual submission dispatches on every call and
/// never consults or mutates the cache, however often it is repeated.
pub proof fn lemma_manual_always_dispatches(seen: Set<Seq<char>>, body: ReportBody)
    requires
        body.report_type is Manual,
    ensures
        dispatches(seen, body),
        seen_after(seen, body) == seen,
{
}

/// Key distinctness: two automatic submissions with the same message but
/// different extension versions have different keys, so processing one leaves
/// the other's dispatch decision untouched — each dispatches independently.
pub proof fn lemma_key_distinctness(seen: Set<Seq<char>>, a: ReportBody, b: ReportBody)
    requires
        a.report_type is Automatic,
        b.report_type is Automatic,
        a.message@ == b.message@,
        a.ext_version@ != b.ext_version@,
    ensures
        submission_key(a) != submission_key(b),
        dispatches(seen_after(seen, a), b) == dispatches(seen, b),
{
    if submission_key(a) == submission_key(b) {
        let ea = a.ext_version@;
        let eb = b.ext_version@;
        assert(submission_key(a).len() == ea.len() + " - "@.len() + a.message@.len());
        assert(submission_key(b).len() == eb.len() + " - "@.len() + b.message@.len());
        assert(ea.len() == eb.len());
        assert forall|i: int| 0 <= i < ea.len() implies ea[i] == eb[i] by {
            assert(submission_key(a)[i] == ea[i]);
            assert(submission_key(b)[i] == eb[i]);
        }
        assert(ea =~= eb);
    }
}

/// The set of seen keys after a whole run of submissions is processed in order.
pub open spec fn seen_after_all(seen: Set<Seq<char>>, subs: Seq<ReportBody>) -> Set<Seq<char>>
    decreases subs.len(),
{
    if subs.len() == 0 {
        seen
    } else {
        seen_after_all(seen_after(seen, subs[0]), subs.drop_first())
    }
}

/// How many submissions of a run dispatch when processed in order.
pub open spec fn dispatch_count(seen: Set<Seq<char>>, subs: Seq<ReportBody>) -> nat
    decreases subs.len(),
{
    if subs.len() == 0 {
        0
    } else {
        (if dispatches(seen, subs[0]) {
            1nat
        } else {
            0nat
        }) + dispatch_count(seen_after(seen, subs[0]), subs.drop_first())
    }
}

/// Once a key is recorded, no run of automatic submissions carrying that key
/// ever dispatches again, in whatever order the cache serializes them.
pub proof fn lemma_seen_key_never_dispatches(
    seen: Set<Seq<char>>,
    subs: Seq<ReportBody>,
    key: Seq<char>,
)
    requires
        seen.contains(key),
        forall|i: int|
            0 <= i < subs.len() ==> (#[trigger] subs[i]).report_type is Automatic
                && submission_key(subs[i]) == key,
    ensures
        dispatch_count(seen, subs) == 0,
        seen_after_all(seen, subs) == seen,
    decreases subs.len(),
{
    if subs.len() > 0 {
        assert(seen_after(seen, subs[0]) =~= seen);
        assert forall|i: int|
            0 <= i < subs.drop_first().len() implies (#[trigger] subs.drop_first()[i]).report_type
            is Automatic && submission_key(subs.drop_first()[i]) == key by {
            assert(subs.drop_first()[i] == subs[i + 1]);
        }
        lemma_seen_key_never_dispatches(seen_after(seen, subs[0]), subs.drop_first(), key);
    }
}

/// Concurrency safety under the cache's serialization: any nonempty run of
/// automatic submissions sharing one previously unseen key dispatches exactly
/// once, for any number of submissions and any order in which the cache's
/// exclusive access serializes their check-and-insert steps.
pub proof fn lemma_exactly_once(seen: Set<Seq<char>>, subs: Seq<ReportBody>, key: Seq<char>)
    requires
        subs.len() >= 1,
        forall|i: int|
            0 <= i < subs.len() ==> (#[trigger] subs[i]).report_type is Automatic
                && submission_key(subs[i]) == key,
        !seen.contains(key),
    ensures
        dispatch_count(seen, subs) == 1,
{
    assert(dispatches(seen, subs[0]));
    let seen1 = seen_after(seen, subs[0]);
    assert(seen1.contains(key));
    assert forall|i: int|
        0 <= i < subs.drop_first().len() implies (#[trigger] subs.drop_first()[i]).report_type
        is Automatic && submission_key(subs.drop_first()[i]) == key by {
        assert(subs.drop_first()[i] == subs[i + 1]);
    }
    lemma_seen_key_never_dispatches(seen1, subs.drop_first(), key);
}

} // verus!
