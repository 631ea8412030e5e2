//! The upload pipeline: resolve the group-targeting intent, build the
//! multipart form, and drive the bounded retry policy around the
//! submission.
//!
//! The form is a pure function of the upload request and the resolved
//! group id, so it can be — and must be — rebuilt identically for every
//! attempt: the transport body is consumed on send. Submission itself
//! happens outside; the policy here consumes the observed outcome of
//! each attempt and decides what follows.

use vstd::prelude::*;

use crate::errors::ApiError;
use crate::models::{GroupInfo, PhotoMetadata, UploadResponse, UploadedFileInfo};

verus! {

/// The multipart form of one upload, field for field: the fixed
/// `network` field, the file part with its name, the display name,
/// the optional target group, and the flattened metadata blob.
#[derive(Debug, Clone, PartialEq, Eq)]
pub struct UploadForm {
    pub network: String,
    pub file_data: Vec<u8>,
    pub file_name: String,
    pub name: String,
    pub group_id: Option<String>,
    pub keyvalues_json: String,
}

/// Appends the pair only when the value is non-empty: empty metadata
/// fields are omitted, not sent as empty values.
pub open spec fn spec_push_if(
    acc: Seq<(Seq<char>, Seq<char>)>,
    key: Seq<char>,
    val: Seq<char>,
) -> Seq<(Seq<char>, Seq<char>)> {
    if val.len() > 0 {
        acc.push((key, val))
    } else {
        acc
    }
}

/// The flattened metadata blob: the always-present category, then every
/// non-empty optional field, in a fixed order.
pub open spec fn spec_keyvalue_pairs(m: PhotoMetadata) -> Seq<(Seq<char>, Seq<char>)> {
    spec_push_if(
        spec_push_if(
            spec_push_if(
                spec_push_if(
                    spec_push_if(
                        spec_push_if(
                            seq![("category"@, m.category@)],
                            "description"@,
                            m.description@,
                        ),
                        "camera"@,
                        m.camera@,
                    ),
                    "lens"@,
                    m.lens@,
                ),
                "iso"@,
                m.iso@,
            ),
            "aperture"@,
            m.aperture@,
        ),
        "shutterSpeed"@,
        m.shutter_speed@,
    )
}

fn push_if(out: &mut Vec<(String, String)>, key: &str, val: &String)
    ensures
        final(out).deep_view() == spec_push_if(old(out).deep_view(), key@, val@),
{
    if !val.as_str().is_empty() {
        let ghost prev = out.deep_view();
        out.push((key.to_owned(), val.clone()));
        proof {
            assert(out.deep_view() =~= prev.push((key@, val@)));
        }
    }
}

/// Builds the flattened metadata pairs of one photo.
pub fn build_keyvalue_pairs(m: &PhotoMetadata) -> (r: Vec<(String, String)>)
    ensures
        r.deep_view() == spec_keyvalue_pairs(*m),
{
    let mut out: Vec<(String, String)> = Vec::new();
    out.push((String::from_str("category"), m.category.clone()));
    proof {
        assert(out.deep_view() =~= seq![("category"@, m.category@)]);
    }
    push_if(&mut out, "description", &m.description);
    push_if(&mut out, "camera", &m.camera);
    push_if(&mut out, "lens", &m.lens);
    push_if(&mut out, "iso", &m.iso);
    push_if(&mut out, "aperture", &m.aperture);
    push_if(&mut out, "shutterSpeed", &m.shutter_speed);
    out
}

/// The JSON object text that encoding a list of string pairs produces:
/// a function of the pairs alone.
pub uninterp spec fn json_of_pairs(pairs: Seq<(Seq<char>, Seq<char>)>) -> Seq<char>;

/// Relies on serde_json::to_string over a serde_json::Map built from
/// the pairs: with string keys and string values serialization cannot
/// fail, and the text depends on the pairs alone (the map orders keys
/// deterministically and escaping is fixed).
#[verifier::external_body]
fn encode_keyvalues(pairs: &Vec<(String, String)>) -> (r: String)
    ensures
        r@ == json_of_pairs(pairs.deep_view()),
{
    let mut map = serde_json::Map::new();
    for (k, v) in pairs.iter() {
        map.insert(k.clone(), serde_json::Value::String(v.clone()));
    }
    match serde_json::to_string(&map) {
        Ok(s) => s,
        Err(_) => String::new(),
    }
}

/// Builds the multipart form for one attempt, fresh: every field is a
/// function of the request and the resolved group id alone.
pub fn build_form(
    file_data: &Vec<u8>,
    filename: &String,
    metadata: &PhotoMetadata,
    group_id: &Option<String>,
) -> (f: UploadForm)
    ensures
        f.network@ == "public"@,
        f.file_data@ == file_data@,
        f.file_name@ == filename@,
        f.name@ == metadata.title@,
        f.group_id == *group_id,
        f.keyvalues_json@ == json_of_pairs(spec_keyvalue_pairs(*metadata)),
{
    let pairs = build_keyvalue_pairs(metadata);
    let keyvalues_json = encode_keyvalues(&pairs);
    let data = file_data.clone();
    proof {
        assert(data@ =~= file_data@);
    }
    UploadForm {
        network: String::from_str("public"),
        file_data: data,
        file_name: filename.clone(),
        name: metadata.title.clone(),
        group_id: group_id.clone(),
        keyvalues_json,
    }
}

/// Builds the form for one attempt straight from an upload payload.
pub fn build_form_for(upload: &crate::models::PhotoUpload, group_id: &Option<String>) -> (f:
    UploadForm)
    ensures
        f.network@ == "public"@,
        f.file_data@ == upload.file@,
        f.file_name@ == upload.filename@,
        f.name@ == upload.metadata.title@,
        f.group_id == *group_id,
        f.keyvalues_json@ == json_of_pairs(spec_keyvalue_pairs(upload.metadata)),
{
    build_form(&upload.file, &upload.filename, &upload.metadata, group_id)
}

/// Law: form construction is idempotent. Two forms built from the same
/// request and the same resolved group id agree field for field; only
/// transport boundary markers, which live outside the form, can differ.
pub proof fn lemma_form_build_idempotent(
    file_data: Seq<u8>,
    filename: Seq<char>,
    metadata: PhotoMetadata,
    group_id: Option<String>,
    f1: UploadForm,
    f2: UploadForm,
)
    requires
        f1.network@ == "public"@ && f2.network@ == "public"@,
        f1.file_data@ == file_data && f2.file_data@ == file_data,
        f1.file_name@ == filename && f2.file_name@ == filename,
        f1.name@ == metadata.title@ && f2.name@ == metadata.title@,
        f1.group_id == group_id && f2.group_id == group_id,
        f1.keyvalues_json@ == json_of_pairs(spec_keyvalue_pairs(metadata)),
        f2.keyvalues_json@ == json_of_pairs(spec_keyvalue_pairs(metadata)),
    ensures
        f1.network@ == f2.network@,
        f1.file_data@ == f2.file_data@,
        f1.file_name@ == f2.file_name@,
        f1.name@ == f2.name@,
        f1.group_id == f2.group_id,
        f1.keyvalues_json@ == f2.keyvalues_json@,
{
}

/// How the upload's group-targeting intent resolves: either a group
/// must first be created upstream, or the id (possibly none) is already
/// settled.
#[derive(Debug, Clone, PartialEq, Eq)]
pub enum GroupPlan {
    /// Create a group of this name first; a failure of that call is
    /// terminal for the upload, never retried.
    CreateGroup(String),
    /// Upload into this group, or into none.
    Resolved(Option<String>),
}

/// Resolves the group-targeting intent: creating a new group demands a
/// name; otherwise the given id (or none) stands as it is.
pub fn plan_group_resolution(info: &GroupInfo) -> (r: Result<GroupPlan, ApiError>)
    ensures
        info.create_new_group && info.group_name is Some ==> r == Ok::<GroupPlan, ApiError>(
            GroupPlan::CreateGroup(info.group_name->0),
        ),
        info.create_new_group && info.group_name is None ==> (r matches Err(e) && e matches
            ApiError::Api(msg) && msg@ == "Group name is needed for new group creations"@),
        !info.create_new_group ==> r == Ok::<GroupPlan, ApiError>(
            GroupPlan::Resolved(info.group_id),
        ),
{
    if info.create_new_group {
        match &info.group_name {
            Some(name) => Ok(GroupPlan::CreateGroup(name.clone())),
            None => Err(
                ApiError::Api("Group name is needed for new group creations".to_owned()),
            ),
        }
    } else {
        Ok(GroupPlan::Resolved(info.group_id.clone()))
    }
}

/// Total attempts the submission policy allows.
pub open spec fn spec_max_attempts() -> nat {
    3
}

/// The backoff delay, in milliseconds, slept after failed attempt
/// `attempt` (counted from one): 2s, 4s, 8s.
pub open spec fn spec_backoff_ms(attempt: nat) -> nat {
    if attempt <= 1 {
        2000
    } else if attempt == 2 {
        4000
    } else {
        8000
    }
}

/// What follows one submission attempt.
#[derive(Debug, Clone, PartialEq, Eq)]
pub enum RetryDecision {
    /// The upload was accepted; hand the record to the caller.
    Succeed(UploadedFileInfo),
    /// A terminal failure: report it at once, with no delay.
    FailNow(ApiError),
    /// A transient failure with budget left: sleep, rebuild the form,
    /// and submit again.
    SleepThenRetry { delay_ms: u64 },
    /// A transient failure that exhausted the budget: sleep once more,
    /// then report the last error; no further attempt follows.
    SleepThenFail { delay_ms: u64, error: ApiError },
}

/// The decision after one attempt, given how many transient failures
/// came before it.
pub open spec fn spec_submit_step(retries: u32, outcome: Result<UploadedFileInfo, ApiError>) -> (
    u32,
    RetryDecision,
) {
    match outcome {
        Ok(info) => (retries, RetryDecision::Succeed(info)),
        Err(e) => if !e.spec_retryable() {
            (retries, RetryDecision::FailNow(e))
        } else if retries + 1 < spec_max_attempts() {
            (
                (retries + 1) as u32,
                RetryDecision::SleepThenRetry {
                    delay_ms: spec_backoff_ms((retries + 1) as nat) as u64,
                },
            )
        } else {
            (
                (retries + 1) as u32,
                RetryDecision::SleepThenFail {
                    delay_ms: spec_backoff_ms((retries + 1) as nat) as u64,
                    error: e,
                },
            )
        },
    }
}

/// Decides what follows one submission attempt. Success ends the run;
/// a terminal failure ends it at once; a transient failure books the
/// next backoff delay and, within the budget of three attempts, another
/// submission.
pub fn upload_submit_step(retries: u32, outcome: Result<UploadedFileInfo, ApiError>) -> (r: (
    u32,
    RetryDecision,
))
    requires
        retries < spec_max_attempts(),
    ensures
        r == spec_submit_step(retries, outcome),
        r.0 <= spec_max_attempts(),
{
    match outcome {
        Ok(info) => (retries, RetryDecision::Succeed(info)),
        Err(e) => {
            if !e.is_retryable() {
                (retries, RetryDecision::FailNow(e))
            } else {
                let next = retries + 1;
                let delay_ms: u64 = if next <= 1 {
                    2000
                } else if next == 2 {
                    4000
                } else {
                    8000
                };
                if next < 3 {
                    (next, RetryDecision::SleepThenRetry { delay_ms })
                } else {
                    (next, RetryDecision::SleepThenFail { delay_ms, error: e })
                }
            }
        },
    }
}

/// The policy over a whole run, given the outcome each attempt would
/// observe: the final result, the backoff delays slept in order, and
/// how many attempts were made.
pub open spec fn spec_run_rec(
    outcomes: Seq<Result<UploadedFileInfo, ApiError>>,
    retries: nat,
) -> (Result<UploadedFileInfo, ApiError>, Seq<u64>, nat)
    decreases spec_max_attempts() - retries,
{
    if outcomes.len() == 0 || retries >= spec_max_attempts() {
        (arbitrary(), Seq::empty(), 0nat)
    } else {
        match outcomes[0] {
            Ok(info) => (Ok(info), Seq::empty(), 1nat),
            Err(e) => if !e.spec_retryable() {
                (Err(e), Seq::empty(), 1nat)
            } else {
                let d = spec_backoff_ms(retries + 1) as u64;
                if retries + 1 < spec_max_attempts() {
                    let rest = spec_run_rec(outcomes.drop_first(), retries + 1);
                    (rest.0, seq![d] + rest.1, rest.2 + 1)
                } else {
                    (Err(e), seq![d], 1nat)
                }
            },
        }
    }
}

/// The policy over a whole run starting fresh.
pub open spec fn spec_run(outcomes: Seq<Result<UploadedFileInfo, ApiError>>) -> (
    Result<UploadedFileInfo, ApiError>,
    Seq<u64>,
    nat,
) {
    spec_run_rec(outcomes, 0)
}

/// One whole run of the submission policy: its final result, the
/// backoff delays slept in order, and the attempts made.
#[derive(Debug, PartialEq, Eq)]
pub struct UploadRun {
    pub result: Result<UploadedFileInfo, ApiError>,
    pub delays_ms: Vec<u64>,
    pub attempts: usize,
}

/// Runs the submission policy over the outcome each attempt would
/// observe (three candidate outcomes, one per allowed attempt; later
/// ones are ignored once the run ends). The run ends exactly once.
#[verifier::loop_isolation(false)]
pub fn run_upload_attempts(outcomes: Vec<Result<UploadedFileInfo, ApiError>>) -> (r: UploadRun)
    requires
        outcomes@.len() == spec_max_attempts(),
    ensures
        r.result == spec_run(outcomes@).0,
        r.delays_ms@ == spec_run(outcomes@).1,
        r.attempts as nat == spec_run(outcomes@).2,
{
    let ghost orig = outcomes@;
    let mut outcomes = outcomes;
    let mut retries: u32 = 0;
    let mut delays: Vec<u64> = Vec::new();
    let mut attempts: usize = 0;
    proof {
        assert(Seq::<u64>::empty() + spec_run_rec(orig, 0).1 =~= spec_run_rec(orig, 0).1);
    }
    loop
        invariant
            retries < 3,
            outcomes@.len() == 3 - retries,
            attempts == retries,
            spec_run(orig).0 == spec_run_rec(outcomes@, retries as nat).0,
            spec_run(orig).1 == delays@ + spec_run_rec(outcomes@, retries as nat).1,
            spec_run(orig).2 == retries + spec_run_rec(outcomes@, retries as nat).2,
        decreases 3 - retries,
    {
        let ghost before = outcomes@;
        let outcome = outcomes.remove(0);
        proof {
            assert(outcomes@ =~= before.drop_first());
        }
        attempts = attempts + 1;
        let (next, decision) = upload_submit_step(retries, outcome);
        retries = next;
        match decision {
            RetryDecision::Succeed(info) => {
                return UploadRun { result: Ok(info), delays_ms: delays, attempts };
            },
            RetryDecision::FailNow(error) => {
                return UploadRun { result: Err(error), delays_ms: delays, attempts };
            },
            RetryDecision::SleepThenRetry { delay_ms } => {
                let ghost prev = delays@;
                delays.push(delay_ms);
                proof {
                    assert(prev + (seq![delay_ms] + spec_run_rec(outcomes@, retries as nat).1)
                        =~= delays@ + spec_run_rec(outcomes@, retries as nat).1);
                }
            },
            RetryDecision::SleepThenFail { delay_ms, error } => {
                let ghost prev = delays@;
                delays.push(delay_ms);
                proof {
                    assert(prev + seq![delay_ms] =~= delays@);
                    assert(delays@ + Seq::<u64>::empty() =~= delays@);
                }
                return UploadRun { result: Err(error), delays_ms: delays, attempts };
            },
        }
    }
}

/// Law: three consecutive transient failures end the run after backoff
/// delays of exactly 2s, 4s and 8s, in that order, with the last error
/// as the terminal failure and no fourth attempt.
pub proof fn lemma_retry_three_transient_failures(
    outcomes: Seq<Result<UploadedFileInfo, ApiError>>,
)
    requires
        outcomes.len() == spec_max_attempts(),
        forall|i: int|
            0 <= i < outcomes.len() ==> outcomes[i] is Err && (#[trigger] outcomes[i])->Err_0.spec_retryable(),
    ensures
        spec_run(outcomes).0 == Err::<UploadedFileInfo, ApiError>(outcomes[2]->Err_0),
        spec_run(outcomes).1 == seq![2000u64, 4000u64, 8000u64],
        spec_run(outcomes).2 == spec_max_attempts(),
{
    let o1 = outcomes.drop_first();
    let o2 = o1.drop_first();
    assert(outcomes[0] is Err && outcomes[0]->Err_0.spec_retryable());
    assert(outcomes[1] is Err && outcomes[1]->Err_0.spec_retryable());
    assert(outcomes[2] is Err && outcomes[2]->Err_0.spec_retryable());
    assert(o1[0] == outcomes[1]);
    assert(o2[0] == outcomes[2]);
    assert(spec_run_rec(o2, 2) == (
        Err::<UploadedFileInfo, ApiError>(outcomes[2]->Err_0),
        seq![8000u64],
        1nat,
    ));
    assert(spec_run_rec(o1, 1).0 == Err::<UploadedFileInfo, ApiError>(outcomes[2]->Err_0));
    assert(spec_run_rec(o1, 1).1 =~= seq![4000u64, 8000u64]);
    assert(spec_run(outcomes).1 =~= seq![2000u64, 4000u64, 8000u64]);
}

/// Law: a single non-transient failure is terminal at once — one
/// attempt, no delay, the error reported unchanged.
pub proof fn lemma_retry_terminal_failure(outcomes: Seq<Result<UploadedFileInfo, ApiError>>)
    requires
        outcomes.len() == spec_max_attempts(),
        outcomes[0] is Err,
        !outcomes[0]->Err_0.spec_retryable(),
    ensures
        spec_run(outcomes).0 == Err::<UploadedFileInfo, ApiError>(outcomes[0]->Err_0),
        spec_run(outcomes).1 == Seq::<u64>::empty(),
        spec_run(outcomes).2 == 1,
{
}

/// The first group id reported among the accepted uploads, if any.
pub open spec fn spec_first_group_id(files: Seq<UploadedFileInfo>) -> Option<String>
    decreases files.len(),
{
    if files.len() == 0 {
        None
    } else if files[0].group_id is Some {
        files[0].group_id
    } else {
        spec_first_group_id(files.drop_first())
    }
}

/// Assembles the caller-visible upload response. When a new group was
/// requested, the reported group id is the first one the upstream
/// attached to an accepted upload; otherwise it is the id the caller
/// supplied.
pub fn build_upload_response(
    create_new_group: bool,
    group_id: Option<String>,
    files: Vec<UploadedFileInfo>,
) -> (r: UploadResponse)
    ensures
        r.success,
        r.files == files,
        r.message is None,
        create_new_group ==> r.group_id == spec_first_group_id(files@),
        !create_new_group ==> r.group_id == group_id,
{
    let response_group_id = if create_new_group {
        let mut found: Option<String> = None;
        let mut i: usize = 0;
        proof {
            assert(files@.skip(0) =~= files@);
        }
        while i < files.len() && found.is_none()
            invariant
                i <= files@.len(),
                found is None ==> spec_first_group_id(files@) == spec_first_group_id(
                    files@.skip(i as int),
                ),
                found is Some ==> found == spec_first_group_id(files@),
            decreases files@.len() - i,
        {
            proof {
                assert(files@.skip(i as int)[0] == files@[i as int]);
                assert(files@.skip(i as int).drop_first() =~= files@.skip(i as int + 1));
            }
            if files[i].group_id.is_some() {
                found = files[i].group_id.clone();
            }
            i = i + 1;
        }
        proof {
            if found is None {
                assert(files@.skip(files@.len() as int) =~= Seq::<UploadedFileInfo>::empty());
            }
        }
        found
    } else {
        group_id
    };
    UploadResponse { success: true, files, group_id: response_group_id, message: None }
}

} // verus!
