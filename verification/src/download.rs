//! The resumable download engine's decisions and bookkeeping.
//!
//! The host performs the requests, the file writes and the sleeps; this
//! module decides how each response is handled, keeps the progress counter,
//! builds every progress event, runs the retry budget, and aggregates a
//! batch's failures. Progress events for one file grow strictly with the
//! bytes written and end, on success, with exactly one `done` event.

use vstd::prelude::*;
use vstd::string::StringExecFns;
use crate::classify::is_auth_code;
use crate::classify::is_auth_code_exec;
use crate::classify::is_http_success;
use crate::text::contains_seq;
use crate::text::dec_of;
use crate::text::join_with;
use crate::text::joined;
use crate::text::lemma_contains_concat;
use crate::text::lemma_joined_contains;
use crate::text::u64_to_dec;

verus! {

/// The retry budget of one download item: the first attempt and the retries
/// together never exceed this count.
pub const MAX_DOWNLOAD_ATTEMPTS: u64 = 3;

/// One file to fetch: its remote path and the local path to stream it to.
#[derive(Debug, Clone)]
pub struct DownloadItem {
    pub file_path: String,
    pub save_path: String,
}

/// One progress event. `downloaded` is cumulative and counts any resumed
/// prefix; `total` is absent when the server reports no content length;
/// `error` is present exactly on `retrying` events.
#[derive(Debug, Clone)]
pub struct DownloadProgress {
    pub file_path: String,
    pub downloaded: u64,
    pub total: Option<u64>,
    pub status: String,
    pub error: Option<String>,
}

/// `ev` reports `downloaded` of `total` bytes of `fp`, still downloading.
pub open spec fn is_downloading_event(
    ev: DownloadProgress,
    fp: Seq<char>,
    downloaded: u64,
    total: Option<u64>,
) -> bool {
    &&& ev.file_path@ == fp
    &&& ev.downloaded == downloaded
    &&& ev.total == total
    &&& ev.status@ == "downloading"@
    &&& ev.error is None
}

/// `ev` reports the completion of `fp` at `downloaded` of `total` bytes.
pub open spec fn is_done_event(
    ev: DownloadProgress,
    fp: Seq<char>,
    downloaded: u64,
    total: Option<u64>,
) -> bool {
    &&& ev.file_path@ == fp
    &&& ev.downloaded == downloaded
    &&& ev.total == total
    &&& ev.status@ == "done"@
    &&& ev.error is None
}

/// `ev` reports that an attempt on `fp` failed with `err` and will be (or
/// was) retried.
pub open spec fn is_retrying_event(ev: DownloadProgress, fp: Seq<char>, err: Seq<char>) -> bool {
    &&& ev.file_path@ == fp
    &&& ev.downloaded == 0
    &&& ev.total is None
    &&& ev.status@ == "retrying"@
    &&& (ev.error matches Some(e) && e@ == err)
}

/// Builds a `retrying` event for `fp` carrying the failure message.
pub fn progress_retrying(file_path: &str, err: &str) -> (ev: DownloadProgress)
    ensures
        is_retrying_event(ev, file_path@, err@),
{
    DownloadProgress {
        file_path: String::from_str(file_path),
        downloaded: 0,
        total: None,
        status: String::from_str("retrying"),
        error: Some(String::from_str(err)),
    }
}

/// How the engine reacts to the status of a download response.
#[derive(Clone, Copy, Debug, PartialEq, Eq, Structural)]
pub enum ResponseDecision {
    /// Success or partial content: stream the body.
    Stream,
    /// Range not satisfiable on a resume: delete the local file and reissue
    /// the request from byte zero.
    RestartFromZero,
    /// A failure whose body must be read and classified before reporting.
    FailWithBody,
    /// A failure reported by status alone, without reading the body.
    FailPlain,
}

/// The engine's reaction to `status` when the request asked to resume from
/// `offset`. `after_restart` tells whether this response already is the
/// reissue that followed a range failure, which can no longer restart.
pub open spec fn response_decision(status: u16, offset: u64, after_restart: bool) -> ResponseDecision {
    if is_http_success(status) || status == 206 {
        ResponseDecision::Stream
    } else if after_restart {
        ResponseDecision::FailWithBody
    } else if status == 416 && offset > 0 {
        ResponseDecision::RestartFromZero
    } else if status == 416 {
        ResponseDecision::FailPlain
    } else {
        ResponseDecision::FailWithBody
    }
}

/// Decides how a download response's status is handled.
pub fn decide_download_response(status: u16, offset: u64, after_restart: bool) -> (r:
    ResponseDecision)
    ensures
        r == response_decision(status, offset, after_restart),
{
    if 200 <= status && status <= 299 {
        ResponseDecision::Stream
    } else if status == 206 {
        ResponseDecision::Stream
    } else if after_restart {
        ResponseDecision::FailWithBody
    } else if status == 416 && offset > 0 {
        ResponseDecision::RestartFromZero
    } else if status == 416 {
        ResponseDecision::FailPlain
    } else {
        ResponseDecision::FailWithBody
    }
}

/// The progress counter of one streaming download: where it started, how
/// many bytes stand in the local file, and the total the server advertised
/// (adjusted by the resumed prefix on a partial-content response).
pub struct StreamProgress {
    pub file_path: String,
    pub start: u64,
    pub downloaded: u64,
    pub total: Option<u64>,
}

impl StreamProgress {
    /// Opens the bookkeeping for one response body. A partial-content
    /// response to a resume keeps the local prefix: counting starts at
    /// `offset` and the advertised length is shifted by it. Any other
    /// response replaces the file: counting starts at zero.
    pub fn begin(file_path: &str, offset: u64, is_partial: bool, content_length: Option<u64>) -> (s:
        Self)
        requires
            offset > 0 && is_partial ==> (match content_length {
                Some(l) => l + offset <= u64::MAX,
                None => true,
            }),
        ensures
            s.file_path@ == file_path@,
            s.downloaded == s.start,
            offset > 0 && is_partial ==> s.start == offset && s.total == (match content_length {
                Some(l) => Some((l + offset) as u64),
                None => None::<u64>,
            }),
            !(offset > 0 && is_partial) ==> s.start == 0 && s.total == content_length,
    {
        if offset > 0 && is_partial {
            let total = match content_length {
                Some(l) => Some(l + offset),
                None => None,
            };
            StreamProgress {
                file_path: String::from_str(file_path),
                start: offset,
                downloaded: offset,
                total,
            }
        } else {
            StreamProgress {
                file_path: String::from_str(file_path),
                start: 0,
                downloaded: 0,
                total: content_length,
            }
        }
    }

    /// Whether the local file opens in append mode (a kept prefix) or is
    /// created afresh.
    pub fn append_mode(&self) -> (r: bool)
        ensures
            r == (self.start > 0),
    {
        self.start > 0
    }

    /// The counter after one chunk of `len` bytes.
    pub open spec fn after_chunk(self, len: u64) -> StreamProgress {
        StreamProgress { downloaded: (self.downloaded + len) as u64, ..self }
    }

    /// The counter after a whole sequence of chunks.
    pub open spec fn after_chunks(self, ls: Seq<u64>) -> StreamProgress
        decreases ls.len(),
    {
        if ls.len() == 0 {
            self
        } else {
            self.after_chunk(ls[0]).after_chunks(ls.drop_first())
        }
    }

    /// Advances the counter over one chunk written to disk and reports the
    /// new cumulative count.
    pub fn on_chunk(&mut self, len: u64) -> (ev: DownloadProgress)
        requires
            old(self).downloaded + len <= u64::MAX,
        ensures
            *final(self) == old(self).after_chunk(len),
            is_downloading_event(ev, old(self).file_path@, final(self).downloaded, old(self).total),
    {
        self.downloaded = self.downloaded + len;
        DownloadProgress {
            file_path: self.file_path.clone(),
            downloaded: self.downloaded,
            total: self.total,
            status: String::from_str("downloading"),
            error: None,
        }
    }

    /// The single `done` event that closes a successful stream.
    pub fn finish(&self) -> (ev: DownloadProgress)
        ensures
            is_done_event(ev, self.file_path@, self.downloaded, self.total),
    {
        DownloadProgress {
            file_path: self.file_path.clone(),
            downloaded: self.downloaded,
            total: self.total,
            status: String::from_str("done"),
            error: None,
        }
    }
}

/// The sum of a sequence of chunk lengths.
pub open spec fn sum_of(ls: Seq<u64>) -> int
    decreases ls.len(),
{
    if ls.len() == 0 {
        0
    } else {
        ls[0] + sum_of(ls.drop_first())
    }
}

proof fn lemma_sum_nonneg(ls: Seq<u64>)
    ensures
        sum_of(ls) >= 0,
    decreases ls.len(),
{
    if ls.len() > 0 {
        lemma_sum_nonneg(ls.drop_first());
    }
}

/// Chunks only ever advance the counter: after any sequence of chunks the
/// count is the start plus their total length, and the advertised total,
/// the origin and the path never change.
pub proof fn lemma_after_chunks(s: StreamProgress, ls: Seq<u64>)
    requires
        s.downloaded + sum_of(ls) <= u64::MAX,
    ensures
        s.after_chunks(ls).downloaded == s.downloaded + sum_of(ls),
        s.after_chunks(ls).total == s.total,
        s.after_chunks(ls).start == s.start,
        s.after_chunks(ls).file_path == s.file_path,
    decreases ls.len(),
{
    if ls.len() > 0 {
        lemma_sum_nonneg(ls.drop_first());
        lemma_after_chunks(s.after_chunk(ls[0]), ls.drop_first());
    }
}

/// A stream that delivers exactly the bytes its advertised total still owed
/// ends with `downloaded` equal to that total — for a resumed download
/// (counting starts at the kept prefix) just as for one restarted from zero.
pub proof fn lemma_stream_reaches_total(s: StreamProgress, ls: Seq<u64>, t: u64)
    requires
        s.total == Some(t),
        s.downloaded + sum_of(ls) == t,
    ensures
        s.after_chunks(ls).downloaded == t,
        s.after_chunks(ls).total == Some(t),
{
    lemma_after_chunks(s, ls);
}

/// The view of an attempt's outcome.
pub open spec fn result_view(result: Result<(), String>) -> Result<(), Seq<char>> {
    match result {
        Ok(_) => Ok(()),
        Err(e) => Err(e@),
    }
}

/// What the retry wrapper does after one attempt.
pub enum RetryDecision {
    /// The attempt succeeded; the item is finished.
    Done,
    /// An authentication sentinel: propagated at once, never retried.
    Propagate { message: String },
    /// A transient failure with budget left: emit the event, sleep, retry.
    RetryAfter { event: DownloadProgress, sleep_ms: u64 },
    /// A transient failure on the last attempt: emit the event and fail with
    /// the message annotated by the retry count.
    FailFinal { event: DownloadProgress, message: String },
}

/// The retry wrapper's step relation: what the decision after attempt
/// `attempt` (counting from 1) of at most `max_attempts` must be.
pub open spec fn retry_decision_ok(
    fp: Seq<char>,
    attempt: u64,
    max_attempts: u64,
    result: Result<(), Seq<char>>,
    r: RetryDecision,
) -> bool {
    match result {
        Ok(_) => r is Done,
        Err(e) => if is_auth_code(e) {
            r matches RetryDecision::Propagate { message } && message@ == e
        } else if attempt < max_attempts {
            r matches RetryDecision::RetryAfter { event, sleep_ms } && is_retrying_event(
                event,
                fp,
                e,
            ) && sleep_ms == 500 * attempt
        } else {
            r matches RetryDecision::FailFinal { event, message } && is_retrying_event(
                event,
                fp,
                e,
            ) && message@ == e + " (retried "@ + dec_of(max_attempts as nat) + " times)"@
        },
    }
}

/// Decides what follows one attempt: success ends the item; an
/// authentication sentinel is propagated untouched; a transient failure is
/// reported through a `retrying` event and retried after a linear backoff of
/// `500ms x attempt`, until the budget is spent.
pub fn retry_decide(file_path: &str, attempt: u64, max_attempts: u64, result: Result<(), String>)
    -> (r: RetryDecision)
    requires
        1 <= attempt <= max_attempts,
        500 * max_attempts <= u64::MAX,
    ensures
        retry_decision_ok(file_path@, attempt, max_attempts, result_view(result), r),
{
    match result {
        Ok(_) => RetryDecision::Done,
        Err(e) => {
            if is_auth_code_exec(e.as_str()) {
                RetryDecision::Propagate { message: e }
            } else {
                let event = progress_retrying(file_path, e.as_str());
                if attempt < max_attempts {
                    RetryDecision::RetryAfter { event, sleep_ms: 500 * attempt }
                } else {
                    let message = e.concat(" (retried ").concat(
                        u64_to_dec(max_attempts).as_str(),
                    ).concat(" times)");
                    assert(message@ =~= result_view(result)->Err_0 + " (retried "@ + dec_of(
                        max_attempts as nat,
                    ) + " times)"@);
                    RetryDecision::FailFinal { event, message }
                }
            }
        },
    }
}

/// The retry budget is hard: an authentication failure is never retried and
/// never sleeps, and once `attempt` reaches the budget no further attempt is
/// scheduled — with a budget of three, a permanently failing item sees at
/// most three attempts.
pub proof fn lemma_retry_budget(
    fp: Seq<char>,
    attempt: u64,
    max_attempts: u64,
    result: Result<(), Seq<char>>,
    r: RetryDecision,
)
    requires
        retry_decision_ok(fp, attempt, max_attempts, result, r),
    ensures
        (result matches Err(e) && is_auth_code(e)) ==> r is Propagate,
        attempt >= max_attempts ==> !(r is RetryAfter),
{
}

/// One entry of the batch failure summary: the failing item's remote path
/// and its final error.
pub fn item_failure_entry(file_path: &str, err: &str) -> (r: String)
    ensures
        r@ == file_path@ + ": "@ + err@,
{
    let r = String::from_str(file_path).concat(": ").concat(err);
    assert(r@ =~= file_path@ + ": "@ + err@);
    r
}

/// The batch result: success when no item failed, else one summary error
/// joining every collected failure. The batch never aborts early: every
/// item is attempted and every failure stands in the summary.
pub fn batch_summary(errors: &Vec<String>) -> (r: Result<(), String>)
    ensures
        (r is Ok) == (errors@.len() == 0),
        r matches Err(m) ==> m@ == "some files failed to download: "@ + joined(
            errors.deep_view(),
            "; "@,
        ),
{
    if errors.len() == 0 {
        Ok(())
    } else {
        let m = String::from_str("some files failed to download: ").concat(
            join_with(errors, "; ").as_str(),
        );
        assert(m@ =~= "some files failed to download: "@ + joined(errors.deep_view(), "; "@));
        Err(m)
    }
}

/// The batch failure summary quotes every collected failure entry, so a
/// failing item's path stands in the batch error whenever its entry names
/// it.
pub proof fn lemma_summary_quotes_failures(errors: Seq<Seq<char>>, k: int)
    requires
        0 <= k < errors.len(),
    ensures
        contains_seq(
            "some files failed to download: "@ + joined(errors, "; "@),
            errors[k],
        ),
{
    lemma_joined_contains(errors, "; "@, k);
    lemma_contains_concat("some files failed to download: "@, joined(errors, "; "@), errors[k]);
}

} // verus!
