//! The archive fetch-and-extract engine: downloads an archive into memory,
//! plans its extraction, and wraps both in a bounded retry loop with
//! corruption cleanup between attempts.
//!
//! The engine is a step machine: it never touches the network or the disk
//! itself but emits [`Action`]s and consumes [`Event`]s, so every decision —
//! when to retry, what to clean up, which error to surface — is verified.

use vstd::prelude::*;
use vstd::string::*;
use crate::archive;
use crate::archive::{
    FsOp, OpKind, OpModel, plan_model, zip_entry_list, zip_entry_readable, zip_well_formed,
};
use crate::effects::{Action, Event};
use crate::text;
use crate::text::{contains_seq, has_prefix};

verus! {

broadcast use vstd::string::group_string_axioms;

/// Errors worth retrying: truncation, a generic extraction/download/failure
/// condition, or an incomplete write.
pub open spec fn retryable(msg: Seq<char>) -> bool {
    ||| contains_seq(msg, "unexpected end of file"@)
    ||| contains_seq(msg, "extraction"@)
    ||| contains_seq(msg, "download"@)
    ||| contains_seq(msg, "incomplete write"@)
    ||| contains_seq(msg, "failed"@)
}

/// Classifies an extraction error as worth another attempt.
pub fn is_retryable_error(msg: &str) -> (r: bool)
    ensures
        r == retryable(msg@),
{
    text::str_contains(msg, "unexpected end of file") || text::str_contains(msg, "extraction")
        || text::str_contains(msg, "download") || text::str_contains(msg, "incomplete write")
        || text::str_contains(msg, "failed")
}

/// Where the engine stands between two events.
pub enum EngineState {
    /// A download request for the archive is out; `attempt` counts it.
    AwaitDownload { attempt: usize },
    /// The archive arrived; creation of the destination directory is out.
    AwaitDestReady { attempt: usize, data: Vec<u8> },
    /// The plan's operation `idx` is out.
    Applying { attempt: usize, plan: Vec<FsOp>, idx: usize },
    /// A retryable failure struck; recreation of the emptied destination
    /// directory is out.
    AwaitRecreate { attempt: usize },
    /// The archive is fully extracted.
    Done,
    /// The engine gave up with this error.
    Failed { error: String },
}

/// The archive fetch-and-extract engine for one URL and destination.
pub struct FetchEngine {
    pub url: String,
    pub dest: String,
    pub max_attempts: usize,
    pub state: EngineState,
}

/// The action that carries out one planned operation.
pub open spec fn op_action(op: OpModel, a: Action) -> bool {
    match op.kind {
        OpKind::MakeDir => a matches Action::CreateDir(p) && p@ == op.path,
        OpKind::MakeParent => a matches Action::CreateDir(p) && p@ == op.path,
        OpKind::WriteFile => a matches Action::WriteFile { path, data } && path@ == op.path
            && data@ == op.data,
    }
}

/// The error message reported when one planned operation fails.
pub open spec fn op_fail_msg(op: OpModel, e: Seq<char>) -> Seq<char> {
    match op.kind {
        OpKind::MakeDir => "failed to create directory "@ + op.entry + ": "@ + e,
        OpKind::MakeParent => "failed to create parent directory for "@ + op.entry + ": "@ + e,
        OpKind::WriteFile => "failed to create file "@ + op.entry + ": "@ + e,
    }
}

/// The engine's identity never changes across a step.
pub open spec fn engine_frame(pre: FetchEngine, post: FetchEngine) -> bool {
    post.url@ == pre.url@ && post.dest@ == pre.dest@ && post.max_attempts == pre.max_attempts
}

/// After a failed download with message `msg`: retry at once while attempts
/// remain, otherwise surface the download error verbatim.
pub open spec fn download_failed_rel(
    pre: FetchEngine,
    attempt: int,
    msg: Seq<char>,
    post: FetchEngine,
    out: Seq<Action>,
) -> bool {
    if attempt < pre.max_attempts {
        &&& post.state matches EngineState::AwaitDownload { attempt: a } && a == attempt + 1
        &&& out.len() == 1
        &&& out[0] matches Action::Download(u) && u@ == pre.url@
    } else {
        &&& post.state matches EngineState::Failed { error } && error@ == msg
        &&& out.len() == 0
    }
}

/// After a failed extraction phase with message `msg`: when the error is
/// retryable and attempts remain, the destination is deleted and recreated
/// empty before the next attempt; otherwise the message is surfaced and the
/// destination deleted, so a failed run never leaves partial content
/// behind.
pub open spec fn extract_failed_rel(
    pre: FetchEngine,
    attempt: int,
    msg: Seq<char>,
    post: FetchEngine,
    out: Seq<Action>,
) -> bool {
    if retryable(msg) && attempt < pre.max_attempts {
        &&& post.state matches EngineState::AwaitRecreate { attempt: a } && a == attempt
        &&& out.len() == 2
        &&& out[0] matches Action::RemoveDir(p) && p@ == pre.dest@
        &&& out[1] matches Action::CreateDir(p) && p@ == pre.dest@
    } else {
        &&& post.state matches EngineState::Failed { error } && error@ == msg
        &&& out.len() == 1
        &&& out[0] matches Action::RemoveDir(p) && p@ == pre.dest@
    }
}

/// After the destination directory is ready and the archive opened: an
/// empty plan finishes at once, otherwise the plan's first operation goes
/// out.
pub open spec fn extraction_started_rel(
    pre: FetchEngine,
    attempt: int,
    data: Seq<u8>,
    post: FetchEngine,
    out: Seq<Action>,
) -> bool {
    let plan = plan_model(zip_entry_list(data), pre.dest@);
    if plan.len() == 0 {
        &&& post.state is Done
        &&& out.len() == 0
    } else {
        &&& post.state matches EngineState::Applying { attempt: a, plan: p, idx } && a == attempt
            && idx == 0 && p.deep_view() == plan
        &&& out.len() == 1
        &&& op_action(plan[0], out[0])
    }
}

/// The engine's transition relation: what one step does for each state and
/// event.
pub open spec fn engine_step_rel(
    pre: FetchEngine,
    ev: Event,
    post: FetchEngine,
    out: Seq<Action>,
) -> bool {
    &&& engine_frame(pre, post)
    &&& match (pre.state, ev) {
        (EngineState::AwaitDownload { attempt }, Event::Downloaded(res)) => {
            match res {
                Err(e) => download_failed_rel(pre, attempt as int, e@, post, out),
                Ok(data) => {
                    if data@.len() == 0 {
                        download_failed_rel(
                            pre,
                            attempt as int,
                            "downloaded file is empty"@,
                            post,
                            out,
                        )
                    } else {
                        &&& post.state matches EngineState::AwaitDestReady { attempt: a, data: d }
                            && a == attempt && d@ == data@
                        &&& out.len() == 1
                        &&& out[0] matches Action::CreateDir(p) && p@ == pre.dest@
                    }
                },
            }
        },
        (EngineState::AwaitDestReady { attempt, data }, Event::Completed(res)) => {
            match res {
                Err(e) => extract_failed_rel(
                    pre,
                    attempt as int,
                    "failed to create destination directory: "@ + e@,
                    post,
                    out,
                ),
                Ok(_) => {
                    if !zip_well_formed(data@) {
                        exists|msg: Seq<char>|
                            has_prefix(msg, "failed to open zip archive"@)
                                && #[trigger] extract_failed_rel(
                                pre,
                                attempt as int,
                                msg,
                                post,
                                out,
                            )
                    } else {
                        ||| {
                            &&& exists|i: int|
                                0 <= i < zip_entry_list(data@).len() && !(
                                #[trigger] zip_entry_readable(data@, i))
                            &&& exists|msg: Seq<char>|
                                has_prefix(msg, "failed to read zip entry"@)
                                    && #[trigger] extract_failed_rel(
                                    pre,
                                    attempt as int,
                                    msg,
                                    post,
                                    out,
                                )
                        }
                        ||| extraction_started_rel(pre, attempt as int, data@, post, out)
                    }
                },
            }
        },
        (EngineState::Applying { attempt, plan, idx }, Event::Completed(res)) => {
            match res {
                Ok(_) => {
                    if idx + 1 < plan@.len() {
                        &&& post.state matches EngineState::Applying {
                            attempt: a,
                            plan: p,
                            idx: i,
                        } && a == attempt && p.deep_view() == plan.deep_view() && i == idx + 1
                        &&& out.len() == 1
                        &&& op_action(plan.deep_view()[idx + 1], out[0])
                    } else {
                        &&& post.state is Done
                        &&& out.len() == 0
                    }
                },
                Err(e) => extract_failed_rel(
                    pre,
                    attempt as int,
                    op_fail_msg(plan.deep_view()[idx as int], e@),
                    post,
                    out,
                ),
            }
        },
        (EngineState::AwaitRecreate { attempt }, Event::Completed(res)) => {
            match res {
                Ok(_) => {
                    &&& post.state matches EngineState::AwaitDownload { attempt: a } && a == attempt
                        + 1
                    &&& out.len() == 1
                    &&& out[0] matches Action::Download(u) && u@ == pre.url@
                },
                Err(e) => {
                    &&& post.state matches EngineState::Failed { error } && error@
                        == "failed to create directory "@ + pre.dest@ + ": "@ + e@
                    &&& out.len() == 0
                },
            }
        },
        _ => false,
    }
}

impl FetchEngine {
    /// Structural soundness of a reachable engine: the attempt counter stays
    /// within the allowance and the plan index within the plan.
    pub open spec fn inv(self) -> bool {
        &&& self.max_attempts >= 1
        &&& match self.state {
            EngineState::AwaitDownload { attempt } => 1 <= attempt <= self.max_attempts,
            EngineState::AwaitDestReady { attempt, .. } => 1 <= attempt <= self.max_attempts,
            EngineState::Applying { attempt, plan, idx } => 1 <= attempt <= self.max_attempts
                && idx < plan@.len(),
            EngineState::AwaitRecreate { attempt } => 1 <= attempt < self.max_attempts,
            EngineState::Done => true,
            EngineState::Failed { .. } => true,
        }
    }

    /// The event kind the engine is waiting for.
    pub open spec fn wants(self, ev: Event) -> bool {
        match (self.state, ev) {
            (EngineState::AwaitDownload { .. }, Event::Downloaded(_)) => true,
            (EngineState::AwaitDestReady { .. }, Event::Completed(_)) => true,
            (EngineState::Applying { .. }, Event::Completed(_)) => true,
            (EngineState::AwaitRecreate { .. }, Event::Completed(_)) => true,
            _ => false,
        }
    }

    /// Starts fetching `url` into `destination` with the given attempt
    /// allowance.  The one action out is the first download request.
    pub fn fetch_and_extract(url: &str, destination: &str, max_attempts: usize) -> (r: (
        FetchEngine,
        Vec<Action>,
    ))
        requires
            1 <= max_attempts,
        ensures
            r.0.url@ == url@,
            r.0.dest@ == destination@,
            r.0.max_attempts == max_attempts,
            r.0.state matches EngineState::AwaitDownload { attempt } && attempt == 1,
            r.0.inv(),
            r.1@.len() == 1,
            r.1@[0] matches Action::Download(u) && u@ == url@,
    {
        let eng = FetchEngine {
            url: url.to_owned(),
            dest: destination.to_owned(),
            max_attempts,
            state: EngineState::AwaitDownload { attempt: 1 },
        };
        let mut out: Vec<Action> = Vec::new();
        out.push(Action::Download(url.to_owned()));
        (eng, out)
    }

    /// One step of the engine.
    pub fn step(self, ev: Event) -> (r: (FetchEngine, Vec<Action>))
        requires
            self.inv(),
            self.wants(ev),
        ensures
            engine_step_rel(self, ev, r.0, r.1@),
            r.0.inv(),
    {
        let ghost pre = self;
        let FetchEngine { url, dest, max_attempts, state } = self;
        match (state, ev) {
            (EngineState::AwaitDownload { attempt }, Event::Downloaded(res)) => {
                match res {
                    Err(e) => {
                        download_failure(url, dest, max_attempts, attempt, e)
                    },
                    Ok(data) => {
                        if data.len() == 0 {
                            download_failure(
                                url,
                                dest,
                                max_attempts,
                                attempt,
                                "downloaded file is empty".to_owned(),
                            )
                        } else {
                            let mut out: Vec<Action> = Vec::new();
                            out.push(Action::CreateDir(dest.clone()));
                            (
                                FetchEngine {
                                    url,
                                    dest,
                                    max_attempts,
                                    state: EngineState::AwaitDestReady { attempt, data },
                                },
                                out,
                            )
                        }
                    },
                }
            },
            (EngineState::AwaitDestReady { attempt, data }, Event::Completed(res)) => {
                match res {
                    Err(e) => {
                        let msg = text::concat2(
                            "failed to create destination directory: ",
                            e.as_str(),
                        );
                        extract_failure(url, dest, max_attempts, attempt, msg)
                    },
                    Ok(_) => {
                        match archive::open_archive(data) {
                            Err(msg) => {
                                let ghost m = msg@;
                                let r = extract_failure(url, dest, max_attempts, attempt, msg);
                                proof {
                                    assert(extract_failed_rel(pre, attempt as int, m, r.0, r.1@));
                                }
                                r
                            },
                            Ok(mut reader) => {
                                match archive::build_plan(&mut reader, dest.as_str()) {
                                    Err(msg) => {
                                        let ghost m = msg@;
                                        let r = extract_failure(
                                            url,
                                            dest,
                                            max_attempts,
                                            attempt,
                                            msg,
                                        );
                                        proof {
                                            assert(extract_failed_rel(
                                                pre,
                                                attempt as int,
                                                m,
                                                r.0,
                                                r.1@,
                                            ));
                                        }
                                        r
                                    },
                                    Ok(plan) => {
                                        if plan.len() == 0 {
                                            (
                                                FetchEngine {
                                                    url,
                                                    dest,
                                                    max_attempts,
                                                    state: EngineState::Done,
                                                },
                                                Vec::new(),
                                            )
                                        } else {
                                            let mut out: Vec<Action> = Vec::new();
                                            out.push(action_for(&plan[0]));
                                            (
                                                FetchEngine {
                                                    url,
                                                    dest,
                                                    max_attempts,
                                                    state: EngineState::Applying {
                                                        attempt,
                                                        plan,
                                                        idx: 0,
                                                    },
                                                },
                                                out,
                                            )
                                        }
                                    },
                                }
                            },
                        }
                    },
                }
            },
            (EngineState::Applying { attempt, plan, idx }, Event::Completed(res)) => {
                match res {
                    Ok(_) => {
                        let n = plan.len();
                        let next = idx + 1;
                        if next < n {
                            let mut out: Vec<Action> = Vec::new();
                            out.push(action_for(&plan[next]));
                            (
                                FetchEngine {
                                    url,
                                    dest,
                                    max_attempts,
                                    state: EngineState::Applying { attempt, plan, idx: next },
                                },
                                out,
                            )
                        } else {
                            (
                                FetchEngine { url, dest, max_attempts, state: EngineState::Done },
                                Vec::new(),
                            )
                        }
                    },
                    Err(e) => {
                        let msg = fail_msg_for(&plan[idx], e.as_str());
                        extract_failure(url, dest, max_attempts, attempt, msg)
                    },
                }
            },
            (EngineState::AwaitRecreate { attempt }, Event::Completed(res)) => {
                match res {
                    Ok(_) => {
                        let mut out: Vec<Action> = Vec::new();
                        out.push(Action::Download(url.clone()));
                        (
                            FetchEngine {
                                url,
                                dest,
                                max_attempts,
                                state: EngineState::AwaitDownload { attempt: attempt + 1 },
                            },
                            out,
                        )
                    },
                    Err(e) => {
                        let mut msg = "failed to create directory ".to_owned();
                        msg.append(dest.as_str());
                        msg.append(": ");
                        msg.append(e.as_str());
                        (
                            FetchEngine {
                                url,
                                dest,
                                max_attempts,
                                state: EngineState::Failed { error: msg },
                            },
                            Vec::new(),
                        )
                    },
                }
            },
            (st, _) => {
                proof {
                    assert(false);
                }
                (FetchEngine { url, dest, max_attempts, state: st }, Vec::new())
            },
        }
    }
}

/// The action carrying out one planned operation.
fn action_for(op: &FsOp) -> (a: Action)
    ensures
        op_action(op@, a),
{
    match op {
        FsOp::MakeDir { path, .. } => Action::CreateDir(path.clone()),
        FsOp::MakeParent { path, .. } => Action::CreateDir(path.clone()),
        FsOp::WriteFile { path, data, .. } => Action::WriteFile {
            path: path.clone(),
            data: data.clone(),
        },
    }
}

/// The error message for one failed planned operation.
fn fail_msg_for(op: &FsOp, e: &str) -> (m: String)
    ensures
        m@ == op_fail_msg(op@, e@),
{
    match op {
        FsOp::MakeDir { entry, .. } => {
            let mut s = "failed to create directory ".to_owned();
            s.append(entry.as_str());
            s.append(": ");
            s.append(e);
            s
        },
        FsOp::MakeParent { entry, .. } => {
            let mut s = "failed to create parent directory for ".to_owned();
            s.append(entry.as_str());
            s.append(": ");
            s.append(e);
            s
        },
        FsOp::WriteFile { entry, .. } => {
            let mut s = "failed to create file ".to_owned();
            s.append(entry.as_str());
            s.append(": ");
            s.append(e);
            s
        },
    }
}

/// The engine after a failed download attempt.
fn download_failure(url: String, dest: String, max_attempts: usize, attempt: usize, msg: String)
    -> (r: (FetchEngine, Vec<Action>))
    requires
        1 <= attempt <= max_attempts,
    ensures
        r.0.url@ == url@,
        r.0.dest@ == dest@,
        r.0.max_attempts == max_attempts,
        r.0.inv(),
        download_failed_rel(r.0, attempt as int, msg@, r.0, r.1@),
{
    if attempt < max_attempts {
        let mut out: Vec<Action> = Vec::new();
        out.push(Action::Download(url.clone()));
        (
            FetchEngine {
                url,
                dest,
                max_attempts,
                state: EngineState::AwaitDownload { attempt: attempt + 1 },
            },
            out,
        )
    } else {
        (
            FetchEngine { url, dest, max_attempts, state: EngineState::Failed { error: msg } },
            Vec::new(),
        )
    }
}

/// The engine after a failed extraction phase.
fn extract_failure(url: String, dest: String, max_attempts: usize, attempt: usize, msg: String)
    -> (r: (FetchEngine, Vec<Action>))
    requires
        1 <= attempt <= max_attempts,
    ensures
        r.0.url@ == url@,
        r.0.dest@ == dest@,
        r.0.max_attempts == max_attempts,
        r.0.inv(),
        extract_failed_rel(r.0, attempt as int, msg@, r.0, r.1@),
{
    let retry = is_retryable_error(msg.as_str());
    if retry && attempt < max_attempts {
        let mut out: Vec<Action> = Vec::new();
        out.push(Action::RemoveDir(dest.clone()));
        out.push(Action::CreateDir(dest.clone()));
        (
            FetchEngine {
                url,
                dest,
                max_attempts,
                state: EngineState::AwaitRecreate { attempt },
            },
            out,
        )
    } else {
        let mut out: Vec<Action> = Vec::new();
        out.push(Action::RemoveDir(dest.clone()));
        (
            FetchEngine { url, dest, max_attempts, state: EngineState::Failed { error: msg } },
            out,
        )
    }
}

/// Retry bound for downloads: while attempts remain, a failed download is
/// followed at once by exactly one new download request with the attempt
/// counter advanced by one; on the last allowed attempt the engine fails
/// with the download's own error message, and nothing else goes out.
pub proof fn lemma_download_retry_bound(
    pre: FetchEngine,
    ev: Event,
    post: FetchEngine,
    out: Seq<Action>,
)
    requires
        pre.inv(),
        pre.state matches EngineState::AwaitDownload { attempt },
        ev matches Event::Downloaded(res) && res is Err,
        engine_step_rel(pre, ev, post, out),
    ensures
        pre.state->AwaitDownload_attempt < pre.max_attempts ==> ({
            &&& post.state matches EngineState::AwaitDownload { attempt: a } && a
                == pre.state->AwaitDownload_attempt + 1
            &&& out.len() == 1
            &&& out[0] matches Action::Download(u) && u@ == pre.url@
        }),
        pre.state->AwaitDownload_attempt >= pre.max_attempts ==> ({
            &&& post.state matches EngineState::Failed { error } && error@
                == ev->Downloaded_0->Err_0@
            &&& out.len() == 0
        }),
{
}

} // verus!
