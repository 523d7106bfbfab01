//! Routing of a finished AI-mask inference: whether its mask was kept, what
//! the user is told, and what happens to its background task and batch.
use vstd::prelude::*;
use vstd::string::*;

verus! {

/// Which model produced the result.
#[derive(Clone, Copy, Debug, PartialEq, Eq, Structural)]
pub enum MaskJobKind {
    Subject,
    Object,
    Landscape,
}

/// What became of a result that arrived for a current (neither cancelled
/// nor stale) job.
#[derive(Debug, PartialEq, Eq)]
pub enum MaskJobResult {
    /// The mask was installed in its component.
    Applied,
    /// The worker returned an image of the wrong size.
    Malformed,
    /// The component could no longer be identified; the text says why.
    Unresolved(String),
    /// The component is no longer of the kind the job started with.
    ChangedType,
    /// Inference failed with the given error.
    Failed(String),
    /// The worker succeeded, but the job had no target to apply it to.
    Untargeted,
}

pub open spec fn opt_view(text: Option<String>) -> Option<Seq<char>> {
    match text {
        Some(t) => Some(t@),
        None => None,
    }
}

pub open spec fn selection_name(kind: MaskJobKind) -> Seq<char> {
    match kind {
        MaskJobKind::Subject => "Subject"@,
        MaskJobKind::Object => "Object"@,
        MaskJobKind::Landscape => "Landscape"@,
    }
}

/// The error a result reports, if any.
pub open spec fn result_error(kind: MaskJobKind, result: MaskJobResult) -> Option<Seq<char>> {
    match result {
        MaskJobResult::Applied | MaskJobResult::Untargeted => None,
        MaskJobResult::Malformed => Some(match kind {
            MaskJobKind::Subject => "Subject selection returned an invalid mask image."@,
            _ => selection_name(kind) + " selection returned malformed dimensions or pixel data."@,
        }),
        MaskJobResult::Unresolved(reason) => Some(reason@),
        MaskJobResult::ChangedType => Some("The target component changed type before inference completed."@),
        MaskJobResult::Failed(error) => Some(selection_name(kind) + " selection failed: "@ + error@),
    }
}

/// The message for a job that produced no mask and reported no error.
pub open spec fn no_mask_message(kind: MaskJobKind, stale: bool) -> Seq<char> {
    if stale {
        selection_name(kind) + " selection became stale before inference completed."@
    } else {
        selection_name(kind) + " selection did not produce a mask."@
    }
}

fn selection_name_text(kind: MaskJobKind) -> (name: String)
    ensures
        name@ == selection_name(kind),
{
    match kind {
        MaskJobKind::Subject => String::from_str("Subject"),
        MaskJobKind::Object => String::from_str("Object"),
        MaskJobKind::Landscape => String::from_str("Landscape"),
    }
}

/// The error text a result reports, if any.
pub fn result_error_message(kind: MaskJobKind, result: &MaskJobResult) -> (message: Option<String>)
    ensures
        opt_view(message) == result_error(kind, *result),
{
    match result {
        MaskJobResult::Applied | MaskJobResult::Untargeted => None,
        MaskJobResult::Malformed => match kind {
            MaskJobKind::Subject => Some(String::from_str("Subject selection returned an invalid mask image.")),
            _ => {
                let mut text = selection_name_text(kind);
                text.append(" selection returned malformed dimensions or pixel data.");
                Some(text)
            },
        },
        MaskJobResult::Unresolved(reason) => Some(reason.clone()),
        MaskJobResult::ChangedType => Some(String::from_str("The target component changed type before inference completed.")),
        MaskJobResult::Failed(error) => {
            let mut text = selection_name_text(kind);
            text.append(" selection failed: ");
            text.append(error.as_str());
            Some(text)
        },
    }
}

fn no_mask_text(kind: MaskJobKind, stale: bool) -> (message: String)
    ensures
        message@ == no_mask_message(kind, stale),
{
    let mut text = selection_name_text(kind);
    if stale {
        text.append(" selection became stale before inference completed.");
    } else {
        text.append(" selection did not produce a mask.");
    }
    text
}

/// What the editor does once a job's result is routed.
#[derive(Debug, PartialEq, Eq)]
pub struct MaskJobCompletion {
    /// The mask was kept.
    pub succeeded: bool,
    /// Text for the notice line.
    pub notice: Option<String>,
    /// Text for the modal error dialog.
    pub error_dialog: Option<String>,
    /// Mark the job's background task finished.
    pub finish_task: bool,
    /// Mark the job's background task failed with this text.
    pub fail_task: Option<String>,
    /// Abandon the library batch's AI-mask update.
    pub cancel_update: bool,
    /// Record the item in the running AI-mask update and pick its next job.
    pub continue_update: bool,
    /// Start a new object job for this component.
    pub restart: Option<(usize, usize)>,
}

/// Routes a finished subject-matte job. `library_task` marks a job owned by
/// a library batch; `updating_all` a job of a running "update all";
/// `result` is what became of the result when the job is current.
pub fn subject_completion(library_task: bool, updating_all: bool, cancelled: bool, stale: bool, result: &MaskJobResult) -> (completion: MaskJobCompletion)
    ensures
        ({
            let current = !cancelled && !stale;
            let succeeded = current && *result == MaskJobResult::Applied;
            let error = if current { result_error(MaskJobKind::Subject, *result) } else { None };
            &&& completion.succeeded == succeeded
            &&& completion.error_dialog is None
            &&& completion.restart is None
            &&& if library_task {
                &&& !completion.finish_task && completion.fail_task is None
                &&& completion.cancel_update == cancelled
                &&& completion.continue_update == (!cancelled && updating_all)
                &&& opt_view(completion.notice) == (if !cancelled && updating_all { error } else { None })
            } else if cancelled || succeeded {
                &&& completion.finish_task
                &&& completion.fail_task is None && completion.notice is None
                &&& !completion.cancel_update && !completion.continue_update
            } else {
                let message = match error {
                    Some(e) => e,
                    None => no_mask_message(MaskJobKind::Subject, stale),
                };
                &&& !completion.finish_task
                &&& opt_view(completion.fail_task) == Some(message)
                &&& opt_view(completion.notice) == Some(message)
                &&& !completion.cancel_update && !completion.continue_update
            }
        }),
{
    let current = !cancelled && !stale;
    let succeeded = current && match result {
        MaskJobResult::Applied => true,
        _ => false,
    };
    let error = if current { result_error_message(MaskJobKind::Subject, result) } else { None };
    let mut completion = MaskJobCompletion {
        succeeded,
        notice: None,
        error_dialog: None,
        finish_task: false,
        fail_task: None,
        cancel_update: false,
        continue_update: false,
        restart: None,
    };
    if library_task {
        if cancelled {
            completion.cancel_update = true;
        } else if updating_all {
            completion.continue_update = true;
            completion.notice = error;
        }
    } else if cancelled || succeeded {
        completion.finish_task = true;
    } else {
        let message = match error {
            Some(e) => e,
            None => no_mask_text(MaskJobKind::Subject, stale),
        };
        completion.notice = Some(message.clone());
        completion.fail_task = Some(message);
    }
    completion
}

/// Routes a finished object-selection job. A newer request for another
/// component (`pending`) is started once the old job is out of the way.
/// A failure during inference is shown in a dialog rather than failing the
/// task.
pub fn object_completion(
    library_task: bool,
    updating_all: bool,
    cancelled: bool,
    stale: bool,
    failed_during_inference: bool,
    pending: Option<(usize, usize)>,
    result: &MaskJobResult,
) -> (completion: MaskJobCompletion)
    ensures
        ({
            let current = !cancelled && !stale;
            let succeeded = current && *result == MaskJobResult::Applied;
            let error = if current { result_error(MaskJobKind::Object, *result) } else { None };
            &&& completion.succeeded == succeeded
            &&& if library_task {
                &&& !completion.finish_task && completion.fail_task is None && completion.error_dialog is None
                &&& completion.cancel_update == cancelled
                &&& completion.restart == (if !cancelled { pending } else { None })
                &&& completion.continue_update == (!cancelled && pending is None && updating_all)
                &&& opt_view(completion.notice) == (if !cancelled && pending is None && updating_all { error } else { None })
            } else if cancelled || stale {
                &&& completion.finish_task
                &&& completion.restart == pending
                &&& completion.fail_task is None && completion.notice is None && completion.error_dialog is None
                &&& !completion.cancel_update && !completion.continue_update
            } else if succeeded {
                &&& completion.finish_task
                &&& completion.restart is None
                &&& completion.fail_task is None && completion.notice is None && completion.error_dialog is None
                &&& !completion.cancel_update && !completion.continue_update
            } else {
                let message = match error {
                    Some(e) => e,
                    None => no_mask_message(MaskJobKind::Object, stale),
                };
                &&& opt_view(completion.notice) == Some(message)
                &&& completion.restart is None
                &&& !completion.cancel_update && !completion.continue_update
                &&& if failed_during_inference {
                    &&& opt_view(completion.error_dialog) == Some(message)
                    &&& completion.finish_task
                    &&& completion.fail_task is None
                } else {
                    &&& completion.error_dialog is None
                    &&& !completion.finish_task
                    &&& opt_view(completion.fail_task) == Some(message)
                }
            }
        }),
{
    let current = !cancelled && !stale;
    let succeeded = current && match result {
        MaskJobResult::Applied => true,
        _ => false,
    };
    let error = if current { result_error_message(MaskJobKind::Object, result) } else { None };
    let mut completion = MaskJobCompletion {
        succeeded,
        notice: None,
        error_dialog: None,
        finish_task: false,
        fail_task: None,
        cancel_update: false,
        continue_update: false,
        restart: None,
    };
    if library_task {
        if cancelled {
            completion.cancel_update = true;
        } else if pending.is_some() {
            completion.restart = pending;
        } else if updating_all {
            completion.continue_update = true;
            completion.notice = error;
        }
    } else if cancelled || stale {
        completion.finish_task = true;
        completion.restart = pending;
    } else if succeeded {
        completion.finish_task = true;
    } else {
        let message = match error {
            Some(e) => e,
            None => no_mask_text(MaskJobKind::Object, stale),
        };
        completion.notice = Some(message.clone());
        if failed_during_inference {
            completion.error_dialog = Some(message);
            completion.finish_task = true;
        } else {
            completion.fail_task = Some(message);
        }
    }
    completion
}

/// Routes a finished landscape-selection job, which runs as a foreground
/// operation without a background task.
pub fn landscape_completion(library_refresh: bool, updating_all: bool, cancelled: bool, stale: bool, result: &MaskJobResult) -> (completion: MaskJobCompletion)
    ensures
        ({
            let current = !cancelled && !stale;
            let succeeded = current && *result == MaskJobResult::Applied;
            let error = if current { result_error(MaskJobKind::Landscape, *result) } else { None };
            &&& completion.succeeded == succeeded
            &&& !completion.finish_task && completion.fail_task is None
            &&& completion.error_dialog is None && completion.restart is None
            &&& if library_refresh {
                &&& completion.cancel_update == cancelled
                &&& completion.continue_update == (!cancelled && updating_all)
                &&& opt_view(completion.notice) == (if !cancelled && updating_all { error } else { None })
            } else {
                &&& !completion.cancel_update && !completion.continue_update
                &&& opt_view(completion.notice) == (if !cancelled && !succeeded {
                    Some(match error {
                        Some(e) => e,
                        None => no_mask_message(MaskJobKind::Landscape, stale),
                    })
                } else {
                    None
                })
            }
        }),
{
    let current = !cancelled && !stale;
    let succeeded = current && match result {
        MaskJobResult::Applied => true,
        _ => false,
    };
    let error = if current { result_error_message(MaskJobKind::Landscape, result) } else { None };
    let mut completion = MaskJobCompletion {
        succeeded,
        notice: None,
        error_dialog: None,
        finish_task: false,
        fail_task: None,
        cancel_update: false,
        continue_update: false,
        restart: None,
    };
    if library_refresh {
        if cancelled {
            completion.cancel_update = true;
        } else if updating_all {
            completion.continue_update = true;
            completion.notice = error;
        }
    } else if !cancelled && !succeeded {
        completion.notice = Some(match error {
            Some(e) => e,
            None => no_mask_text(MaskJobKind::Landscape, stale),
        });
    }
    completion
}

/// A result that arrives after its job was cancelled, or after the document
/// or request changed, is never applied.
pub proof fn lemma_stale_results_are_never_applied(kind: MaskJobKind, result: MaskJobResult, cancelled: bool, stale: bool)
    requires
        cancelled || stale,
    ensures
        !(!cancelled && !stale && result == MaskJobResult::Applied),
{
}

/// The error of a job whose worker went away without a result.
pub open spec fn worker_stopped_error(kind: MaskJobKind) -> Seq<char> {
    match kind {
        MaskJobKind::Subject => "The subject-mask worker stopped unexpectedly."@,
        MaskJobKind::Object => "The object-mask worker stopped unexpectedly."@,
        MaskJobKind::Landscape => "The landscape-mask worker stopped unexpectedly."@,
    }
}

/// The error of a job whose worker went away without a result; it is
/// reported as the job's failure.
pub fn worker_stopped_message(kind: MaskJobKind) -> (message: String)
    ensures
        message@ == worker_stopped_error(kind),
{
    match kind {
        MaskJobKind::Subject => String::from_str("The subject-mask worker stopped unexpectedly."),
        MaskJobKind::Object => String::from_str("The object-mask worker stopped unexpectedly."),
        MaskJobKind::Landscape => String::from_str(
            "The landscape-mask worker stopped unexpectedly.",
        ),
    }
}

/// The progress line while an object mask is inferred: only the decoder
/// runs again when the image encoding was cached.
pub open spec fn spec_object_inference_progress(decoder_only: bool) -> Seq<char> {
    if decoder_only {
        "Updating the object mask…"@
    } else {
        "Encoding the image and generating the object mask…"@
    }
}

/// The progress line while an object mask is inferred.
pub fn object_inference_progress(decoder_only: bool) -> (text: String)
    ensures
        text@ == spec_object_inference_progress(decoder_only),
{
    if decoder_only {
        String::from_str("Updating the object mask…")
    } else {
        String::from_str("Encoding the image and generating the object mask…")
    }
}

} // verus!
