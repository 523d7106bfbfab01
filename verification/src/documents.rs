//! Opening documents: the notices collected while a document loads, the key
//! under which a decoded RAW is cached, and the camera-profile folder chosen
//! at start-up.
use vstd::prelude::*;
use vstd::string::*;
use crate::text::{decimal, decimal_text};
use crate::preview_quality::PreviewQuality;

verus! {

/// The notice after `message` was added to `notice`: appended after a space,
/// or the message alone when there was none.
pub open spec fn appended_notice(notice: Option<Seq<char>>, message: Seq<char>) -> Seq<char> {
    match notice {
        Some(existing) => existing + " "@ + message,
        None => message,
    }
}

pub open spec fn notice_view(notice: Option<String>) -> Option<Seq<char>> {
    match notice {
        Some(text) => Some(text@),
        None => None,
    }
}

/// Adds `message` to the notice shown for the document being opened.
pub fn append_notice(notice: &mut Option<String>, message: &str)
    ensures
        notice_view(*final(notice)) == Some(appended_notice(notice_view(*old(notice)), message@)),
{
    match notice {
        Some(existing) => {
            existing.append(" ");
            existing.append(message);
        },
        None => {
            *notice = Some(String::from_str(message));
        },
    }
}

/// Base-ten text of a 128-bit number, as `ToString` writes it.
#[verifier::external_body]
fn decimal_text_u128(n: u128) -> (text: String)
    ensures
        text@ == decimal(n as nat),
{
    n.to_string()
}

/// Where a document's RAW comes from, with what identifies its contents.
pub enum RawSource {
    /// A file, with its size and modification time (nanoseconds since the
    /// Unix epoch; zero when unknown).
    Desktop { path: String, bytes: u64, modified_nanos: u128 },
    /// A document of the Android storage framework.
    Android { uri: String },
}

/// The key of a decoded RAW in the decode cache: a file is keyed by path,
/// size and modification time, so that a changed file is decoded anew.
pub open spec fn raw_cache_key(source: RawSource) -> Seq<char> {
    match source {
        RawSource::Desktop { path, bytes, modified_nanos } => "desktop:"@ + path@ + ":"@ + decimal(
            bytes as nat,
        ) + ":"@ + decimal(modified_nanos as nat),
        RawSource::Android { uri } => "android:"@ + uri@,
    }
}

/// The decode-cache key of a document's RAW.
pub fn raw_cache_key_for_source(source: &RawSource) -> (key: String)
    ensures
        key@ == raw_cache_key(*source),
{
    match source {
        RawSource::Desktop { path, bytes, modified_nanos } => {
            let mut key = String::from_str("desktop:");
            key.append(path.as_str());
            key.append(":");
            key.append(decimal_text(*bytes).as_str());
            key.append(":");
            key.append(decimal_text_u128(*modified_nanos).as_str());
            key
        },
        RawSource::Android { uri } => {
            let mut key = String::from_str("android:");
            key.append(uri.as_str());
            key
        },
    }
}

/// The camera-profile folder in use at start-up, with its label.
pub struct CameraProfileFolder {
    pub folder: Option<String>,
    pub label: Option<String>,
}

/// The label of an automatically detected Adobe Camera Raw folder.
pub open spec fn detected_folder_label() -> Seq<char> {
    "Adobe Camera Raw (auto-detected)"@
}

/// Chooses the camera-profile folder at start-up. With auto-detection on
/// and no usable saved folder (none saved, or `saved_is_dir` false), the
/// detected Adobe Camera Raw folder replaces it, labelled as detected, or
/// no folder at all when none was detected; otherwise the saved folder and
/// label stay.
pub fn startup_camera_profile_folder(
    auto_detect: bool,
    saved: CameraProfileFolder,
    saved_is_dir: bool,
    detected: Option<String>,
) -> (chosen: CameraProfileFolder)
    ensures
        (auto_detect && (saved.folder is None || !saved_is_dir)) ==> {
            &&& chosen.folder == detected
            &&& match chosen.label {
                Some(label) => detected is Some && label@ == detected_folder_label(),
                None => detected is None,
            }
        },
        !(auto_detect && (saved.folder is None || !saved_is_dir)) ==> chosen == saved,
{
    if auto_detect && (saved.folder.is_none() || !saved_is_dir) {
        let label = match &detected {
            Some(_) => Some(String::from_str("Adobe Camera Raw (auto-detected)")),
            None => None,
        };
        CameraProfileFolder { folder: detected, label }
    } else {
        saved
    }
}

/// A new document can be opened once no other is opening and the GPU
/// backend runs; the refusal's text is the notice.
pub fn check_open_request(load_in_progress: bool, gpu_available: bool) -> (checked: Result<(), String>)
    ensures
        checked is Ok <==> (!load_in_progress && gpu_available),
        checked matches Err(message) ==> message@ == (if load_in_progress {
            "Wait for the current RAW to finish opening."@
        } else {
            "eframe is not running with the wgpu backend."@
        }),
{
    if load_in_progress {
        return Err(String::from_str("Wait for the current RAW to finish opening."));
    }
    if !gpu_available {
        return Err(String::from_str("eframe is not running with the wgpu backend."));
    }
    Ok(())
}

/// The image status while `label` opens.
pub fn loading_status(label: &str) -> (status: String)
    ensures
        status@ == "Loading "@ + label@ + "…"@,
{
    let mut status = String::from_str("Loading ");
    status.append(label);
    status.append("…");
    status
}

/// What reading a document's sidecar gave: saved edits (`migrated` when
/// they were written in an older format), none, or an error.
pub enum SidecarLoad {
    Loaded { migrated: bool },
    Missing,
    Failed(String),
}

/// The warning that reading the sidecar leaves for the opened document.
pub open spec fn spec_sidecar_warning(load: SidecarLoad) -> Option<Seq<char>> {
    match load {
        SidecarLoad::Loaded { migrated } => if migrated {
            Some("Loaded edits were migrated to the current sidecar format."@)
        } else {
            None
        },
        SidecarLoad::Missing => None,
        SidecarLoad::Failed(error) => Some(
            "Could not load this RAW's sidecar; using default edits: "@ + error@,
        ),
    }
}

/// The warning that reading the sidecar leaves for the opened document.
pub fn sidecar_warning(load: SidecarLoad) -> (warning: Option<String>)
    ensures
        notice_view(warning) == spec_sidecar_warning(load),
{
    match load {
        SidecarLoad::Loaded { migrated } => if migrated {
            Some(String::from_str("Loaded edits were migrated to the current sidecar format."))
        } else {
            None
        },
        SidecarLoad::Missing => None,
        SidecarLoad::Failed(error) => {
            let mut warning = String::from_str(
                "Could not load this RAW's sidecar; using default edits: ",
            );
            warning.append(error.as_str());
            Some(warning)
        },
    }
}

/// The image status once a document is shown: camera, full and preview
/// sizes, the preview quality, and the camera profile when it has a name.
pub open spec fn spec_loaded_status(
    make: Seq<char>,
    model: Seq<char>,
    full: (u32, u32),
    preview: (u32, u32),
    quality: PreviewQuality,
    profile: Option<Seq<char>>,
) -> Seq<char> {
    make + " "@ + model + " — full "@ + decimal(full.0 as nat) + "×"@ + decimal(full.1 as nat)
        + ", preview "@ + decimal(preview.0 as nat) + "×"@ + decimal(preview.1 as nat) + " ("@
        + quality.spec_label() + match profile {
        Some(name) => ", profile "@ + name,
        None => Seq::empty(),
    } + ")"@
}

/// The image status once a document is shown.
pub fn loaded_status(
    make: &str,
    model: &str,
    full: (u32, u32),
    preview: (u32, u32),
    quality: PreviewQuality,
    profile: Option<&str>,
) -> (status: String)
    ensures
        status@ == spec_loaded_status(make@, model@, full, preview, quality, match profile {
            Some(name) => Some(name@),
            None => None,
        }),
{
    let mut status = String::from_str(make);
    status.append(" ");
    status.append(model);
    status.append(" — full ");
    status.append(decimal_text(full.0 as u64).as_str());
    status.append("×");
    status.append(decimal_text(full.1 as u64).as_str());
    status.append(", preview ");
    status.append(decimal_text(preview.0 as u64).as_str());
    status.append("×");
    status.append(decimal_text(preview.1 as u64).as_str());
    status.append(" (");
    status.append(quality.label());
    match profile {
        Some(name) => {
            status.append(", profile ");
            status.append(name);
        },
        None => {},
    }
    status.append(")");
    proof {
        assert(status@ =~= spec_loaded_status(make@, model@, full, preview, quality, match profile {
            Some(name) => Some(name@),
            None => None,
        }));
    }
    status
}

/// Why opening a document failed once its worker answered (or did not).
pub enum LoadFailure {
    /// The decoding worker went away without an answer.
    WorkerStopped,
    /// The GUI does not run on the GPU backend.
    NoGpuBackend,
    /// Decoding or the first render failed with this error.
    Failed(String),
}

/// The notice for a failed open.
pub open spec fn spec_load_failure_notice(failure: LoadFailure) -> Seq<char> {
    match failure {
        LoadFailure::WorkerStopped => "RAW decode worker stopped unexpectedly."@,
        LoadFailure::NoGpuBackend => "eframe is not running with the wgpu backend."@,
        LoadFailure::Failed(error) => "Failed to decode or render RAW: "@ + error@,
    }
}

/// The notice for a failed open.
pub fn load_failure_notice(failure: LoadFailure) -> (notice: String)
    ensures
        notice@ == spec_load_failure_notice(failure),
{
    match failure {
        LoadFailure::WorkerStopped => String::from_str("RAW decode worker stopped unexpectedly."),
        LoadFailure::NoGpuBackend => String::from_str("eframe is not running with the wgpu backend."),
        LoadFailure::Failed(error) => {
            let mut notice = String::from_str("Failed to decode or render RAW: ");
            notice.append(error.as_str());
            notice
        },
    }
}

/// What tapping a library document on Android does.
#[derive(Debug, PartialEq, Eq)]
pub enum AndroidOpen {
    /// A foreground operation runs; the text is the notice.
    Refused(String),
    /// A document picker is already pending: nothing happens.
    Ignored,
    /// The document is the one already shown: switch to Develop.
    ShowLoaded,
    /// Ask the platform to open it, showing this status meanwhile.
    Open { status: String },
}

/// Decides what tapping the library document `display_name` does.
/// `already_loaded`: that very document is decoded and shown.
pub fn android_open_request(
    foreground_active: bool,
    picker_pending: bool,
    already_loaded: bool,
    display_name: &str,
) -> (open: AndroidOpen)
    ensures
        foreground_active ==> (open matches AndroidOpen::Refused(notice) && notice@
            == display_name@
            + " cannot be opened while an export or another foreground operation is running. Wait for it to finish or cancel it first."@),
        !foreground_active && picker_pending ==> open == AndroidOpen::Ignored,
        !foreground_active && !picker_pending && already_loaded ==> open == AndroidOpen::ShowLoaded,
        !foreground_active && !picker_pending && !already_loaded ==> (open matches AndroidOpen::Open {
            status,
        } && status@ == "Opening "@ + display_name@ + "…"@),
{
    if foreground_active {
        let mut notice = String::from_str(display_name);
        notice.append(
            " cannot be opened while an export or another foreground operation is running. Wait for it to finish or cancel it first.",
        );
        return AndroidOpen::Refused(notice);
    }
    if picker_pending {
        return AndroidOpen::Ignored;
    }
    if already_loaded {
        return AndroidOpen::ShowLoaded;
    }
    let mut status = String::from_str("Opening ");
    status.append(display_name);
    status.append("…");
    AndroidOpen::Open { status }
}

/// Whether the document `display_name` can be reloaded after its
/// adjustments were reset: the status to show while it reloads, or the
/// notice when another document operation is pending.
pub fn reset_reload_request(picker_pending: bool, display_name: &str) -> (request: Result<
    String,
    String,
>)
    ensures
        match request {
            Ok(status) => !picker_pending && status@ == "Reloading "@ + display_name@
                + " after reset…"@,
            Err(notice) => picker_pending && notice@ == "Could not reload "@ + display_name@
                + " after resetting adjustments because another Android document operation is still pending."@,
        },
{
    if picker_pending {
        let mut notice = String::from_str("Could not reload ");
        notice.append(display_name);
        notice.append(
            " after resetting adjustments because another Android document operation is still pending.",
        );
        return Err(notice);
    }
    let mut status = String::from_str("Reloading ");
    status.append(display_name);
    status.append(" after reset…");
    Ok(status)
}

/// The notice when the platform could not reopen `display_name` after a
/// reset, for `error`.
pub fn reset_reload_failure(display_name: &str, error: &str) -> (notice: String)
    ensures
        notice@ == "Could not reload "@ + display_name@ + " after resetting adjustments: "@
            + error@,
{
    let mut notice = String::from_str("Could not reload ");
    notice.append(display_name);
    notice.append(" after resetting adjustments: ");
    notice.append(error);
    notice
}

/// The notice when a cloud image opens from its cached copy, for `reason`.
pub fn offline_open_notice(reason: &str) -> (notice: String)
    ensures
        notice@ == "Opened the cached cloud RAW offline. Edits will sync when the server is reachable. "@
            + reason@,
{
    let mut notice = String::from_str(
        "Opened the cached cloud RAW offline. Edits will sync when the server is reachable. ",
    );
    notice.append(reason);
    notice
}

} // verus!
