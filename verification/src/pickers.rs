//! File pickers: the folder a picker opens in, and how the results of the
//! platform document picker are routed to whoever asked for them.
use vstd::prelude::*;
use vstd::string::*;
use crate::text::{decimal, decimal_text};
use crate::ui_state::AppTab;

verus! {

/// The parent of a path as `Path::parent` computes it: the path without its
/// final component (empty for a relative path of one component), or nothing
/// for the empty path and for a path that ends in a root.
pub uninterp spec fn path_parent(path: Seq<char>) -> Option<Seq<char>>;

/// `Path::parent` on a path given as text; the parent of a path that is
/// valid text is valid text. Of an empty path there is no parent.
#[verifier::external_body]
fn parent_of(path: &str) -> (parent: Option<String>)
    ensures
        match parent {
            Some(p) => path_parent(path@) == Some(p@),
            None => path_parent(path@) is None,
        },
        path@.len() == 0 ==> parent is None,
{
    std::path::Path::new(path).parent().map(|parent| parent.to_string_lossy().into_owned())
}

/// The folder a file picker opens in for `path`: the path itself when it is
/// a folder (`is_dir`), else its parent unless that is empty.
pub fn selected_picker_directory(path: &str, is_dir: bool) -> (directory: Option<String>)
    ensures
        match directory {
            Some(d) => if is_dir {
                d@ == path@
            } else {
                path_parent(path@) == Some(d@) && d@.len() > 0
            },
            None => !is_dir && (path_parent(path@) is None || path_parent(path@)->Some_0.len() == 0),
        },
{
    if is_dir {
        return Some(String::from_str(path));
    }
    match parent_of(path) {
        Some(parent) => {
            if parent.as_str().is_empty() {
                None
            } else {
                Some(parent)
            }
        },
        None => None,
    }
}

/// Where a document delivered by the platform picker goes.
#[derive(Clone, Copy, Debug, PartialEq, Eq, Structural)]
pub struct PickedDocumentRoute {
    /// The tab shown while the document opens.
    pub tab: AppTab,
    /// The library's batch export asked for the document.
    pub batch_owned: bool,
    /// The library's AI-mask refresh asked for the document.
    pub refresh_owned: bool,
}

/// Routes a picked document. The batch export owns it when it waits for a
/// load; the AI-mask refresh owns it when it runs and no batch, camera
/// profile reload or reset reload asked. Library-owned opens, and reloads
/// started from the Library, stay on the Library tab; other opens show
/// Develop.
pub fn picked_document_route(
    batch_load_pending: bool,
    profile_reload_pending: bool,
    reset_reload_pending: bool,
    refresh_active: bool,
    active_tab: AppTab,
) -> (route: PickedDocumentRoute)
    ensures
        route.batch_owned == batch_load_pending,
        route.refresh_owned == (!batch_load_pending && !profile_reload_pending && !reset_reload_pending
            && refresh_active),
        route.tab == (if batch_load_pending || route.refresh_owned || ((profile_reload_pending
            || reset_reload_pending) && active_tab == AppTab::Library) {
            AppTab::Library
        } else {
            AppTab::Develop
        }),
{
    let refresh_owned = !batch_load_pending && !profile_reload_pending && !reset_reload_pending
        && refresh_active;
    let keep_library_for_profile_reload = profile_reload_pending && active_tab == AppTab::Library;
    let keep_library_for_reset = reset_reload_pending && active_tab == AppTab::Library;
    let tab = if batch_load_pending || refresh_owned || keep_library_for_profile_reload
        || keep_library_for_reset {
        AppTab::Library
    } else {
        AppTab::Develop
    };
    PickedDocumentRoute { tab, batch_owned: batch_load_pending, refresh_owned }
}

/// Who is told that a picker request ended without a document.
pub enum PickerFailureRoute {
    /// The batch export's current item fails with this reason.
    BatchExportItem(String),
    /// The AI-mask refresh's current image fails with this reason.
    LibraryRefreshItem(String),
    /// The user is told.
    Notice(String),
    /// Nobody.
    Nothing,
}

pub open spec fn route_reason(route: PickerFailureRoute) -> Option<Seq<char>> {
    match route {
        PickerFailureRoute::BatchExportItem(reason) => Some(reason@),
        PickerFailureRoute::LibraryRefreshItem(reason) => Some(reason@),
        PickerFailureRoute::Notice(text) => Some(text@),
        PickerFailureRoute::Nothing => None,
    }
}

/// The reason reported when a document could not start loading.
pub open spec fn open_setup_failure_reason(notice: Option<Seq<char>>) -> Seq<char> {
    match notice {
        Some(text) => text,
        None => "The RAW decode worker could not be started."@,
    }
}

/// Routes the failure of a picked document that could not start loading
/// to the batch export or the AI-mask refresh that owned the open.
pub fn open_setup_failure_route(route: PickedDocumentRoute, notice: Option<&str>) -> (failure:
    PickerFailureRoute)
    ensures
        route.batch_owned ==> failure is BatchExportItem,
        !route.batch_owned && route.refresh_owned ==> failure is LibraryRefreshItem,
        !route.batch_owned && !route.refresh_owned ==> failure is Nothing,
        route.batch_owned || route.refresh_owned ==> route_reason(failure) == Some(
            open_setup_failure_reason(
                match notice {
                    Some(text) => Some(text@),
                    None => None,
                },
            ),
        ),
{
    proof {
        reveal_strlit("The RAW decode worker could not be started.");
    }
    let reason = match notice {
        Some(text) => String::from_str(text),
        None => String::from_str("The RAW decode worker could not be started."),
    };
    if route.batch_owned {
        PickerFailureRoute::BatchExportItem(reason)
    } else if route.refresh_owned {
        PickerFailureRoute::LibraryRefreshItem(reason)
    } else {
        PickerFailureRoute::Nothing
    }
}

/// Routes a cancelled picker: the batch export, then the AI-mask refresh,
/// take it as a failed item; otherwise the user is told.
pub fn cancelled_picker_route(batch_load_pending: bool, refresh_active: bool, was_reset_reload: bool) -> (failure: PickerFailureRoute)
    ensures
        batch_load_pending ==> failure is BatchExportItem && route_reason(failure) == Some(
            "RAW open was canceled"@,
        ),
        !batch_load_pending && refresh_active ==> failure is LibraryRefreshItem && route_reason(
            failure,
        ) == Some("RAW open was canceled"@),
        !batch_load_pending && !refresh_active && was_reset_reload ==> failure is Notice
            && route_reason(failure) == Some(
            "The RAW could not be reloaded after resetting adjustments. Reopen it from the Library before continuing in Develop."@,
        ),
        !batch_load_pending && !refresh_active && !was_reset_reload ==> failure is Notice
            && route_reason(failure) == Some("No RAW files selected."@),
{
    if batch_load_pending {
        PickerFailureRoute::BatchExportItem(String::from_str("RAW open was canceled"))
    } else if refresh_active {
        PickerFailureRoute::LibraryRefreshItem(String::from_str("RAW open was canceled"))
    } else if was_reset_reload {
        PickerFailureRoute::Notice(
            String::from_str(
                "The RAW could not be reloaded after resetting adjustments. Reopen it from the Library before continuing in Develop.",
            ),
        )
    } else {
        PickerFailureRoute::Notice(String::from_str("No RAW files selected."))
    }
}

/// Routes a picker that failed with `error`. A failed camera-profile or
/// reset reload is reported to the user; otherwise the batch export, then
/// the AI-mask refresh, take the error as a failed item.
pub fn failed_picker_route(
    error: &str,
    batch_load_pending: bool,
    refresh_active: bool,
    was_profile_reload: bool,
    was_reset_reload: bool,
) -> (failure: PickerFailureRoute)
    ensures
        batch_load_pending && !was_profile_reload && !was_reset_reload ==> failure is BatchExportItem
            && route_reason(failure) == Some(error@),
        !(batch_load_pending && !was_profile_reload && !was_reset_reload) && refresh_active
            && !was_profile_reload && !was_reset_reload ==> failure is LibraryRefreshItem
            && route_reason(failure) == Some(error@),
        was_profile_reload ==> failure is Notice && route_reason(failure) == Some(
            "Could not reload RAW for camera profile: "@ + error@,
        ),
        !was_profile_reload && was_reset_reload ==> failure is Notice && route_reason(failure)
            == Some("Could not reload RAW after resetting adjustments: "@ + error@),
        !was_profile_reload && !was_reset_reload && !batch_load_pending && !refresh_active
            ==> failure is Notice && route_reason(failure) == Some(
            "Could not import the selected file: "@ + error@,
        ),
{
    if batch_load_pending && !was_profile_reload && !was_reset_reload {
        PickerFailureRoute::BatchExportItem(String::from_str(error))
    } else if refresh_active && !was_profile_reload && !was_reset_reload {
        PickerFailureRoute::LibraryRefreshItem(String::from_str(error))
    } else {
        let mut text = if was_profile_reload {
            String::from_str("Could not reload RAW for camera profile: ")
        } else if was_reset_reload {
            String::from_str("Could not reload RAW after resetting adjustments: ")
        } else {
            String::from_str("Could not import the selected file: ")
        };
        text.append(error);
        PickerFailureRoute::Notice(text)
    }
}

/// `file` or `files`, as a count calls for.
pub open spec fn file_noun(count: nat) -> Seq<char> {
    if count == 1 {
        "file"@
    } else {
        "files"@
    }
}

/// The status line after a batch import of picked RAW files.
pub open spec fn batch_import_status(imported: nat, failed: nat) -> Seq<char> {
    if imported == 0 && failed == 0 {
        "No RAW files were imported."@
    } else if failed == 0 {
        "Imported "@ + decimal(imported) + " RAW "@ + file_noun(imported) + "."@
    } else {
        "Imported "@ + decimal(imported) + " RAW "@ + file_noun(imported) + "; "@ + decimal(failed)
            + " failed."@
    }
}

/// The notice after a batch import: present only when some import failed,
/// quoting the collected errors when there are any.
pub open spec fn batch_import_notice(failed: nat, errors: Seq<char>) -> Option<Seq<char>> {
    if failed == 0 {
        None
    } else if errors.len() == 0 {
        Some(decimal(failed) + " selected RAW imports failed."@)
    } else {
        Some("Some RAW files could not be imported:\n"@ + errors)
    }
}

/// The status line and notice after a batch import of picked RAW files.
pub fn batch_import_report(imported: u64, failed: u64, errors: &str) -> (report: (String, Option<String>))
    ensures
        report.0@ == batch_import_status(imported as nat, failed as nat),
        match report.1 {
            Some(text) => batch_import_notice(failed as nat, errors@) == Some(text@),
            None => batch_import_notice(failed as nat, errors@) is None,
        },
{
    proof {
        reveal_strlit("file");
        reveal_strlit("files");
    }
    let noun = if imported == 1 {
        "file"
    } else {
        "files"
    };
    let status = if imported == 0 && failed == 0 {
        String::from_str("No RAW files were imported.")
    } else {
        let mut text = String::from_str("Imported ");
        text.append(decimal_text(imported).as_str());
        text.append(" RAW ");
        text.append(noun);
        if failed == 0 {
            text.append(".");
        } else {
            text.append("; ");
            text.append(decimal_text(failed).as_str());
            text.append(" failed.");
        }
        text
    };
    let notice = if failed == 0 {
        None
    } else if errors.is_empty() {
        let mut text = decimal_text(failed);
        text.append(" selected RAW imports failed.");
        Some(text)
    } else {
        let mut text = String::from_str("Some RAW files could not be imported:\n");
        text.append(errors);
        Some(text)
    };
    (status, notice)
}

/// `profile` or `profiles`, as a count calls for.
pub open spec fn profile_noun(count: nat) -> Seq<char> {
    if count == 1 {
        "profile"@
    } else {
        "profiles"@
    }
}

/// The notice after a camera-profile folder was imported.
pub open spec fn camera_profile_import_notice(label: Seq<char>, profiles: nat) -> Seq<char> {
    "Camera profile folder '"@ + label + "' imported with "@ + decimal(profiles) + " DCP "@
        + profile_noun(profiles) + ". Reopen the RAW to apply the new profile selection."@
}

/// The notice after a camera-profile folder named `label` was imported with
/// `profiles` DCP profiles.
pub fn camera_profile_import_notice_text(label: &str, profiles: u64) -> (notice: String)
    ensures
        notice@ == camera_profile_import_notice(label@, profiles as nat),
{
    proof {
        reveal_strlit("profile");
        reveal_strlit("profiles");
    }
    let mut text = String::from_str("Camera profile folder '");
    text.append(label);
    text.append("' imported with ");
    text.append(decimal_text(profiles).as_str());
    text.append(" DCP ");
    text.append(if profiles == 1 {
        "profile"
    } else {
        "profiles"
    });
    text.append(". Reopen the RAW to apply the new profile selection.");
    text
}

/// What a picker is opened for.
#[derive(Clone, Copy, Debug, PartialEq, Eq, Structural)]
pub enum PickerPurpose {
    /// RAW or TIFF files to open.
    RawFiles,
    /// RAW or TIFF files to upload to AuRaw Cloud.
    CloudUpload,
}

/// What a request to open a document picker on Android does.
#[derive(Debug, PartialEq, Eq)]
pub enum PickerRequest {
    /// A foreground operation is running; the text is the notice.
    Refused(String),
    /// A picker is already open (or an upload runs): nothing happens.
    Ignored,
    /// Open the picker.
    Open,
}

/// The notice when a foreground operation blocks a picker.
pub open spec fn blocked_picker_notice(purpose: PickerPurpose) -> Seq<char> {
    match purpose {
        PickerPurpose::RawFiles => "Wait for the current foreground operation to finish before opening another RAW."@,
        PickerPurpose::CloudUpload => "Wait for the current foreground operation before selecting cloud uploads."@,
    }
}

/// The status line while the picker is open.
pub open spec fn picker_status(purpose: PickerPurpose) -> Seq<char> {
    match purpose {
        PickerPurpose::RawFiles => "Choose one or more RAW or TIFF files…"@,
        PickerPurpose::CloudUpload => "Choose one or more RAW or TIFF files for AuRaw Cloud…"@,
    }
}

/// Decides a request to open an Android document picker for `purpose`: a
/// foreground operation refuses it; an open picker, or for an upload one
/// already running, ignores it; otherwise the picker opens.
pub fn android_picker_request(
    purpose: PickerPurpose,
    foreground_task_active: bool,
    picker_pending: bool,
    upload_in_progress: bool,
) -> (request: PickerRequest)
    ensures
        foreground_task_active ==> (request matches PickerRequest::Refused(notice) && notice@
            == blocked_picker_notice(purpose)),
        !foreground_task_active && (picker_pending || (purpose == PickerPurpose::CloudUpload
            && upload_in_progress)) ==> request == PickerRequest::Ignored,
        !foreground_task_active && !picker_pending && !(purpose == PickerPurpose::CloudUpload
            && upload_in_progress) ==> request == PickerRequest::Open,
{
    if foreground_task_active {
        let notice = match purpose {
            PickerPurpose::RawFiles => String::from_str(
                "Wait for the current foreground operation to finish before opening another RAW.",
            ),
            PickerPurpose::CloudUpload => String::from_str(
                "Wait for the current foreground operation before selecting cloud uploads.",
            ),
        };
        return PickerRequest::Refused(notice);
    }
    let busy = match purpose {
        PickerPurpose::RawFiles => picker_pending,
        PickerPurpose::CloudUpload => picker_pending || upload_in_progress,
    };
    if busy {
        PickerRequest::Ignored
    } else {
        PickerRequest::Open
    }
}

/// The status line while the picker for `purpose` is open.
pub fn picker_status_text(purpose: PickerPurpose) -> (status: String)
    ensures
        status@ == picker_status(purpose),
{
    match purpose {
        PickerPurpose::RawFiles => String::from_str("Choose one or more RAW or TIFF files…"),
        PickerPurpose::CloudUpload => String::from_str(
            "Choose one or more RAW or TIFF files for AuRaw Cloud…",
        ),
    }
}

/// A character with ASCII lower-case letters made upper-case.
pub open spec fn ascii_upper(c: char) -> char {
    if 'a' <= c && c <= 'z' {
        ((c as u32) - 32) as char
    } else {
        c
    }
}

/// A text with ASCII lower-case letters made upper-case
/// (`str::to_ascii_uppercase`).
pub open spec fn ascii_uppercase(text: Seq<char>) -> Seq<char> {
    text.map_values(|c: char| ascii_upper(c))
}

/// `str::to_ascii_uppercase`: a copy of `text` in which the letters `a` to
/// `z` become `A` to `Z` and every other character stays.
#[verifier::external_body]
fn ascii_uppercase_text(text: &str) -> (upper: String)
    ensures
        upper@ == ascii_uppercase(text@),
{
    text.to_ascii_uppercase()
}

/// The extensions a RAW picker filters on: each supported extension as
/// written, then in upper case.
pub open spec fn filter_extensions(extensions: Seq<Seq<char>>) -> Seq<Seq<char>>
    decreases extensions.len(),
{
    if extensions.len() == 0 {
        Seq::empty()
    } else {
        filter_extensions(extensions.drop_last()).push(extensions.last()).push(
            ascii_uppercase(extensions.last()),
        )
    }
}

/// The extensions a RAW picker filters on: each supported extension as
/// written, then in upper case.
pub fn picker_filter_extensions(extensions: &Vec<String>) -> (filter: Vec<String>)
    ensures
        filter@.map_values(|t: String| t@) == filter_extensions(
            extensions@.map_values(|t: String| t@),
        ),
{
    let ghost views = extensions@.map_values(|t: String| t@);
    let mut filter: Vec<String> = Vec::new();
    let mut i: usize = 0;
    while i < extensions.len()
        invariant
            i <= extensions.len(),
            views == extensions@.map_values(|t: String| t@),
            filter@.map_values(|t: String| t@) == filter_extensions(views.subrange(0, i as int)),
        decreases extensions.len() - i,
    {
        let ghost before = filter@;
        let extension = extensions[i].as_str();
        filter.push(String::from_str(extension));
        filter.push(ascii_uppercase_text(extension));
        proof {
            let next = views.subrange(0, i + 1);
            assert(next.drop_last() =~= views.subrange(0, i as int));
            assert(next.last() == views[i as int]);
            assert(filter@.map_values(|t: String| t@) =~= before.map_values(|t: String| t@).push(
                views[i as int],
            ).push(ascii_uppercase(views[i as int])));
        }
        i += 1;
    }
    proof {
        assert(views.subrange(0, extensions.len() as int) =~= views);
    }
    filter
}

/// The message over the window while files are dragged onto it: where the
/// dropped RAW files will be imported, or that a library folder must be
/// opened first.
pub fn drop_overlay_message(folder: Option<&str>) -> (message: String)
    ensures
        message@ == match folder {
            Some(f) => "Drop RAW files to import them into\n"@ + f@
                + "\n\nFolders are copied here too"@,
            None => "Open a library folder before dropping RAW files"@,
        },
{
    match folder {
        Some(f) => {
            let mut message = String::from_str("Drop RAW files to import them into\n");
            message.append(f);
            message.append("\n\nFolders are copied here too");
            message
        },
        None => String::from_str("Open a library folder before dropping RAW files"),
    }
}

/// The status while the DCP profiles of the folder `label` are copied.
pub fn camera_profile_import_status(label: &str) -> (status: String)
    ensures
        status@ == "Importing DCP profiles from "@ + label@ + "…"@,
{
    let mut status = String::from_str("Importing DCP profiles from ");
    status.append(label);
    status.append("…");
    status
}

/// The notice when no camera-profile folder was imported: the picker was
/// cancelled (`None`), or the import failed with the error.
pub fn camera_profile_import_failure(error: Option<&str>) -> (notice: String)
    ensures
        notice@ == match error {
            None => "No camera profile folder selected."@,
            Some(e) => "Could not import camera profiles: "@ + e@,
        },
{
    match error {
        None => String::from_str("No camera profile folder selected."),
        Some(e) => {
            let mut notice = String::from_str("Could not import camera profiles: ");
            notice.append(e);
            notice
        },
    }
}

} // verus!
