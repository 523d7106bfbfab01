//! Which camera profile (DCP) a RAW is decoded with: the one the caller
//! chose, the one its edits saved, or the last one used for new RAWs; and
//! under which key its decode is cached.
use vstd::prelude::*;
use vstd::string::*;

verus! {

/// The path `Path::join` forms from `base` and `relative` (an absolute
/// `relative` replaces `base`).
pub uninterp spec fn path_joined(base: Seq<char>, relative: Seq<char>) -> Seq<char>;

/// Whether two paths are equal as `Path`'s `==` compares them: by their
/// components.
pub uninterp spec fn paths_equal(a: Seq<char>, b: Seq<char>) -> bool;

/// `Path::join` on paths given as text; the result of joining text is text.
#[verifier::external_body]
fn join_path(base: &str, relative: &str) -> (joined: String)
    ensures
        joined@ == path_joined(base@, relative@),
{
    std::path::Path::new(base).join(relative).to_string_lossy().into_owned()
}

/// `Path`'s `==` on paths given as text.
#[verifier::external_body]
fn same_path(a: &str, b: &str) -> (same: bool)
    ensures
        same == paths_equal(a@, b@),
{
    std::path::Path::new(a) == std::path::Path::new(b)
}

/// How the caller chose the profile.
pub enum ProfileSelection {
    /// As the RAW's saved edits say (an ordinary open).
    FromSidecar,
    /// Automatic selection.
    Automatic,
    /// This profile file.
    Explicit(String),
}

/// The camera profile recorded in a RAW's saved edits.
pub enum SidecarProfile {
    /// The edits could not be read.
    Unreadable,
    /// The RAW has no saved edits.
    Absent,
    /// Saved edits, with the profile's path relative to the profile folder,
    /// if they name one (`.` names the folder's embedded-matrix entry).
    Saved(Option<String>),
}

pub open spec fn selection_key(selection: ProfileSelection) -> Seq<char> {
    match selection {
        ProfileSelection::FromSidecar => "sidecar"@,
        ProfileSelection::Automatic => "automatic"@,
        ProfileSelection::Explicit(path) => path@,
    }
}

/// The key of a decode in the decode cache: the document's own key, the
/// profile mode, the profile folder and the selection, as each decides the
/// decoded colours.
pub open spec fn decode_cache_key(
    document_key: Seq<char>,
    profile_mode_key: Seq<char>,
    profile_folder: Option<Seq<char>>,
    selection: ProfileSelection,
) -> Seq<char> {
    document_key + "|profile:"@ + profile_mode_key + "|folder:"@ + match profile_folder {
        Some(folder) => folder,
        None => Seq::empty(),
    } + "|selection:"@ + selection_key(selection)
}

/// The decode-cache key of an open.
pub fn decode_cache_key_text(
    document_key: &str,
    profile_mode_key: &str,
    profile_folder: Option<&str>,
    selection: &ProfileSelection,
) -> (key: String)
    ensures
        key@ == decode_cache_key(
            document_key@,
            profile_mode_key@,
            match profile_folder {
                Some(folder) => Some(folder@),
                None => None,
            },
            *selection,
        ),
{
    let mut key = String::from_str(document_key);
    key.append("|profile:");
    key.append(profile_mode_key);
    key.append("|folder:");
    match profile_folder {
        Some(folder) => key.append(folder),
        None => {},
    }
    key.append("|selection:");
    match selection {
        ProfileSelection::FromSidecar => key.append("sidecar"),
        ProfileSelection::Automatic => key.append("automatic"),
        ProfileSelection::Explicit(path) => key.append(path.as_str()),
    }
    key
}

/// Whether a cached decode may be used before the saved edits are read:
/// when the selection does not depend on them, because the caller chose,
/// only embedded matrices are used, or there is no profile folder.
pub fn decode_cache_usable(selection: &ProfileSelection, matrix_only: bool, has_profile_folder: bool) -> (usable: bool)
    ensures
        usable == (!(*selection is FromSidecar) || matrix_only || !has_profile_folder),
{
    let chosen = match selection {
        ProfileSelection::FromSidecar => false,
        _ => true,
    };
    chosen || matrix_only || !has_profile_folder
}

/// The profile a decode asks for.
pub struct ProfileRequest {
    /// The profile file, if any.
    pub profile: Option<String>,
    /// It came from the saved edits.
    pub from_sidecar: bool,
    /// It is the folder's embedded-matrix entry: decode with the embedded
    /// matrix only.
    pub embedded_matrix: bool,
}

pub open spec fn opt_text(text: Option<&str>) -> Option<Seq<char>> {
    match text {
        Some(t) => Some(t@),
        None => None,
    }
}

/// The requested profile before the embedded-matrix check: the caller's
/// choice; else the saved edits' profile in the folder (the folder itself
/// for `.`); else, for a RAW without saved edits, the last profile used.
pub open spec fn requested_profile(
    selection: ProfileSelection,
    sidecar: SidecarProfile,
    folder: Option<Seq<char>>,
    last_profile: Option<Seq<char>>,
) -> (Option<Seq<char>>, bool) {
    match selection {
        ProfileSelection::Explicit(path) => (Some(path@), false),
        ProfileSelection::Automatic => (None, false),
        ProfileSelection::FromSidecar => match sidecar {
            SidecarProfile::Unreadable => (None, false),
            SidecarProfile::Saved(None) => (None, false),
            SidecarProfile::Saved(Some(relative)) => (
                match folder {
                    Some(root) => Some(
                        if paths_equal(relative@, "."@) {
                            root
                        } else {
                            path_joined(root, relative@)
                        },
                    ),
                    None => None,
                },
                true,
            ),
            SidecarProfile::Absent => (
                match (folder, last_profile) {
                    (Some(root), Some(relative)) => Some(path_joined(root, relative)),
                    _ => None,
                },
                false,
            ),
        },
    }
}

/// The profile a decode asks for (see `requested_profile`), and whether it
/// is the folder's embedded-matrix entry (the folder itself).
pub fn request_camera_profile(
    selection: ProfileSelection,
    sidecar: SidecarProfile,
    folder: Option<&str>,
    last_profile: Option<&str>,
) -> (request: ProfileRequest)
    ensures
        ({
            let (profile, from_sidecar) = requested_profile(selection, sidecar, opt_text(folder), opt_text(last_profile));
            &&& match request.profile {
                Some(p) => profile == Some(p@),
                None => profile is None,
            }
            &&& request.from_sidecar == from_sidecar
            &&& request.embedded_matrix == (match (profile, folder) {
                (Some(p), Some(root)) => paths_equal(p, root@),
                _ => false,
            })
        }),
{
    proof {
        reveal_strlit(".");
    }
    let (profile, from_sidecar) = match selection {
        ProfileSelection::Explicit(path) => (Some(path), false),
        ProfileSelection::Automatic => (None, false),
        ProfileSelection::FromSidecar => match sidecar {
            SidecarProfile::Unreadable => (None, false),
            SidecarProfile::Saved(None) => (None, false),
            SidecarProfile::Saved(Some(relative)) => (
                match folder {
                    Some(root) => Some(
                        if same_path(relative.as_str(), ".") {
                            String::from_str(root)
                        } else {
                            join_path(root, relative.as_str())
                        },
                    ),
                    None => None,
                },
                true,
            ),
            SidecarProfile::Absent => (
                match (folder, last_profile) {
                    (Some(root), Some(relative)) => Some(join_path(root, relative)),
                    _ => None,
                },
                false,
            ),
        },
    };
    let embedded_matrix = match (&profile, folder) {
        (Some(p), Some(root)) => same_path(p.as_str(), root),
        _ => false,
    };
    ProfileRequest { profile, from_sidecar, embedded_matrix }
}

/// The profile the opened document shows as selected: the folder for the
/// embedded-matrix entry; otherwise the requested profile if the decode
/// applied exactly it (`applied`).
pub fn selected_camera_profile(request: &ProfileRequest, folder: Option<&str>, applied: Option<&str>) -> (selected: Option<String>)
    ensures
        request.embedded_matrix ==> match selected {
            Some(s) => folder is Some && s@ == folder->Some_0@,
            None => folder is None,
        },
        !request.embedded_matrix ==> match selected {
            Some(s) => request.profile is Some && applied is Some && s@ == request.profile->Some_0@
                && paths_equal(applied->Some_0@, request.profile->Some_0@),
            None => !(request.profile is Some && applied is Some && paths_equal(
                applied->Some_0@,
                request.profile->Some_0@,
            )),
        },
{
    if request.embedded_matrix {
        return match folder {
            Some(root) => Some(String::from_str(root)),
            None => None,
        };
    }
    match (&request.profile, applied) {
        (Some(p), Some(a)) => {
            if same_path(a, p.as_str()) {
                Some(p.clone())
            } else {
                None
            }
        },
        _ => None,
    }
}

/// The notice shown when the saved profile could not be used.
pub open spec fn saved_profile_unusable_notice() -> Seq<char> {
    "The saved camera profile was not found or did not match this camera; automatic profile selection was used instead."@
}

/// Whether the saved edits asked for a profile that was not used; the
/// edits are then rewritten and the user told (see
/// `saved_profile_unusable_notice`).
pub fn saved_profile_unusable(request: &ProfileRequest, selected: &Option<String>) -> (unusable: Option<String>)
    ensures
        match unusable {
            Some(text) => request.from_sidecar && request.profile is Some && selected is None && text@
                == saved_profile_unusable_notice(),
            None => !(request.from_sidecar && request.profile is Some && selected is None),
        },
{
    if request.from_sidecar && request.profile.is_some() && selected.is_none() {
        Some(
            String::from_str(
                "The saved camera profile was not found or did not match this camera; automatic profile selection was used instead.",
            ),
        )
    } else {
        None
    }
}

} // verus!
