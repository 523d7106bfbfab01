//! Where an Android library export writes an image.
use vstd::prelude::*;

verus! {

/// The destination of one exported image on Android: a document of the
/// storage framework, or a file uploaded to the cloud library.
pub enum AndroidLibraryExportTarget {
    Local { uri: String, display_name: String },
    Cloud { path: String, display_name: String },
}

impl AndroidLibraryExportTarget {
    /// The name the user knows the exported image by.
    pub fn display_name(&self) -> (name: &str)
        ensures
            name@ == match self {
                AndroidLibraryExportTarget::Local { display_name, .. } => display_name@,
                AndroidLibraryExportTarget::Cloud { display_name, .. } => display_name@,
            },
    {
        match self {
            AndroidLibraryExportTarget::Local { display_name, .. } => display_name.as_str(),
            AndroidLibraryExportTarget::Cloud { display_name, .. } => display_name.as_str(),
        }
    }
}

} // verus!
