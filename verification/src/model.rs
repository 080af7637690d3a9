//! The data records the upload endpoint answers with, parsed out of the
//! JSON response body.

use vstd::prelude::*;

verus! {

/// One stored file, as the service reports it.
#[derive(Clone, Debug, PartialEq, Eq)]
pub struct UploadedFile {
    /// Identifying hash of the uploaded file.
    pub hash: String,
    /// Name of the file when uploaded, if the service kept one.
    pub name: Option<String>,
    /// Size of the file in bytes.
    pub size: u64,
    /// URL fragment locating the stored file.
    pub url: String,
}

/// The mathematical value of an [`UploadedFile`].
#[verifier::ext_equal]
pub struct UploadedFileView {
    pub hash: Seq<char>,
    pub name: Option<Seq<char>>,
    pub size: u64,
    pub url: Seq<char>,
}

impl View for UploadedFile {
    type V = UploadedFileView;

    open spec fn view(&self) -> UploadedFileView {
        UploadedFileView {
            hash: self.hash@,
            name: match self.name {
                Some(n) => Some(n@),
                None => None,
            },
            size: self.size,
            url: self.url@,
        }
    }
}

/// The decoded body of an upload response.
#[derive(Clone, Debug, PartialEq, Eq)]
pub struct FileUploadResponse {
    /// The uploaded files, one per submitted payload when the service
    /// reports success.
    pub files: Vec<UploadedFile>,
    /// Whether the service reports the upload succeeded.
    pub success: bool,
}

/// The mathematical value of a [`FileUploadResponse`].
#[verifier::ext_equal]
pub struct FileUploadResponseView {
    pub files: Seq<UploadedFileView>,
    pub success: bool,
}

impl View for FileUploadResponse {
    type V = FileUploadResponseView;

    open spec fn view(&self) -> FileUploadResponseView {
        FileUploadResponseView {
            files: self.files@.map_values(|f: UploadedFile| f@),
            success: self.success,
        }
    }
}

} // verus!
