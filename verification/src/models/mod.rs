use vstd::prelude::*;

pub mod admin_roles;
pub mod video_tags;

verus! {

/// The answer to a file upload.
pub struct UploadResult<'a> {
    /// 0 on success.
    pub code: usize,
    pub message: &'a str,
    /// Where the uploaded file was stored.
    pub path: &'a str,
}

/// The signed upload policy handed to the browser for direct uploads to object storage.
pub struct OSSData<'a> {
    pub access_id: &'a str,
    pub host: &'a str,
    pub policy: &'a str,
    pub signature: &'a str,
    pub expire: u64,
}

/// The answer carrying an object-storage upload policy.
pub struct OSSResult<'a> {
    pub code: usize,
    pub success: bool,
    pub msg: &'static str,
    pub data: OSSData<'a>,
}

} // verus!
