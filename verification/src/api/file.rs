//! Records of the private-file and group-file operations.

use vstd::prelude::*;

use crate::types::group::{GroupFile, GroupFolder};

verus! {

pub struct UploadPrivateFileRequest {
    pub user_id: i64,
    /// A `file://`, `http(s)://` or `base64://` address.
    pub file_uri: String,
    pub file_name: String,
}

pub struct UploadPrivateFileParams {
    pub user_id: i64,
    pub file_uri: String,
}

pub struct UploadPrivateFileResponse {
    pub file_id: String,
}

pub struct UploadGroupFileRequest {
    pub group_id: i64,
    pub parent_folder_id: String,
    pub file_uri: String,
    pub file_name: String,
}

impl UploadGroupFileRequest {
    /// A group-file upload; a missing folder defaults to the root, `/`.
    pub fn new(
        group_id: i64,
        parent_folder_id: Option<String>,
        file_uri: String,
        file_name: String,
    ) -> (r: Self)
        ensures
            r.group_id == group_id,
            match parent_folder_id {
                Some(p) => r.parent_folder_id == p,
                None => r.parent_folder_id@ == "/"@,
            },
            r.file_uri == file_uri,
            r.file_name == file_name,
    {
        let parent_folder_id = match parent_folder_id {
            Some(p) => p,
            None => String::from_str("/"),
        };
        Self { group_id, parent_folder_id, file_uri, file_name }
    }
}

pub struct UploadGroupFileParams {
    pub group_id: i64,
    pub file_uri: String,
}

pub struct UploadGroupFileResponse {
    pub file_id: String,
}

pub struct GetPrivateFileDownloadUrlRequest {
    pub user_id: i64,
    pub file_id: String,
    pub file_hash: String,
}

pub struct GetPrivateFileDownloadUrlParams {
    pub user_id: i64,
    pub file_id: String,
}

pub struct GetPrivateFileDownloadUrlResponse {
    pub download_url: String,
}

pub struct GetGroupFileDownloadUrlRequest {
    pub group_id: i64,
    pub file_id: String,
}

pub struct GetGroupFileDownloadUrlParams {
    pub group_id: i64,
    pub file_id: String,
}

pub struct GetGroupFileDownloadUrlResponse {
    pub download_url: String,
}

pub struct GetGroupFilesRequest {
    pub group_id: i64,
    pub parent_folder_id: String,
}

impl GetGroupFilesRequest {
    /// A listing request; a missing folder defaults to the root, `/`.
    pub fn new(group_id: i64, parent_folder_id: Option<String>) -> (r: Self)
        ensures
            r.group_id == group_id,
            match parent_folder_id {
                Some(p) => r.parent_folder_id == p,
                None => r.parent_folder_id@ == "/"@,
            },
    {
        let parent_folder_id = match parent_folder_id {
            Some(p) => p,
            None => String::from_str("/"),
        };
        Self { group_id, parent_folder_id }
    }
}

pub struct GetGroupFilesParams {
    pub group_id: i64,
    pub parent_folder_id: Option<String>,
}

pub struct GetGroupFilesResponse {
    pub files: Vec<GroupFile>,
    pub folder: Vec<GroupFolder>,
}

pub struct MoveGroupFileRequest {
    pub group_id: i64,
    pub file_id: String,
    pub parent_folder_id: String,
    pub target_folder_id: String,
}

impl MoveGroupFileRequest {
    /// A move; missing folders default to the root, `/`.
    pub fn new(
        group_id: i64,
        file_id: String,
        parent_folder_id: Option<String>,
        target_folder_id: Option<String>,
    ) -> (r: Self)
        ensures
            r.group_id == group_id,
            r.file_id == file_id,
            match parent_folder_id {
                Some(p) => r.parent_folder_id == p,
                None => r.parent_folder_id@ == "/"@,
            },
            match target_folder_id {
                Some(p) => r.target_folder_id == p,
                None => r.target_folder_id@ == "/"@,
            },
    {
        let parent_folder_id = match parent_folder_id {
            Some(p) => p,
            None => String::from_str("/"),
        };
        let target_folder_id = match target_folder_id {
            Some(p) => p,
            None => String::from_str("/"),
        };
        Self { group_id, file_id, parent_folder_id, target_folder_id }
    }
}

pub struct MoveGroupFileParams {
    pub group_id: i64,
    pub file_id: String,
    pub target_folder_id: Option<String>,
}

pub struct RenameGroupFileRequest {
    pub group_id: i64,
    pub file_id: String,
    pub parent_folder_id: String,
    pub new_file_name: String,
}

impl RenameGroupFileRequest {
    /// A rename; a missing folder defaults to the root, `/`.
    pub fn new(
        group_id: i64,
        file_id: String,
        parent_folder_id: Option<String>,
        new_file_name: String,
    ) -> (r: Self)
        ensures
            r.group_id == group_id,
            r.file_id == file_id,
            match parent_folder_id {
                Some(p) => r.parent_folder_id == p,
                None => r.parent_folder_id@ == "/"@,
            },
            r.new_file_name == new_file_name,
    {
        let parent_folder_id = match parent_folder_id {
            Some(p) => p,
            None => String::from_str("/"),
        };
        Self { group_id, file_id, parent_folder_id, new_file_name }
    }
}

pub struct RenameGroupFileParams {
    pub group_id: i64,
    pub file_id: String,
    pub new_name: String,
}

pub struct DeleteGroupFileRequest {
    pub group_id: i64,
    pub file_id: String,
}

pub struct DeleteGroupFileParams {
    pub group_id: i64,
    pub file_id: String,
}

pub struct CreateGroupFolderRequest {
    pub group_id: i64,
    pub folder_name: String,
}

pub struct CreateGroupFolderParams {
    pub group_id: i64,
    pub folder_name: String,
}

pub struct CreateGroupFolderResponse {
    pub folder_id: String,
}

pub struct RenameGroupFolderRequest {
    pub group_id: i64,
    pub folder_id: String,
    pub new_folder_name: String,
}

pub struct RenameGroupFolderParams {
    pub group_id: i64,
    pub folder_id: String,
    pub new_name: String,
}

pub struct DeleteGroupFolderRequest {
    pub group_id: i64,
    pub folder_id: String,
}

pub struct DeleteGroupFolderParams {
    pub group_id: i64,
    pub folder_id: String,
}

} // verus!
