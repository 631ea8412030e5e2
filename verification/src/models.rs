//! Snapshots of upstream state and the request/response shapes of the
//! gateway's own surface. All of them are plain data: strings, integers,
//! vectors and options, so contracts can speak of them directly.
//!
//! File metadata is held as a vector of key/value pairs in a fixed
//! order; the transport layer converts to and from its map encoding.

use vstd::prelude::*;

verus! {

/// A file as reported by the upstream pinning service. Immutable
/// snapshot; created only upstream, read-only here.
#[derive(Debug, Clone, PartialEq, Eq)]
pub struct PinataFile {
    pub id: String,
    pub name: String,
    pub cid: String,
    pub size: u64,
    pub number_of_files: u64,
    pub mime_type: String,
    pub group_id: String,
    pub keyvalues: Vec<(String, String)>,
    pub created_at: String,
}

/// A group as reported by the upstream pinning service.
#[derive(Debug, Clone, PartialEq, Eq)]
pub struct PinataGroup {
    pub id: String,
    pub name: String,
    pub is_public: Option<bool>,
    pub created_at: String,
}

/// One page of the upstream group listing.
#[derive(Debug, Clone, PartialEq, Eq)]
pub struct PinataGroupData {
    pub groups: Vec<PinataGroup>,
    pub next_page_token: Option<String>,
}

/// Envelope of the upstream group listing.
#[derive(Debug, Clone, PartialEq, Eq)]
pub struct PinataGroupResponse {
    pub data: PinataGroupData,
}

/// One page of the upstream file listing.
#[derive(Debug, Clone, PartialEq, Eq)]
pub struct PinataFilesData {
    pub files: Vec<PinataFile>,
    pub next_page_token: Option<String>,
}

/// Envelope of the upstream file listing.
#[derive(Debug, Clone, PartialEq, Eq)]
pub struct PinataFilesResponse {
    pub data: PinataFilesData,
}

/// A group enriched with a representative image.
///
/// `thumbnail_image = None` together with `photo_count = 0` is the
/// defined degraded state recorded when the per-group lookup fails.
/// `photo_count` is the number of files actually observed by that
/// bounded lookup, not the group's true file count.
#[derive(Debug, Clone, PartialEq, Eq)]
pub struct GroupWithThumbnail {
    pub id: String,
    pub name: String,
    pub is_public: Option<bool>,
    pub created_at: String,
    pub thumbnail_image: Option<PinataFile>,
    pub photo_count: usize,
}

/// Response of the group listing operation.
#[derive(Debug, Clone, PartialEq, Eq)]
pub struct ApiResponse {
    pub success: bool,
    pub groups: Vec<PinataGroup>,
    pub message: Option<String>,
}

/// Response of the thumbnail composition operation.
#[derive(Debug, Clone, PartialEq, Eq)]
pub struct GroupsWithThumbnailResponse {
    pub success: bool,
    pub collections: Vec<GroupWithThumbnail>,
    pub message: Option<String>,
}

/// What the upstream service returns when a group is created.
#[derive(Debug, Clone, PartialEq, Eq)]
pub struct GroupCreationResponse {
    pub id: String,
    pub user_id: String,
    pub name: String,
    pub updated_at: String,
    pub created_at: String,
}

/// Query parameters of the group-images operation.
#[derive(Debug, Clone, PartialEq, Eq)]
pub struct GroupImagesParams {
    pub group_id: Option<String>,
    pub limit: Option<usize>,
}

/// Response of the group-images operation.
#[derive(Debug, Clone, PartialEq, Eq)]
pub struct GroupImagesResponse {
    pub success: bool,
    pub group_id: String,
    pub images: Vec<PinataFile>,
    pub message: Option<String>,
}

/// Query parameters of the category listing operation.
#[derive(Debug, Clone, PartialEq, Eq)]
pub struct CategoryParams {
    pub categories: Option<String>,
    pub limit: Option<usize>,
}

/// Response of the category listing operation.
#[derive(Debug, Clone, PartialEq, Eq)]
pub struct CategoryResponse {
    pub success: bool,
    pub images: Vec<PinataFile>,
    pub message: Option<String>,
}

/// Group-targeting intent of an upload: create a new group, address an
/// existing one, or none.
#[derive(Debug, Clone, PartialEq, Eq)]
pub struct GroupInfo {
    pub create_new_group: bool,
    pub group_id: Option<String>,
    pub group_name: Option<String>,
}

/// Structured metadata accompanying one uploaded photo.
#[derive(Debug, Clone, PartialEq, Eq)]
pub struct PhotoMetadata {
    pub title: String,
    pub description: String,
    pub category: String,
    pub camera: String,
    pub lens: String,
    pub iso: String,
    pub aperture: String,
    pub shutter_speed: String,
}

/// One file payload with its metadata, as handed to the upload pipeline.
#[derive(Debug, Clone, PartialEq, Eq)]
pub struct PhotoUpload {
    pub file: Vec<u8>,
    pub filename: String,
    pub content_type: String,
    pub metadata: PhotoMetadata,
}

/// Response of the upload operation.
#[derive(Debug, Clone, PartialEq, Eq)]
pub struct UploadResponse {
    pub success: bool,
    pub files: Vec<UploadedFileInfo>,
    pub group_id: Option<String>,
    pub message: Option<String>,
}

/// The caller-visible record of one accepted upload. Constructed once
/// per success; never mutated afterward.
#[derive(Debug, Clone, PartialEq, Eq)]
pub struct UploadedFileInfo {
    pub id: String,
    pub name: String,
    pub cid: String,
    pub group_id: Option<String>,
}

/// What the upstream service returns for one accepted upload.
#[derive(Debug, Clone, PartialEq, Eq)]
pub struct PinataUploadData {
    pub id: String,
    pub name: String,
    pub cid: String,
    pub created_at: String,
    pub size: u64,
    pub number_of_files: u32,
    pub mime_type: String,
    pub group_id: Option<String>,
    pub keyvalues: Option<Vec<(String, String)>>,
}

/// Envelope of the upstream upload response.
#[derive(Debug, Clone, PartialEq, Eq)]
pub struct PinataUploadResponse {
    pub data: PinataUploadData,
}

impl ApiResponse {
    /// The successful group-listing response over these groups.
    pub fn ok(groups: Vec<PinataGroup>) -> (r: Self)
        ensures
            r.success,
            r.groups == groups,
            r.message is None,
    {
        ApiResponse { success: true, groups, message: None }
    }
}

impl GroupsWithThumbnailResponse {
    /// The successful composition response over these entries.
    pub fn ok(collections: Vec<GroupWithThumbnail>) -> (r: Self)
        ensures
            r.success,
            r.collections == collections,
            r.message is None,
    {
        GroupsWithThumbnailResponse { success: true, collections, message: None }
    }
}

impl CategoryResponse {
    /// The successful category-listing response over these images.
    pub fn ok(images: Vec<PinataFile>) -> (r: Self)
        ensures
            r.success,
            r.images == images,
            r.message is None,
    {
        CategoryResponse { success: true, images, message: None }
    }
}

impl GroupImagesParams {
    /// The group the operation addresses: the caller's id, or the fixed
    /// showcase group when none was given.
    pub fn effective_group_id(&self) -> (r: String)
        ensures
            self.group_id is Some ==> r@ == self.group_id->0@,
            self.group_id is None ==> r@ == "876d949f-6532-44af-924c-f164e5ac6b1b"@,
    {
        match &self.group_id {
            Some(id) => id.clone(),
            None => "876d949f-6532-44af-924c-f164e5ac6b1b".to_owned(),
        }
    }
}

impl GroupImagesResponse {
    /// The successful group-images response.
    pub fn ok(group_id: String, images: Vec<PinataFile>) -> (r: Self)
        ensures
            r.success,
            r.group_id == group_id,
            r.images == images,
            r.message is None,
    {
        GroupImagesResponse { success: true, group_id, images, message: None }
    }
}

impl PhotoMetadata {
    /// A field-for-field copy whose equality with the original is part
    /// of the contract (a derived clone promises nothing here).
    pub fn duplicate(&self) -> (r: Self)
        ensures
            r == *self,
    {
        PhotoMetadata {
            title: self.title.clone(),
            description: self.description.clone(),
            category: self.category.clone(),
            camera: self.camera.clone(),
            lens: self.lens.clone(),
            iso: self.iso.clone(),
            aperture: self.aperture.clone(),
            shutter_speed: self.shutter_speed.clone(),
        }
    }
}

impl PinataUploadData {
    /// Projects the upstream record onto the caller-visible one.
    pub fn to_uploaded_file_info(&self) -> (r: UploadedFileInfo)
        ensures
            r.id@ == self.id@,
            r.name@ == self.name@,
            r.cid@ == self.cid@,
            r.group_id == self.group_id,
    {
        UploadedFileInfo {
            id: self.id.clone(),
            name: self.name.clone(),
            cid: self.cid.clone(),
            group_id: self.group_id.clone(),
        }
    }
}

} // verus!
