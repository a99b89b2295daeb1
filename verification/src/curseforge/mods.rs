//! Data model of the remote mod directory and the verified decision
//! logic of its client: how a response status is acted on, how a batch
//! of file records is indexed, and when a file lookup succeeds, misses,
//! or counts as a data-integrity failure.
//!
//! Timestamps from the wire are held as milliseconds since the Unix
//! epoch; the surrounding binary converts on the way in and out.

use crate::text::spec_u64_dec;
use crate::text::u64_to_string;
use std::collections::HashMap;
use vstd::prelude::*;
use vstd::string::*;

verus! {

broadcast use vstd::std_specs::hash::group_hash_axioms;

/// A mod project as the directory reports it. Immutable once fetched;
/// fetched fresh per request. Only `id`, `links.website_url` and the
/// file records matter to the redirect path; the rest is descriptive
/// metadata carried through.
pub struct Mod {
    pub id: u64,
    pub game_id: u64,
    pub name: String,
    pub slug: String,
    pub links: ModLinks,
    pub summary: String,
    pub status: ModStatus,
    pub download_count: usize,
    pub is_featured: bool,
    pub primary_category_id: u64,
    pub class_id: Option<u64>,
    pub authors: Vec<ModAuthor>,
    pub logo: ModAsset,
    pub screenshots: Vec<ModAsset>,
    pub main_file_id: Option<u64>,
    pub latest_files: Vec<File>,
    pub latest_files_indexes: Vec<FileIndex>,
    pub latest_early_access_files_indexes: Vec<FileIndex>,
    pub date_created_ms: i64,
    pub date_modified_ms: Option<i64>,
    pub date_released_ms: Option<i64>,
    pub allow_mod_distribution: bool,
    pub game_popularity_rank: Option<usize>,
    pub is_available: bool,
    pub has_comments_enabled: bool,
    pub thumbs_up_count: Option<usize>,
}

/// The outward links of a project; `website_url` is the base of every
/// file redirect target.
pub struct ModLinks {
    pub website_url: String,
    pub wiki_url: Option<String>,
    pub issues_url: Option<String>,
    pub sources_url: Option<String>,
}

/// Moderation state of a project.
#[derive(Clone, Copy, PartialEq, Eq, Structural, Debug)]
pub enum ModStatus {
    New,
    ChangesRequired,
    UnderSoftReview,
    Approved,
    Rejected,
    ChangesMade,
    Inactive,
    Abandoned,
    Deleted,
    UnderReview,
}

/// An author credited on a project.
pub struct ModAuthor {
    pub id: u64,
    pub name: String,
    pub url: String,
    pub avatar_url: Option<String>,
}

/// An image attached to a project.
pub struct ModAsset {
    pub id: u64,
    pub project_id: u64,
    pub title: Option<String>,
    pub description: Option<String>,
    pub thumbnail_url: Option<String>,
    pub url: String,
}

/// A downloadable file record; `project_id` names the owning project.
pub struct File {
    pub id: u64,
    pub game_id: u64,
    pub project_id: u64,
    pub is_available: bool,
    pub display_name: Option<String>,
    pub file_name: String,
    pub release_type: FileReleaseType,
    pub status: FileStatus,
    pub hashes: Vec<FileHash>,
    pub date_uploaded_ms: i64,
    pub size: usize,
    pub download_count: usize,
    pub size_on_disk: Option<usize>,
    pub download_url: Option<String>,
    pub game_versions: Vec<String>,
    pub expose_as_alternative: bool,
    pub parent_project_file_id: Option<u64>,
    pub alternate_file_id: Option<u64>,
    pub is_server_pack: bool,
    pub server_pack_file_id: Option<u64>,
    pub is_early_access_content: bool,
    pub early_access_end_date_ms: Option<i64>,
    pub fingerprint: u64,
}

/// Release channel of a file.
#[derive(Clone, Copy, PartialEq, Eq, Structural, Debug)]
pub enum FileReleaseType {
    Release,
    Beta,
    Alpha,
}

/// Processing state of a file.
#[derive(Clone, Copy, PartialEq, Eq, Structural, Debug)]
pub enum FileStatus {
    Processing,
    ChangesRequired,
    UnderReview,
    Approved,
    Rejected,
    MalwareDetected,
    Deleted,
    Archived,
    Testing,
    Released,
    ReadyForReview,
    Deprecated,
    Baking,
    AwaitingPublishing,
    FailedPublishing,
    Cooking,
    Cooked,
    UnderManualReview,
    ScanningForMalware,
    ProcessingFile,
    PendingRelease,
    ReadyForCooking,
    PostProcessing,
}

/// One checksum of a file's contents.
pub struct FileHash {
    pub value: String,
    pub algorithm: FileHashAlgorithm,
}

/// The checksum algorithms the directory reports.
#[derive(Clone, Copy, PartialEq, Eq, Structural, Debug)]
pub enum FileHashAlgorithm {
    Sha1,
    Md5,
}

/// A compact per-game-version index entry of a project's files.
pub struct FileIndex {
    pub game_version: String,
    pub file_id: u64,
    pub file_name: String,
    pub release_type: FileReleaseType,
    pub game_version_type_id: Option<u64>,
    pub mod_loader: Option<ModLoaderType>,
}

/// The mod loaders a file can target.
#[derive(Clone, Copy, PartialEq, Eq, Structural, Debug)]
pub enum ModLoaderType {
    Any,
    Forge,
    Cauldron,
    LiteLoader,
    Fabric,
    Quilt,
    NeoForge,
}

/// Why a directory lookup failed. Absence of an entity is not an error
/// and is reported as `None` by the lookup functions instead; every
/// variant here is an upstream malfunction and surfaces as an internal
/// failure.
#[derive(Debug)]
pub enum DirectoryError {
    /// The directory answered with a status that promises neither a
    /// body nor a clean miss.
    BadStatus(u16),
    /// The request could not be carried out at all.
    Transport(String),
    /// The body did not match the versioned schema; the path names the
    /// offending field.
    Decode { field_path: String, detail: String },
    /// A file record points at a project the directory cannot find:
    /// the directory violated its own referential integrity.
    ProjectMissing { project_id: u64, file_id: u64 },
    /// A batch for a single file id came back with records that do not
    /// describe exactly that id.
    InconsistentBatch { file_id: u64, records: u64 },
}

impl DirectoryError {
    /// The log line for this failure.
    pub open spec fn spec_message(self) -> Seq<char> {
        match self {
            DirectoryError::BadStatus(status) => "unexpected response status "@ + spec_u64_dec(
                status as nat,
            ) + " from the mod directory"@,
            DirectoryError::Transport(detail) => "transport failure: "@ + detail@,
            DirectoryError::Decode { field_path, detail } => "decode failure at "@ + field_path@
                + ": "@ + detail@,
            DirectoryError::ProjectMissing { project_id, file_id } => "no project "@
                + spec_u64_dec(project_id as nat) + " for file "@ + spec_u64_dec(file_id as nat),
            DirectoryError::InconsistentBatch { file_id, records } => "inconsistent batch for file "@
                + spec_u64_dec(file_id as nat) + ": "@ + spec_u64_dec(records as nat)
                + " records"@,
        }
    }

    /// Renders the failure for the log.
    pub fn message(&self) -> (s: String)
        ensures
            s@ == self.spec_message(),
    {
        match self {
            DirectoryError::BadStatus(status) => {
                let mut s = String::from_str("unexpected response status ");
                let digits = u64_to_string(*status as u64);
                s.append(digits.as_str());
                s.append(" from the mod directory");
                s
            },
            DirectoryError::Transport(detail) => {
                let mut s = String::from_str("transport failure: ");
                s.append(detail.as_str());
                s
            },
            DirectoryError::Decode { field_path, detail } => {
                let mut s = String::from_str("decode failure at ");
                s.append(field_path.as_str());
                s.append(": ");
                s.append(detail.as_str());
                s
            },
            DirectoryError::ProjectMissing { project_id, file_id } => {
                let mut s = String::from_str("no project ");
                let digits = u64_to_string(*project_id);
                s.append(digits.as_str());
                s.append(" for file ");
                let digits = u64_to_string(*file_id);
                s.append(digits.as_str());
                s
            },
            DirectoryError::InconsistentBatch { file_id, records } => {
                let mut s = String::from_str("inconsistent batch for file ");
                let digits = u64_to_string(*file_id);
                s.append(digits.as_str());
                s.append(": ");
                let digits = u64_to_string(*records);
                s.append(digits.as_str());
                s.append(" records");
                s
            },
        }
    }
}

/// What to do with the response to a project fetch.
#[derive(Clone, Copy, PartialEq, Eq, Structural, Debug)]
pub enum ProjectFetchStep {
    /// A success status: decode the body into a project record.
    DecodeBody,
    /// The directory reports the project as absent: a legitimate miss,
    /// never an internal failure.
    ReportNotFound,
    /// Anything else: an upstream malfunction.
    Fail,
}

/// Classifies the status of a fetch-by-id response: a success status
/// has a body to decode, a not-found status is a clean miss, and every
/// other status is an upstream malfunction.
pub fn classify_project_response(status: u16) -> (r: ProjectFetchStep)
    ensures
        200 <= status < 300 ==> r == ProjectFetchStep::DecodeBody,
        status == 404 ==> r == ProjectFetchStep::ReportNotFound,
        !(200 <= status < 300) && status != 404 ==> r == ProjectFetchStep::Fail,
{
    if 200 <= status && status < 300 {
        ProjectFetchStep::DecodeBody
    } else if status == 404 {
        ProjectFetchStep::ReportNotFound
    } else {
        ProjectFetchStep::Fail
    }
}

/// What to do with the response to a batch file fetch.
#[derive(Clone, Copy, PartialEq, Eq, Structural, Debug)]
pub enum FilesFetchStep {
    /// A success status: decode the body into file records.
    DecodeBody,
    /// The directory treats a malformed or unknown batch as empty
    /// results, not as a failure; preserving that keeps "no such file"
    /// from turning into an internal error.
    EmptyResult,
    /// Anything else: an upstream malfunction.
    Fail,
}

/// Classifies the status of a batch file-fetch response.
pub fn classify_files_response(status: u16) -> (r: FilesFetchStep)
    ensures
        200 <= status < 300 ==> r == FilesFetchStep::DecodeBody,
        status == 400 || status == 404 ==> r == FilesFetchStep::EmptyResult,
        !(200 <= status < 300) && status != 400 && status != 404 ==> r == FilesFetchStep::Fail,
{
    if 200 <= status && status < 300 {
        FilesFetchStep::DecodeBody
    } else if status == 400 || status == 404 {
        FilesFetchStep::EmptyResult
    } else {
        FilesFetchStep::Fail
    }
}

/// The mapping that indexing a sequence of records by id produces:
/// every id that occurs is a key, and the latest record with a given id
/// wins.
pub open spec fn spec_index_files(records: Seq<File>) -> Map<u64, File>
    decreases records.len(),
{
    if records.len() == 0 {
        Map::empty()
    } else {
        spec_index_files(records.drop_last()).insert(records.last().id, records.last())
    }
}

/// Indexes a batch of file records by file id, as the mapping the batch
/// endpoint's caller works with.
pub fn index_files(records: Vec<File>) -> (m: HashMap<u64, File>)
    ensures
        m@ == spec_index_files(records@),
{
    let ghost all = records@;
    let mut m: HashMap<u64, File> = HashMap::new();
    let mut rest = records;
    proof {
        assert(all.take(0) =~= Seq::<File>::empty());
    }
    while rest.len() > 0
        invariant
            rest@.len() <= all.len(),
            rest@ == all.skip(all.len() - rest@.len()),
            m@ == spec_index_files(all.take(all.len() - rest@.len())),
        decreases rest@.len(),
    {
        let ghost k = all.len() - rest@.len();
        let f = rest.remove(0);
        proof {
            assert(f == all[k]);
            assert(rest@ =~= all.skip(k + 1));
            assert(all.take(k + 1).drop_last() =~= all.take(k));
            assert(all.take(k + 1).last() == all[k]);
        }
        let id = f.id;
        m.insert(id, f);
    }
    proof {
        assert(all.take(all.len() as int) =~= all);
    }
    m
}

/// Picks the record for `file_id` out of an indexed batch: an empty
/// batch is a clean miss; a single record for exactly the requested id
/// is the match; anything else means the directory broke its
/// duplicate-id invariant and is a data-integrity failure, not a miss.
pub fn select_batch_record(file_id: u64, files: HashMap<u64, File>) -> (r: Result<
    Option<File>,
    DirectoryError,
>)
    ensures
        files@.len() == 0 ==> (r matches Ok(o) && o is None),
        files@.len() == 1 && files@.contains_key(file_id) ==> (r matches Ok(o) && o matches Some(f)
            && f == files@[file_id]),
        files@.len() == 1 && !files@.contains_key(file_id) ==> (r matches Err(e) && e
            == (DirectoryError::InconsistentBatch { file_id, records: 1u64 })),
        files@.len() > 1 ==> (r matches Err(e) && e == (DirectoryError::InconsistentBatch {
            file_id,
            records: files@.len() as u64,
        })),
{
    let n = files.len();
    if n == 0 {
        Ok(None)
    } else if n == 1 {
        let mut files = files;
        match files.remove(&file_id) {
            Some(f) => Ok(Some(f)),
            None => Err(DirectoryError::InconsistentBatch { file_id, records: 1u64 }),
        }
    } else {
        Err(DirectoryError::InconsistentBatch { file_id, records: n as u64 })
    }
}

/// Finishes a file lookup once the owning project has been fetched: a
/// found project completes the pair, and an absent one is a
/// referential-integrity failure of the directory, reported as an
/// internal error rather than a miss.
pub fn complete_file_lookup(file_id: u64, file: File, project: Option<Mod>) -> (r: Result<
    (Mod, File),
    DirectoryError,
>)
    ensures
        project matches Some(p) ==> (r matches Ok(pair) && pair.0 == p && pair.1 == file),
        project is None ==> (r matches Err(e) && e == (DirectoryError::ProjectMissing {
            project_id: file.project_id,
            file_id,
        })),
{
    match project {
        Some(p) => Ok((p, file)),
        None => Err(
            DirectoryError::ProjectMissing { project_id: file.project_id, file_id },
        ),
    }
}

} // verus!
