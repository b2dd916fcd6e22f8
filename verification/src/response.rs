//! Typed results of the client operations. These are plain values; the
//! transport layer decodes response bodies into them and hands them over.
//! Instants are carried as seconds since the Unix epoch.

use crate::task::TaskId;
use crate::task::TaskStatus;
use vstd::prelude::*;

verus! {

/// A struct with no fields, standing in for "no further record fields"
/// where a hit type is not supplied.
#[derive(Clone, Debug)]
pub struct FlattenEmpty {}

/// The result of adding or replacing an object.
#[derive(Clone, Debug)]
pub struct ObjectUpdateResponse {
    /// When the update was taken, in seconds since the Unix epoch.
    pub updated_at: i64,
    pub task_id: TaskId,
    pub object_id: String,
}

/// The result of deleting an object.
#[derive(Clone, Debug)]
pub struct ObjectDeleteResponse {
    /// When the deletion was taken, in seconds since the Unix epoch.
    pub deleted_at: i64,
    pub task_id: TaskId,
}

/// The result of a search.
#[derive(Clone, Debug)]
pub struct SearchResponse<T> {
    pub hits: Vec<Hit<T>>,
    pub page: usize,
    pub hit_count: usize,
    pub page_count: usize,
    pub hits_per_page: usize,
    pub processing_time_ms: usize,
    pub query: String,
    pub parsed_query: Option<String>,
    pub params: String,
}

/// One search hit: the identifying and ranking fields, and the caller's own
/// record type for the rest.
#[derive(Clone, Debug)]
pub struct Hit<T> {
    pub object_id: String,
    pub ranking_info: Option<RankingInfo>,
    pub distinct_seq_id: Option<usize>,
    pub inner: T,
}

/// How well a highlighted or snippeted attribute matched the query.
#[derive(Copy, Clone, Debug, PartialEq, Eq, Structural)]
pub enum MatchLevel {
    NoMatch,
    Partial,
    Full,
}

/// A highlighted attribute value.
#[derive(Clone, Debug)]
pub struct HighlightResult {
    pub value: String,
    pub match_level: MatchLevel,
}

/// A snippeted attribute value.
#[derive(Clone, Debug)]
pub struct SnippetResult {
    pub value: String,
    pub match_level: MatchLevel,
}

/// Detailed ranking information of one hit.
#[derive(Copy, Clone, Debug)]
pub struct RankingInfo {
    pub typo_count: usize,
    pub first_matched_word: usize,
    pub proximity_distance: usize,
    pub user_score: usize,
    pub geo_distance: usize,
    pub geo_precision: usize,
    pub exact_word_count: usize,
}

/// The status report of one task.
#[derive(Copy, Clone, Debug)]
pub struct TaskStatusResponse {
    pub status: TaskStatus,
    pub pending_task: bool,
}

/// The result of a settings update.
#[derive(Copy, Clone, Debug)]
pub struct SettingsUpdateResponse {
    /// When the update was taken, in seconds since the Unix epoch.
    pub updated_at: i64,
    pub task_id: TaskId,
}

/// The result of a batched write.
#[derive(Clone, Debug)]
pub struct BatchWriteResponse {
    pub task_id: TaskId,
    pub object_ids: Vec<String>,
}

} // verus!
