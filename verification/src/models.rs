//! The records that the library reads and writes: fetched problems, the
//! local problem index, and the parts of Luogu's API responses that the
//! commands use.
#![allow(non_snake_case)]

use crate::json::JsonValue;
use vstd::prelude::*;

verus! {

// ── Local data ──────────────────────────────────────────────────────

/// One entry of the local problem index `.luogu/problems.json`.
pub struct ProblemRecord {
    pub pid: String,
    pub title: String,
    pub difficulty: Option<i32>,
    pub difficulty_label: String,
    pub time_limit_ms: Option<i64>,
    pub memory_limit_kb: Option<i64>,
    pub tags: Vec<i64>,
    pub fetched_at: String,
    pub url: String,
}

/// A problem as fetched: its metadata, statement and samples.
pub struct ParsedProblem {
    pub pid: String,
    pub title: String,
    pub difficulty: Option<i32>,
    pub limits_time_ms: Option<i64>,
    pub limits_memory_kb: Option<i64>,
    pub tags: Vec<i64>,
    pub markdown: String,
    pub samples: Vec<(String, String)>,
    pub provider: Option<String>,
    pub total_accepted: Option<i64>,
    pub total_submit: Option<i64>,
}

// ── API wrappers ────────────────────────────────────────────────────

pub struct LentilleResponse<T> {
    pub data: T,
    pub user: Option<JsonValue>,
    pub time: i64,
}

pub struct DataResponse<T> {
    pub currentData: T,
    pub code: i64,
}

// ── Problems ────────────────────────────────────────────────────────

pub struct ProblemData {
    pub problem: ProblemDetails,
    pub bookmarked: bool,
    pub recommendations: Vec<ProblemSummary>,
    pub translations: JsonValue,
    pub lastLanguage: Option<i64>,
    pub lastCode: Option<String>,
    pub canEdit: bool,
}

pub struct ProblemDetails {
    pub pid: String,
    pub title: String,
    pub difficulty: Option<i64>,
    pub tags: Vec<i64>,
    pub content: ProblemContent,
    pub samples: Vec<(String, String)>,
    pub limits: ProblemLimits,
    pub provider: Option<JsonValue>,
    pub totalSubmit: Option<i64>,
    pub totalAccepted: Option<i64>,
    pub flag: Option<i64>,
    pub wantsTranslation: Option<bool>,
}

pub struct ProblemContent {
    pub name: String,
    pub background: Option<String>,
    pub description: Option<String>,
    pub formatI: Option<String>,
    pub formatO: Option<String>,
    pub hint: Option<String>,
}

pub struct ProblemLimits {
    pub time: Vec<i64>,
    pub memory: Vec<i64>,
}

pub struct ProblemSummary {
    pub pid: String,
    pub title: String,
    pub difficulty: Option<i64>,
    pub ptype: Option<String>,
}

pub struct ProblemListParams {
    pub page: Option<i64>,
    pub keyword: Option<String>,
    pub difficulty: Option<i64>,
    pub ptype: Option<String>,
    pub tag: Option<String>,
    pub orderBy: Option<String>,
    pub order: Option<String>,
}

pub struct ProblemListData {
    pub result: Vec<LegacyProblemWithStatus>,
    pub count: i64,
    pub perPage: Option<i64>,
}

pub struct LegacyProblemSummary {
    pub pid: String,
    pub title: String,
    pub difficulty: Option<i64>,
    pub fullScore: Option<i64>,
}

pub struct LegacyProblem {
    pub pid: String,
    pub title: String,
    pub difficulty: Option<i64>,
    pub tags: Vec<i64>,
    pub totalSubmit: Option<i64>,
    pub totalAccepted: Option<i64>,
    pub flag: Option<i64>,
}

pub struct MaybeProblemStatus {
    pub submitted: Option<bool>,
    pub accepted: Option<bool>,
}

pub struct LegacyProblemWithStatus {
    pub pid: String,
    pub title: String,
    pub difficulty: Option<i64>,
    pub tags: Option<Vec<i64>>,
    pub totalSubmit: Option<i64>,
    pub totalAccepted: Option<i64>,
    pub flag: Option<i64>,
    pub submitted: Option<bool>,
    pub accepted: Option<bool>,
    pub fullScore: Option<i64>,
}

// ── Training sets ───────────────────────────────────────────────────

pub struct ProblemSetProblemList {
    pub result: Vec<ProblemSetProblemEntry>,
    pub count: i64,
    pub perPage: Option<i64>,
}

pub struct ProblemSetProblemEntry {
    pub problem: LegacyProblem,
}

pub struct ProblemSetListParams {
    pub page: Option<i64>,
    pub keyword: Option<String>,
    pub ptype: Option<String>,
}

pub struct ProblemSetList {
    pub result: Vec<ProblemSet>,
    pub count: i64,
    pub perPage: Option<i64>,
}

pub struct ProblemSet {
    pub id: i64,
    pub name: String,
    pub ptype: i64,
    pub problemCount: i64,
    pub markCount: i64,
    pub createTime: i64,
}

// ── Contests ────────────────────────────────────────────────────────

pub struct ContestProblemEntry {
    pub score: i64,
    pub problem: ProblemSummary,
}

pub struct ContestListParams {
    pub page: Option<i64>,
    pub name: Option<String>,
    pub method: Option<i64>,
    pub public: Option<i64>,
}

pub struct ContestSummary {
    pub id: i64,
    pub name: String,
    pub startTime: i64,
    pub endTime: i64,
    pub method: i64,
    pub visibility: i64,
    pub host: JsonValue,
    pub problemCount: i64,
    pub rated: JsonValue,
}

// ── Users ───────────────────────────────────────────────────────────

pub struct UserDetails {
    pub uid: i64,
    pub name: String,
    pub avatar: String,
    pub color: String,
    pub slogan: Option<String>,
    pub badge: Option<String>,
    pub isAdmin: bool,
    pub isBanned: bool,
    pub ccfLevel: i64,
    pub followingCount: i64,
    pub followerCount: i64,
    pub ranking: Option<i64>,
    pub eloValue: Option<i64>,
    pub registerTime: i64,
    pub introduction: Option<String>,
    pub passedProblemCount: Option<i64>,
    pub submittedProblemCount: Option<i64>,
}

pub struct UserData {
    pub user: UserDetails,
    pub elo: Vec<EloRating>,
    pub gu: GuRating,
    pub dailyCounts: JsonValue,
}

pub struct EloRating {
    pub rating: i64,
    pub time: i64,
    pub latest: bool,
    pub userCount: Option<i64>,
    pub prevDiff: Option<i64>,
    pub contest: Option<JsonValue>,
}

pub struct GuRating {
    pub rating: i64,
    pub time: i64,
    pub scores: GuRatingScores,
}

pub struct GuRatingScores {
    pub rating: i64,
    pub social: i64,
    pub basic: i64,
    pub contest: i64,
    pub practice: i64,
    pub prize: i64,
}

pub struct UserSearchResult {
    pub users: Vec<Option<UserSummary>>,
}

pub struct UserSummary {
    pub uid: i64,
    pub name: String,
    pub avatar: String,
    pub color: String,
    pub slogan: Option<String>,
    pub badge: Option<String>,
    pub isAdmin: bool,
    pub isBanned: bool,
    pub ccfLevel: i64,
}

// ── Solutions ───────────────────────────────────────────────────────

pub struct SolutionsData {
    pub solutions: SolutionList,
    pub problem: ProblemSummary,
}

pub struct SolutionList {
    pub result: Vec<ArticleDetails>,
    pub count: i64,
    pub perPage: Option<i64>,
}

pub struct ArticleDetails {
    pub lid: String,
    pub title: String,
    pub content: Option<String>,
    pub author: UserSummary,
    pub time: i64,
    pub upvote: i64,
    pub replyCount: i64,
    pub status: i64,
}

// ── Records ─────────────────────────────────────────────────────────

pub struct RecordBase {
    pub id: i64,
    pub status: i64,
    pub score: Option<i64>,
    pub time: Option<i64>,
    pub memory: Option<i64>,
    pub submitTime: i64,
    pub language: i64,
    pub enableO2: bool,
    pub problem: LegacyProblemSummary,
    pub contest: Option<JsonValue>,
    pub user: Option<UserSummary>,
}

pub struct RecordData {
    pub record: RecordDetails,
    pub testCaseGroup: JsonValue,
    pub showStatus: bool,
}

pub struct RecordDetails {
    pub id: i64,
    pub status: i64,
    pub score: Option<i64>,
    pub time: Option<i64>,
    pub memory: Option<i64>,
    pub submitTime: i64,
    pub language: i64,
    pub enableO2: bool,
    pub problem: LegacyProblemSummary,
    pub sourceCode: Option<String>,
    pub detail: Option<RecordStatus>,
    pub user: Option<UserSummary>,
    pub contest: Option<JsonValue>,
}

pub struct RecordStatus {
    pub compileResult: Option<CompileResult>,
    pub judgeResult: Option<JudgeResult>,
    pub version: i64,
}

pub struct JudgeResult {
    pub subtasks: JsonValue,
    pub finishedCaseCount: i64,
    pub status: i64,
    pub time: i64,
    pub memory: i64,
    pub score: i64,
}

pub struct CompileResult {
    pub success: bool,
    pub message: Option<String>,
    pub opt2: bool,
}

pub struct RecordListParams {
    pub page: Option<i64>,
    pub pid: Option<String>,
    pub user: Option<String>,
    pub status: Option<i64>,
    pub language: Option<i64>,
}

// ── Tags ────────────────────────────────────────────────────────────

pub struct TagsResponse {
    pub tags: Vec<Tag>,
    pub types: Vec<TagType>,
    pub version: i64,
}

pub struct Tag {
    pub id: i64,
    pub name: String,
    pub ptype: i64,
    pub parent: Option<i64>,
}

pub struct TagType {
    pub id: i64,
    pub name: String,
    pub color: String,
}

// ── Rankings ────────────────────────────────────────────────────────

pub struct RankingData {
    pub ranking: RankingList,
}

pub struct RankingList {
    pub result: Vec<GuRatingDetails>,
    pub count: i64,
    pub perPage: Option<i64>,
}

pub struct GuRatingDetails {
    pub user: UserSummary,
    pub rating: i64,
    pub time: i64,
    pub scores: GuRatingScores,
}

pub struct EloRankingData {
    pub ranking: EloRankingList,
}

pub struct EloRankingList {
    pub result: Vec<EloRatingDetails>,
    pub count: i64,
    pub perPage: Option<i64>,
}

pub struct EloRatingDetails {
    pub user: UserSummary,
    pub rating: i64,
    pub time: i64,
    pub previous: Option<Box<EloRatingDetails>>,
    pub userCount: Option<i64>,
    pub prevDiff: Option<i64>,
}

// ── Submitting ──────────────────────────────────────────────────────

pub struct SubmitCodeRequest {
    pub code: String,
    pub lang: Option<i64>,
    pub enableO2: Option<i64>,
    pub captcha: Option<String>,
}

pub struct SubmitResponse {
    pub rid: i64,
}

pub struct DifficultyInfo {
    pub id: i64,
    pub name: String,
    pub color: String,
}

} // verus!
