//! The application's data model: the records its other features exchange
//! with the front end, carried here as plain data.
use vstd::prelude::*;

verus! {

#[derive(Debug)]
pub struct TechStack {
    pub framework: Option<String>,
    pub language: Option<String>,
    pub package_manager: Option<String>,
    pub database: Option<String>,
    pub test_framework: Option<String>,
    pub has_planning: bool,
    /// Count of phase directories in .planning/phases/
    pub gsd_phase_count: Option<i32>,
    /// Count of pending .md files in .planning/todos/pending/
    pub gsd_todo_count: Option<i32>,
    /// Whether .planning/REQUIREMENTS.md exists
    pub gsd_has_requirements: bool,
    /// When conversion needs to be re-run
    pub gsd_conversion_incomplete: bool,
    /// Details about why GSD conversion is incomplete
    pub gsd_conversion_issues: Option<Vec<String>>,
}

#[derive(Debug)]
pub struct ProjectUpdate {
    pub name: Option<String>,
    pub description: Option<String>,
    pub status: Option<String>,
}

#[derive(Debug)]
pub struct Decision {
    pub id: String,
    pub project_id: String,
    pub execution_id: Option<String>,
    pub phase: Option<String>,
    pub category: Option<String>,
    pub question: String,
    pub answer: String,
    pub reasoning: Option<String>,
    pub tags: Option<String>,
    pub impact_status: Option<String>,
    pub impact_reason: Option<String>,
    pub impact_updated_at: Option<String>,
    pub created_at: String,
    pub updated_at: Option<String>,
}

#[derive(Debug)]
pub struct ScannerCategory {
    pub name: String,
    pub grade: String,
    pub summary: String,
    pub score: Option<u32>,
    pub issues: Option<u32>,
    pub priority: Option<String>,
    pub status: Option<String>,
}

#[derive(Debug)]
pub struct ScannerReport {
    pub name: String,
    pub relative_path: String,
    pub description: String,
}

#[derive(Debug)]
pub struct ScannerSummary {
    pub available: bool,
    pub overall_grade: Option<String>,
    pub scan_date: Option<String>,
    pub categories: Vec<ScannerCategory>,
    pub reports: Vec<ScannerReport>,
    pub total_gaps: Option<u32>,
    pub total_recommendations: Option<u32>,
    pub overall_score: Option<u32>,
    pub analysis_mode: Option<String>,
    pub project_phase: Option<String>,
    pub high_priority_actions: Vec<String>,
    pub source: Option<String>,
}

#[derive(Debug)]
pub struct DocsAvailable {
    pub has_project_md: bool,
    pub has_roadmap_md: bool,
    pub has_readme: bool,
    pub project_md_path: Option<String>,
}

#[derive(Debug)]
pub struct ProjectDocs {
    pub description: Option<String>,
    pub goal: Option<String>,
    pub source: String,
}

#[derive(Debug)]
pub struct ClaudeStatus {
    pub installed: bool,
    pub version: Option<String>,
    pub path: Option<String>,
}

#[derive(Debug)]
pub struct AppLogFilters {
    pub level: Option<String>,
    pub source: Option<String>,
    pub target: Option<String>,
    pub project_id: Option<String>,
    pub search: Option<String>,
    pub limit: Option<i32>,
    pub before: Option<String>,
}

#[derive(Debug)]
pub struct AppLogStats {
    pub total: i32,
    pub by_level: Vec<LevelCount>,
    pub by_source: Vec<SourceCount>,
}

#[derive(Debug)]
pub struct LevelCount {
    pub level: String,
    pub count: i32,
}

#[derive(Debug)]
pub struct SourceCount {
    pub source: String,
    pub count: i32,
}

#[derive(Debug)]
pub struct AppLogEvent {
    pub id: String,
    pub level: String,
    pub target: Option<String>,
    pub message: String,
    pub source: String,
    pub project_id: Option<String>,
    pub created_at: String,
}

#[derive(Debug)]
pub struct GlobalSearchResults {
    pub projects: Vec<ProjectSearchResult>,
    pub phases: Vec<PhaseSearchResult>,
    pub decisions: Vec<DecisionSearchResult>,
    pub knowledge: Vec<KnowledgeSearchResultItem>,
}

#[derive(Debug)]
pub struct ProjectSearchResult {
    pub id: String,
    pub name: String,
    pub description: Option<String>,
    pub status: String,
}

#[derive(Debug)]
pub struct PhaseSearchResult {
    pub id: String,
    pub name: String,
    pub goal: Option<String>,
    pub status: String,
    pub project_id: String,
    pub project_name: String,
}

#[derive(Debug)]
pub struct DecisionSearchResult {
    pub id: String,
    pub question: String,
    pub answer: String,
    pub category: Option<String>,
    pub project_id: String,
    pub project_name: String,
}

#[derive(Debug)]
pub struct KnowledgeSearchResultItem {
    pub id: String,
    pub title: String,
    pub category: String,
    pub project_id: String,
    pub project_name: String,
}

#[derive(Debug)]
pub struct GitInfo {
    pub branch: Option<String>,
    pub is_dirty: bool,
    pub has_git: bool,
}

#[derive(Debug)]
pub struct GitCommitInfo {
    pub hash: String,
    pub message: String,
    pub author: String,
    pub date: String,
}

#[derive(Debug)]
pub struct GitStatusDetail {
    pub has_git: bool,
    pub branch: Option<String>,
    pub is_dirty: bool,
    pub staged_count: u32,
    pub unstaged_count: u32,
    pub untracked_count: u32,
    pub ahead: u32,
    pub behind: u32,
    pub last_commit: Option<GitCommitInfo>,
    pub stash_count: u32,
}

#[derive(Debug)]
pub struct GitChangedFile {
    pub path: String,
    pub status: String,
    pub staged: bool,
}

#[derive(Debug)]
pub struct GitOperationResult {
    pub success: bool,
    pub message: String,
}

#[derive(Debug)]
pub struct GitLogEntry {
    pub hash: String,
    pub short_hash: String,
    pub message: String,
    pub author: String,
    pub date: String,
    pub files_changed: u32,
    pub insertions: u32,
    pub deletions: u32,
}

#[derive(Debug)]
pub struct CommandHistoryEntry {
    pub id: String,
    pub project_id: String,
    pub command: String,
    pub source: String,
    pub created_at: String,
}

#[derive(Debug)]
pub struct Snippet {
    pub id: String,
    pub project_id: Option<String>,
    pub label: String,
    pub command: String,
    pub description: Option<String>,
    pub category: String,
    pub created_at: String,
    pub updated_at: String,
}

#[derive(Debug)]
pub struct SnippetInput {
    pub label: String,
    pub command: String,
    pub description: Option<String>,
    pub category: Option<String>,
}

#[derive(Debug)]
pub struct ScriptFavorite {
    pub id: String,
    pub project_id: String,
    pub script_id: String,
    pub order_index: i32,
    pub created_at: String,
}

#[derive(Debug)]
pub struct AutoCommand {
    pub id: String,
    pub project_id: String,
    pub label: String,
    pub command: String,
    pub hook_type: String,
    pub enabled: bool,
    pub order_index: i32,
    pub preset: Option<String>,
    pub created_at: String,
    pub updated_at: String,
}

#[derive(Debug)]
pub struct AutoCommandInput {
    pub label: String,
    pub command: String,
    pub hook_type: Option<String>,
    pub preset: Option<String>,
}

#[derive(Debug)]
pub struct AutoCommandPreset {
    pub id: String,
    pub label: String,
    pub command: String,
    pub hook_type: String,
}

#[derive(Debug)]
pub struct MarkdownScanResult {
    pub total_files: usize,
    pub total_size_bytes: u64,
    pub folders: Vec<MarkdownFolderSummary>,
    pub warnings: Vec<String>,
}

#[derive(Debug)]
pub struct MarkdownFolderSummary {
    pub relative_path: String,
    pub display_name: String,
    pub file_count: usize,
}

#[derive(Debug)]
pub struct MarkdownIndexProgress {
    pub project_id: String,
    pub indexed: usize,
    pub total: usize,
    pub current_file: String,
}

#[derive(Debug)]
pub struct KnowledgeFileTree {
    pub folders: Vec<KnowledgeFolder>,
    pub total_files: usize,
}

#[derive(Debug)]
pub struct KnowledgeFolder {
    pub name: String,
    pub display_name: String,
    pub files: Vec<KnowledgeFileEntry>,
}

#[derive(Debug)]
pub struct KnowledgeFileEntry {
    pub relative_path: String,
    pub display_name: String,
    pub folder: String,
    pub size_bytes: u64,
}

#[derive(Debug)]
pub struct Notification {
    pub id: String,
    pub project_id: Option<String>,
    pub notification_type: String,
    pub title: String,
    pub message: String,
    pub link: Option<String>,
    pub read: bool,
    pub created_at: String,
}

#[derive(Debug)]
pub struct CreateNotificationInput {
    pub project_id: Option<String>,
    pub notification_type: String,
    pub title: String,
    pub message: String,
    pub link: Option<String>,
}

#[derive(Debug)]
pub struct EnvironmentInfo {
    pub git_branch: Option<String>,
    pub node_version: Option<String>,
    pub python_version: Option<String>,
    pub rust_version: Option<String>,
    pub working_directory: String,
}

#[derive(Debug)]
pub struct SaveTerminalSessionInput {
    pub project_id: String,
    pub tab_name: String,
    pub tab_type: String,
    pub working_directory: String,
    pub sort_order: i32,
    pub tmux_session: Option<String>,
}

#[derive(Debug)]
pub struct KnowledgeSearchMatch {
    pub file_path: String,
    pub display_name: String,
    pub line_number: usize,
    pub line_content: String,
    pub context_before: String,
    pub context_after: String,
}

#[derive(Debug)]
pub struct KnowledgeBookmark {
    pub id: String,
    pub project_id: String,
    pub file_path: String,
    pub heading: String,
    pub heading_level: i32,
    pub note: Option<String>,
    pub created_at: String,
}

#[derive(Debug)]
pub struct KnowledgeGraphNode {
    pub id: String,
    pub label: String,
    pub file_path: String,
    pub node_type: String,
}

#[derive(Debug)]
pub struct KnowledgeGraphEdge {
    pub source: String,
    pub target: String,
    pub label: Option<String>,
}

#[derive(Debug)]
pub struct KnowledgeGraph {
    pub nodes: Vec<KnowledgeGraphNode>,
    pub edges: Vec<KnowledgeGraphEdge>,
}

#[derive(Debug)]
pub struct GsdProjectInfo {
    pub vision: Option<String>,
    pub milestone: Option<String>,
    pub version: Option<String>,
    pub core_value: Option<String>,
    pub current_focus: Option<String>,
    pub raw_content: String,
}

#[derive(Debug)]
pub struct GsdState {
    pub current_position: Option<GsdCurrentPosition>,
    pub decisions: Vec<String>,
    pub pending_todos: Vec<String>,
    pub session_continuity: Option<String>,
    pub velocity: Option<GsdVelocity>,
    pub blockers: Vec<String>,
}

#[derive(Debug)]
pub struct GsdCurrentPosition {
    pub milestone: Option<String>,
    pub phase: Option<String>,
    pub plan: Option<String>,
    pub status: Option<String>,
    pub last_activity: Option<String>,
    pub progress: Option<String>,
}

#[derive(Debug)]
pub struct GsdRequirement {
    pub req_id: String,
    pub description: String,
    pub category: Option<String>,
    pub priority: Option<String>,
    pub status: Option<String>,
    pub phase: Option<String>,
}

#[derive(Debug)]
pub struct GsdMilestone {
    pub name: String,
    pub version: Option<String>,
    pub phase_start: Option<i32>,
    pub phase_end: Option<i32>,
    pub status: Option<String>,
    pub completed_at: Option<String>,
}

#[derive(Debug)]
pub struct GsdTodo {
    pub id: String,
    pub title: String,
    pub description: Option<String>,
    pub area: Option<String>,
    pub phase: Option<String>,
    pub priority: Option<String>,
    pub is_blocker: bool,
    pub files: Option<Vec<String>>,
    pub status: String,
    pub source_file: Option<String>,
    pub created_at: Option<String>,
    pub completed_at: Option<String>,
}

#[derive(Debug)]
pub struct GsdTodoInput {
    pub title: String,
    pub description: Option<String>,
    pub area: Option<String>,
    pub phase: Option<String>,
    pub priority: Option<String>,
    pub is_blocker: Option<bool>,
    pub files: Option<Vec<String>>,
}

#[derive(Debug)]
pub struct GsdDebugSession {
    pub id: String,
    pub title: String,
    pub error_type: Option<String>,
    pub status: String,
    pub summary: Option<String>,
    pub resolution: Option<String>,
    pub source_file: Option<String>,
    pub created_at: Option<String>,
    pub resolved_at: Option<String>,
}

#[derive(Debug)]
pub struct GsdResearchDoc {
    pub filename: String,
    pub title: Option<String>,
    pub category: Option<String>,
    pub content: String,
    pub source_file: String,
}

#[derive(Debug)]
pub struct GsdVerification {
    pub phase_number: i32,
    pub checks_total: i32,
    pub checks_passed: i32,
    pub result: Option<String>,
    pub gaps: Vec<String>,
    pub raw_content: String,
}

#[derive(Debug)]
pub struct GsdPhaseContext {
    pub decisions: Vec<String>,
    pub deferred_ideas: Vec<String>,
    pub raw_content: String,
}

#[derive(Debug)]
pub struct GsdSyncResult {
    pub todos_synced: i32,
    pub milestones_synced: i32,
    pub requirements_synced: i32,
    pub verifications_synced: i32,
    pub plans_synced: i32,
    pub summaries_synced: i32,
    pub phase_research_synced: i32,
    pub uat_synced: i32,
}

#[derive(Debug)]
pub struct GsdPlan {
    pub phase_number: i32,
    pub plan_number: i32,
    pub plan_type: Option<String>,
    pub group_number: Option<i32>,
    pub autonomous: bool,
    pub objective: Option<String>,
    pub task_count: i32,
    pub tasks: Vec<GsdPlanTask>,
    pub files_modified: Vec<String>,
    pub source_file: String,
}

#[derive(Debug)]
pub struct GsdPlanTask {
    pub name: String,
    pub task_type: Option<String>,
    pub files: Vec<String>,
}

#[derive(Debug)]
pub struct GsdSummary {
    pub phase_number: i32,
    pub plan_number: i32,
    pub subsystem: Option<String>,
    pub tags: Vec<String>,
    pub duration: Option<String>,
    pub completed: Option<String>,
    pub accomplishments: Vec<String>,
    pub decisions: Vec<GsdSummaryDecision>,
    pub files_created: Vec<String>,
    pub files_modified: Vec<String>,
    pub deviations: Option<String>,
    pub self_check: Option<String>,
    pub source_file: String,
}

#[derive(Debug)]
pub struct GsdSummaryDecision {
    pub decision: String,
    pub rationale: Option<String>,
}

#[derive(Debug)]
pub struct GsdPhaseResearch {
    pub phase_number: i32,
    pub domain: Option<String>,
    pub confidence: Option<String>,
    pub summary: Option<String>,
    pub anti_patterns: Vec<String>,
    pub pitfalls: Vec<String>,
    pub raw_content: String,
    pub source_file: String,
}

#[derive(Debug)]
pub struct GsdVelocity {
    pub total_plans: Option<i32>,
    pub avg_duration: Option<String>,
    pub total_time: Option<String>,
    pub by_phase: Vec<GsdPhaseVelocity>,
}

#[derive(Debug)]
pub struct GsdPhaseVelocity {
    pub phase: String,
    pub plans: i32,
    pub duration: String,
    pub avg_per_plan: String,
}

#[derive(Debug)]
pub struct GsdMilestoneAudit {
    pub version: Option<String>,
    pub status: Option<String>,
    pub req_score: Option<String>,
    pub phase_score: Option<String>,
    pub integration_score: Option<String>,
    pub gaps: Vec<String>,
    pub tech_debt: Vec<String>,
    pub raw_content: String,
    pub source_file: String,
}

#[derive(Debug)]
pub struct TaskVerification {
    pub task_id: String,
    pub requirement: Option<String>,
    pub test_type: String,   // "automated" | "manual"
    pub status: String,      // "pending" | "pass" | "fail"
}

#[derive(Debug)]
pub struct WaveTracking {
    pub wave_number: i32,
    pub task_ids: Vec<String>,
    pub status: Option<String>,
    pub tests_passed: Option<String>,
    pub issues: Option<String>,
}

#[derive(Debug)]
pub struct GsdValidation {
    pub id: String,
    pub project_id: String,
    pub phase_number: String,
    pub test_framework: Option<String>,
    pub quick_run_cmd: Option<String>,
    pub full_run_cmd: Option<String>,
    pub nyquist_rate: Option<String>,
    pub task_map: Vec<TaskVerification>,
    pub manual_checks: Vec<String>,
    pub wave_tracking: Vec<WaveTracking>,
    pub raw_content: Option<String>,
    pub source_file: Option<String>,
}

#[derive(Debug)]
pub struct UatTestResult {
    pub number: i32,
    pub test: String,
    pub expected: String,
    pub result: String,   // "pass" | "issue" | "pending" | "skipped"
    pub notes: Option<String>,
}

#[derive(Debug)]
pub struct UatIssue {
    pub severity: String,  // "blocker" | "major" | "minor" | "cosmetic"
    pub description: String,
}

#[derive(Debug)]
pub struct GsdUatResult {
    pub id: String,
    pub project_id: String,
    pub phase_number: String,
    pub session_number: i32,
    pub status: String,
    pub tests: Vec<UatTestResult>,
    pub issues: Vec<UatIssue>,
    pub gaps: Vec<String>,
    pub diagnosis: Option<String>,
    pub raw_content: Option<String>,
    pub source_file: Option<String>,
    // computed
    pub pass_count: i32,
    pub issue_count: i32,
    pub pending_count: i32,
}

} // verus!
