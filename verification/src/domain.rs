//! Core domain vocabulary: categories, policies, sources, task states and the
//! records that flow between the Pixiv client, the downloader and the index.
use vstd::prelude::*;

use crate::text::str_equals;

verus! {

/// Content rating of a Pixiv work as stored in the image index.
#[derive(Debug, Clone, Copy, PartialEq, Eq, Structural)]
pub enum ImageCategory {
    Normal,
    R18,
    Nsfw,
}

/// Which content ratings a download request is willing to accept.
#[derive(Debug, Clone, Copy, PartialEq, Eq, Structural)]
pub enum R18Policy {
    Exclude,
    IncludeBlurred,
    IncludeVisible,
    OnlyR18,
}

/// How an image entered the library.
#[derive(Debug, Clone, Copy, PartialEq, Eq, Structural)]
pub enum ImageSource {
    Single,
    Bookmark,
    Author,
    Top10,
    Random,
    Smart,
}

/// The kind of work a task performs.
#[derive(Debug, Clone, Copy, PartialEq, Eq, Structural)]
pub enum TaskType {
    Single,
    Bookmark,
    Author,
    Top10,
    Random,
    Smart,
}

/// Lifecycle state of a task.
#[derive(Debug, Clone, Copy, PartialEq, Eq, Structural)]
pub enum TaskStatus {
    Pending,
    Running,
    Completed,
    CompletedWithErrors,
    Failed,
    Cancelled,
}

/// Severity of a task log line.
#[derive(Debug, Clone, Copy, PartialEq, Eq, Structural)]
pub enum TaskLogLevel {
    Debug,
    Info,
    Warn,
    Error,
}

/// State of a single item inside a task.
#[derive(Debug, Clone, Copy, PartialEq, Eq, Structural)]
pub enum TaskItemStatus {
    Discovered,
    DuplicateSkipped,
    Downloading,
    Saved,
    ItemFailed,
    PolicySkipped,
}

/// Result of downloading one Pixiv page.
#[derive(Debug, Clone, Copy, PartialEq, Eq, Structural)]
pub enum DownloadItemStatus {
    Saved,
    SkippedDuplicate,
    SkippedByPolicy,
    Failed,
}

/// One page (image) of a Pixiv work.
#[derive(Debug, Clone, PartialEq, Eq)]
pub struct PixivPage {
    pub page_index: u32,
    pub original_url: String,
    pub width: Option<u32>,
    pub height: Option<u32>,
    pub extension: Option<String>,
}

/// Metadata of a Pixiv work.
#[derive(Debug, Clone, PartialEq, Eq)]
pub struct PixivWork {
    pub pixiv_id: String,
    pub title: Option<String>,
    pub author_uid: Option<String>,
    pub author_name: Option<String>,
    pub tags: Vec<String>,
    pub category: ImageCategory,
    pub pages: Vec<PixivPage>,
}

/// A reference to a Pixiv work discovered by a listing (author, bookmarks, search).
#[derive(Debug, Clone, PartialEq, Eq)]
pub struct PixivWorkRef {
    pub pixiv_id: String,
}

/// A request to download one page of one work.
#[derive(Debug, Clone, PartialEq, Eq)]
pub struct DownloadRequest {
    pub pixiv_id: String,
    pub page_index: Option<u32>,
    pub source: ImageSource,
    pub r18_policy: R18Policy,
}

/// What happened to a download request.  `local_path` is the planned or
/// existing file path, written with `/` separators.
#[derive(Debug, Clone, PartialEq, Eq)]
pub struct DownloadOutcome {
    pub pixiv_id: String,
    pub page_index: u32,
    pub status: DownloadItemStatus,
    pub local_path: Option<String>,
    pub metadata: Option<PixivWork>,
}

impl R18Policy {
    /// The wire name of each policy.
    pub open spec fn name(self) -> Seq<char> {
        match self {
            R18Policy::Exclude => "exclude"@,
            R18Policy::IncludeBlurred => "include_blurred"@,
            R18Policy::IncludeVisible => "include_visible"@,
            R18Policy::OnlyR18 => "only_r18"@,
        }
    }

    /// The policy whose wire name is `s`, if any.
    pub open spec fn parse(s: Seq<char>) -> Option<R18Policy> {
        if s == "exclude"@ {
            Some(R18Policy::Exclude)
        } else if s == "include_blurred"@ {
            Some(R18Policy::IncludeBlurred)
        } else if s == "include_visible"@ {
            Some(R18Policy::IncludeVisible)
        } else if s == "only_r18"@ {
            Some(R18Policy::OnlyR18)
        } else {
            None
        }
    }

    /// Reading a name back gives what was written: the name of every R18Policy
    /// parses to it, and a text parses to it only when it is its name.
    pub proof fn lemma_parse_name(self, text: Seq<char>)
        ensures
            R18Policy::parse(self.name()) == Some(self),
            R18Policy::parse(text) == Some(self) ==> self.name() == text,
    {
        reveal_strlit("exclude");
        reveal_strlit("include_blurred");
        reveal_strlit("include_visible");
        reveal_strlit("only_r18");
        match self {
            R18Policy::Exclude => {
            },
            R18Policy::IncludeBlurred => {
                assert("include_blurred"@.len() != "exclude"@.len());
            },
            R18Policy::IncludeVisible => {
                assert("include_visible"@.len() != "exclude"@.len());
                assert("include_visible"@[8] != "include_blurred"@[8]);
            },
            R18Policy::OnlyR18 => {
                assert("only_r18"@.len() != "exclude"@.len());
                assert("only_r18"@.len() != "include_blurred"@.len());
                assert("only_r18"@.len() != "include_visible"@.len());
            },
        }
    }

    /// Whether a work of `category` may be downloaded under this policy.
    pub open spec fn spec_allows(self, category: ImageCategory) -> bool {
        match self {
            R18Policy::Exclude => category == ImageCategory::Normal,
            R18Policy::IncludeBlurred | R18Policy::IncludeVisible => true,
            R18Policy::OnlyR18 => category == ImageCategory::R18 || category
                == ImageCategory::Nsfw,
        }
    }

    pub fn from_api(value: &str) -> (r: Option<R18Policy>)
        ensures
            r == R18Policy::parse(value@),
    {
        if str_equals(value, "exclude") {
            Some(R18Policy::Exclude)
        } else if str_equals(value, "include_blurred") {
            Some(R18Policy::IncludeBlurred)
        } else if str_equals(value, "include_visible") {
            Some(R18Policy::IncludeVisible)
        } else if str_equals(value, "only_r18") {
            Some(R18Policy::OnlyR18)
        } else {
            None
        }
    }

    pub fn allows(self, category: ImageCategory) -> (r: bool)
        ensures
            r == self.spec_allows(category),
    {
        match self {
            R18Policy::Exclude => category == ImageCategory::Normal,
            R18Policy::IncludeBlurred | R18Policy::IncludeVisible => true,
            R18Policy::OnlyR18 => category == ImageCategory::R18 || category
                == ImageCategory::Nsfw,
        }
    }

    /// What each policy lets through, for every category: `Exclude` only
    /// Normal works; `OnlyR18` exactly the R18 and Nsfw works, never a Normal
    /// one, so the two split the categories between them; the two including
    /// policies every work.
    pub proof fn lemma_policy_allows(category: ImageCategory)
        ensures
            R18Policy::Exclude.spec_allows(category) <==> category == ImageCategory::Normal,
            R18Policy::OnlyR18.spec_allows(category) <==> (category == ImageCategory::R18 || category
                == ImageCategory::Nsfw),
            !R18Policy::OnlyR18.spec_allows(ImageCategory::Normal),
            R18Policy::OnlyR18.spec_allows(category) <==> !R18Policy::Exclude.spec_allows(category),
            R18Policy::IncludeBlurred.spec_allows(category),
            R18Policy::IncludeVisible.spec_allows(category),
    {
    }

    pub fn as_str(self) -> (s: &'static str)
        ensures
            s@ == self.name(),
    {
        match self {
            R18Policy::Exclude => "exclude",
            R18Policy::IncludeBlurred => "include_blurred",
            R18Policy::IncludeVisible => "include_visible",
            R18Policy::OnlyR18 => "only_r18",
        }
    }
}

impl ImageCategory {
    pub open spec fn name(self) -> Seq<char> {
        match self {
            ImageCategory::Normal => "normal"@,
            ImageCategory::R18 => "r18"@,
            ImageCategory::Nsfw => "nsfw"@,
        }
    }

    pub open spec fn parse(s: Seq<char>) -> Option<ImageCategory> {
        if s == "normal"@ {
            Some(ImageCategory::Normal)
        } else if s == "r18"@ {
            Some(ImageCategory::R18)
        } else if s == "nsfw"@ {
            Some(ImageCategory::Nsfw)
        } else {
            None
        }
    }

    /// Reading a name back gives what was written: the name of every ImageCategory
    /// parses to it, and a text parses to it only when it is its name.
    pub proof fn lemma_parse_name(self, text: Seq<char>)
        ensures
            ImageCategory::parse(self.name()) == Some(self),
            ImageCategory::parse(text) == Some(self) ==> self.name() == text,
    {
        reveal_strlit("normal");
        reveal_strlit("r18");
        reveal_strlit("nsfw");
        match self {
            ImageCategory::Normal => {
            },
            ImageCategory::R18 => {
                assert("r18"@.len() != "normal"@.len());
            },
            ImageCategory::Nsfw => {
                assert("nsfw"@.len() != "normal"@.len());
                assert("nsfw"@.len() != "r18"@.len());
            },
        }
    }

    pub fn as_str(self) -> (s: &'static str)
        ensures
            s@ == self.name(),
    {
        match self {
            ImageCategory::Normal => "normal",
            ImageCategory::R18 => "r18",
            ImageCategory::Nsfw => "nsfw",
        }
    }

    pub fn from_db(value: &str) -> (r: Option<ImageCategory>)
        ensures
            r == ImageCategory::parse(value@),
    {
        if str_equals(value, "normal") {
            Some(ImageCategory::Normal)
        } else if str_equals(value, "r18") {
            Some(ImageCategory::R18)
        } else if str_equals(value, "nsfw") {
            Some(ImageCategory::Nsfw)
        } else {
            None
        }
    }
}

impl ImageSource {
    pub open spec fn name(self) -> Seq<char> {
        match self {
            ImageSource::Single => "single"@,
            ImageSource::Bookmark => "bookmark"@,
            ImageSource::Author => "author"@,
            ImageSource::Top10 => "top10"@,
            ImageSource::Random => "random"@,
            ImageSource::Smart => "smart"@,
        }
    }

    pub open spec fn parse(s: Seq<char>) -> Option<ImageSource> {
        if s == "single"@ {
            Some(ImageSource::Single)
        } else if s == "bookmark"@ {
            Some(ImageSource::Bookmark)
        } else if s == "author"@ {
            Some(ImageSource::Author)
        } else if s == "top10"@ {
            Some(ImageSource::Top10)
        } else if s == "random"@ {
            Some(ImageSource::Random)
        } else if s == "smart"@ {
            Some(ImageSource::Smart)
        } else {
            None
        }
    }

    /// Reading a name back gives what was written: the name of every ImageSource
    /// parses to it, and a text parses to it only when it is its name.
    pub proof fn lemma_parse_name(self, text: Seq<char>)
        ensures
            ImageSource::parse(self.name()) == Some(self),
            ImageSource::parse(text) == Some(self) ==> self.name() == text,
    {
        reveal_strlit("single");
        reveal_strlit("bookmark");
        reveal_strlit("author");
        reveal_strlit("top10");
        reveal_strlit("random");
        reveal_strlit("smart");
        match self {
            ImageSource::Single => {
            },
            ImageSource::Bookmark => {
                assert("bookmark"@.len() != "single"@.len());
            },
            ImageSource::Author => {
                assert("author"@[0] != "single"@[0]);
                assert("author"@.len() != "bookmark"@.len());
            },
            ImageSource::Top10 => {
                assert("top10"@.len() != "single"@.len());
                assert("top10"@.len() != "bookmark"@.len());
                assert("top10"@.len() != "author"@.len());
            },
            ImageSource::Random => {
                assert("random"@[0] != "single"@[0]);
                assert("random"@.len() != "bookmark"@.len());
                assert("random"@[0] != "author"@[0]);
                assert("random"@.len() != "top10"@.len());
            },
            ImageSource::Smart => {
                assert("smart"@.len() != "single"@.len());
                assert("smart"@.len() != "bookmark"@.len());
                assert("smart"@.len() != "author"@.len());
                assert("smart"@[0] != "top10"@[0]);
                assert("smart"@.len() != "random"@.len());
            },
        }
    }

    pub fn as_str(self) -> (s: &'static str)
        ensures
            s@ == self.name(),
    {
        match self {
            ImageSource::Single => "single",
            ImageSource::Bookmark => "bookmark",
            ImageSource::Author => "author",
            ImageSource::Top10 => "top10",
            ImageSource::Random => "random",
            ImageSource::Smart => "smart",
        }
    }

    pub fn from_db(value: &str) -> (r: Option<ImageSource>)
        ensures
            r == ImageSource::parse(value@),
    {
        if str_equals(value, "single") {
            Some(ImageSource::Single)
        } else if str_equals(value, "bookmark") {
            Some(ImageSource::Bookmark)
        } else if str_equals(value, "author") {
            Some(ImageSource::Author)
        } else if str_equals(value, "top10") {
            Some(ImageSource::Top10)
        } else if str_equals(value, "random") {
            Some(ImageSource::Random)
        } else if str_equals(value, "smart") {
            Some(ImageSource::Smart)
        } else {
            None
        }
    }
}

impl TaskType {
    pub open spec fn name(self) -> Seq<char> {
        match self {
            TaskType::Single => "single"@,
            TaskType::Bookmark => "bookmark"@,
            TaskType::Author => "author"@,
            TaskType::Top10 => "top10"@,
            TaskType::Random => "random"@,
            TaskType::Smart => "smart"@,
        }
    }

    pub open spec fn parse(s: Seq<char>) -> Option<TaskType> {
        if s == "single"@ {
            Some(TaskType::Single)
        } else if s == "bookmark"@ {
            Some(TaskType::Bookmark)
        } else if s == "author"@ {
            Some(TaskType::Author)
        } else if s == "top10"@ {
            Some(TaskType::Top10)
        } else if s == "random"@ {
            Some(TaskType::Random)
        } else if s == "smart"@ {
            Some(TaskType::Smart)
        } else {
            None
        }
    }

    pub fn as_str(self) -> (s: &'static str)
        ensures
            s@ == self.name(),
    {
        match self {
            TaskType::Single => "single",
            TaskType::Bookmark => "bookmark",
            TaskType::Author => "author",
            TaskType::Top10 => "top10",
            TaskType::Random => "random",
            TaskType::Smart => "smart",
        }
    }

    pub fn from_db(value: &str) -> (r: Option<TaskType>)
        ensures
            r == TaskType::parse(value@),
    {
        if str_equals(value, "single") {
            Some(TaskType::Single)
        } else if str_equals(value, "bookmark") {
            Some(TaskType::Bookmark)
        } else if str_equals(value, "author") {
            Some(TaskType::Author)
        } else if str_equals(value, "top10") {
            Some(TaskType::Top10)
        } else if str_equals(value, "random") {
            Some(TaskType::Random)
        } else if str_equals(value, "smart") {
            Some(TaskType::Smart)
        } else {
            None
        }
    }
}

impl TaskStatus {
    pub open spec fn name(self) -> Seq<char> {
        match self {
            TaskStatus::Pending => "pending"@,
            TaskStatus::Running => "running"@,
            TaskStatus::Completed => "completed"@,
            TaskStatus::CompletedWithErrors => "completed_with_errors"@,
            TaskStatus::Failed => "failed"@,
            TaskStatus::Cancelled => "cancelled"@,
        }
    }

    pub open spec fn parse(s: Seq<char>) -> Option<TaskStatus> {
        if s == "pending"@ {
            Some(TaskStatus::Pending)
        } else if s == "running"@ {
            Some(TaskStatus::Running)
        } else if s == "completed"@ {
            Some(TaskStatus::Completed)
        } else if s == "completed_with_errors"@ {
            Some(TaskStatus::CompletedWithErrors)
        } else if s == "failed"@ {
            Some(TaskStatus::Failed)
        } else if s == "cancelled"@ {
            Some(TaskStatus::Cancelled)
        } else {
            None
        }
    }

    /// Reading a name back gives what was written: the name of every TaskStatus
    /// parses to it, and a text parses to it only when it is its name.
    pub proof fn lemma_parse_name(self, text: Seq<char>)
        ensures
            TaskStatus::parse(self.name()) == Some(self),
            TaskStatus::parse(text) == Some(self) ==> self.name() == text,
    {
        reveal_strlit("pending");
        reveal_strlit("running");
        reveal_strlit("completed");
        reveal_strlit("completed_with_errors");
        reveal_strlit("failed");
        reveal_strlit("cancelled");
        match self {
            TaskStatus::Pending => {
            },
            TaskStatus::Running => {
                assert("running"@[0] != "pending"@[0]);
            },
            TaskStatus::Completed => {
                assert("completed"@.len() != "pending"@.len());
                assert("completed"@.len() != "running"@.len());
            },
            TaskStatus::CompletedWithErrors => {
                assert("completed_with_errors"@.len() != "pending"@.len());
                assert("completed_with_errors"@.len() != "running"@.len());
                assert("completed_with_errors"@.len() != "completed"@.len());
            },
            TaskStatus::Failed => {
                assert("failed"@.len() != "pending"@.len());
                assert("failed"@.len() != "running"@.len());
                assert("failed"@.len() != "completed"@.len());
                assert("failed"@.len() != "completed_with_errors"@.len());
            },
            TaskStatus::Cancelled => {
                assert("cancelled"@.len() != "pending"@.len());
                assert("cancelled"@.len() != "running"@.len());
                assert("cancelled"@[1] != "completed"@[1]);
                assert("cancelled"@.len() != "completed_with_errors"@.len());
                assert("cancelled"@.len() != "failed"@.len());
            },
        }
    }

    /// A task in a terminal state never changes again.
    pub open spec fn spec_is_terminal(self) -> bool {
        !(self == TaskStatus::Pending || self == TaskStatus::Running)
    }

    /// The terminal statuses are exactly the four ways a task ends.
    pub proof fn lemma_terminal_statuses(self)
        ensures
            self.spec_is_terminal() <==> (self == TaskStatus::Completed || self == TaskStatus::CompletedWithErrors
                || self == TaskStatus::Failed || self == TaskStatus::Cancelled),
    {
    }

    pub fn as_str(self) -> (s: &'static str)
        ensures
            s@ == self.name(),
    {
        match self {
            TaskStatus::Pending => "pending",
            TaskStatus::Running => "running",
            TaskStatus::Completed => "completed",
            TaskStatus::CompletedWithErrors => "completed_with_errors",
            TaskStatus::Failed => "failed",
            TaskStatus::Cancelled => "cancelled",
        }
    }

    pub fn from_db(value: &str) -> (r: Option<TaskStatus>)
        ensures
            r == TaskStatus::parse(value@),
    {
        if str_equals(value, "pending") {
            Some(TaskStatus::Pending)
        } else if str_equals(value, "running") {
            Some(TaskStatus::Running)
        } else if str_equals(value, "completed") {
            Some(TaskStatus::Completed)
        } else if str_equals(value, "completed_with_errors") {
            Some(TaskStatus::CompletedWithErrors)
        } else if str_equals(value, "failed") {
            Some(TaskStatus::Failed)
        } else if str_equals(value, "cancelled") {
            Some(TaskStatus::Cancelled)
        } else {
            None
        }
    }

    pub fn is_terminal(self) -> (r: bool)
        ensures
            r == self.spec_is_terminal(),
    {
        match self {
            TaskStatus::Completed | TaskStatus::CompletedWithErrors | TaskStatus::Failed
            | TaskStatus::Cancelled => true,
            _ => false,
        }
    }
}

impl TaskLogLevel {
    pub open spec fn name(self) -> Seq<char> {
        match self {
            TaskLogLevel::Debug => "debug"@,
            TaskLogLevel::Info => "info"@,
            TaskLogLevel::Warn => "warn"@,
            TaskLogLevel::Error => "error"@,
        }
    }

    pub open spec fn parse(s: Seq<char>) -> Option<TaskLogLevel> {
        if s == "debug"@ {
            Some(TaskLogLevel::Debug)
        } else if s == "info"@ {
            Some(TaskLogLevel::Info)
        } else if s == "warn"@ {
            Some(TaskLogLevel::Warn)
        } else if s == "error"@ {
            Some(TaskLogLevel::Error)
        } else {
            None
        }
    }

    pub fn as_str(self) -> (s: &'static str)
        ensures
            s@ == self.name(),
    {
        match self {
            TaskLogLevel::Debug => "debug",
            TaskLogLevel::Info => "info",
            TaskLogLevel::Warn => "warn",
            TaskLogLevel::Error => "error",
        }
    }

    pub fn from_db(value: &str) -> (r: Option<TaskLogLevel>)
        ensures
            r == TaskLogLevel::parse(value@),
    {
        if str_equals(value, "debug") {
            Some(TaskLogLevel::Debug)
        } else if str_equals(value, "info") {
            Some(TaskLogLevel::Info)
        } else if str_equals(value, "warn") {
            Some(TaskLogLevel::Warn)
        } else if str_equals(value, "error") {
            Some(TaskLogLevel::Error)
        } else {
            None
        }
    }
}

impl TaskItemStatus {
    pub open spec fn name(self) -> Seq<char> {
        match self {
            TaskItemStatus::Discovered => "discovered"@,
            TaskItemStatus::DuplicateSkipped => "duplicate_skipped"@,
            TaskItemStatus::Downloading => "downloading"@,
            TaskItemStatus::Saved => "saved"@,
            TaskItemStatus::ItemFailed => "item_failed"@,
            TaskItemStatus::PolicySkipped => "policy_skipped"@,
        }
    }

    pub open spec fn parse(s: Seq<char>) -> Option<TaskItemStatus> {
        if s == "discovered"@ {
            Some(TaskItemStatus::Discovered)
        } else if s == "duplicate_skipped"@ {
            Some(TaskItemStatus::DuplicateSkipped)
        } else if s == "downloading"@ {
            Some(TaskItemStatus::Downloading)
        } else if s == "saved"@ {
            Some(TaskItemStatus::Saved)
        } else if s == "item_failed"@ {
            Some(TaskItemStatus::ItemFailed)
        } else if s == "policy_skipped"@ {
            Some(TaskItemStatus::PolicySkipped)
        } else {
            None
        }
    }

    /// Reading a name back gives what was written: the name of every TaskItemStatus
    /// parses to it, and a text parses to it only when it is its name.
    pub proof fn lemma_parse_name(self, text: Seq<char>)
        ensures
            TaskItemStatus::parse(self.name()) == Some(self),
            TaskItemStatus::parse(text) == Some(self) ==> self.name() == text,
    {
        reveal_strlit("discovered");
        reveal_strlit("duplicate_skipped");
        reveal_strlit("downloading");
        reveal_strlit("saved");
        reveal_strlit("item_failed");
        reveal_strlit("policy_skipped");
        match self {
            TaskItemStatus::Discovered => {
            },
            TaskItemStatus::DuplicateSkipped => {
                assert("duplicate_skipped"@.len() != "discovered"@.len());
            },
            TaskItemStatus::Downloading => {
                assert("downloading"@.len() != "discovered"@.len());
                assert("downloading"@.len() != "duplicate_skipped"@.len());
            },
            TaskItemStatus::Saved => {
                assert("saved"@.len() != "discovered"@.len());
                assert("saved"@.len() != "duplicate_skipped"@.len());
                assert("saved"@.len() != "downloading"@.len());
            },
            TaskItemStatus::ItemFailed => {
                assert("item_failed"@.len() != "discovered"@.len());
                assert("item_failed"@.len() != "duplicate_skipped"@.len());
                assert("item_failed"@[0] != "downloading"@[0]);
                assert("item_failed"@.len() != "saved"@.len());
            },
            TaskItemStatus::PolicySkipped => {
                assert("policy_skipped"@.len() != "discovered"@.len());
                assert("policy_skipped"@.len() != "duplicate_skipped"@.len());
                assert("policy_skipped"@.len() != "downloading"@.len());
                assert("policy_skipped"@.len() != "saved"@.len());
                assert("policy_skipped"@.len() != "item_failed"@.len());
            },
        }
    }

    pub fn as_str(self) -> (s: &'static str)
        ensures
            s@ == self.name(),
    {
        match self {
            TaskItemStatus::Discovered => "discovered",
            TaskItemStatus::DuplicateSkipped => "duplicate_skipped",
            TaskItemStatus::Downloading => "downloading",
            TaskItemStatus::Saved => "saved",
            TaskItemStatus::ItemFailed => "item_failed",
            TaskItemStatus::PolicySkipped => "policy_skipped",
        }
    }

    pub fn from_db(value: &str) -> (r: Option<TaskItemStatus>)
        ensures
            r == TaskItemStatus::parse(value@),
    {
        if str_equals(value, "discovered") {
            Some(TaskItemStatus::Discovered)
        } else if str_equals(value, "duplicate_skipped") {
            Some(TaskItemStatus::DuplicateSkipped)
        } else if str_equals(value, "downloading") {
            Some(TaskItemStatus::Downloading)
        } else if str_equals(value, "saved") {
            Some(TaskItemStatus::Saved)
        } else if str_equals(value, "item_failed") {
            Some(TaskItemStatus::ItemFailed)
        } else if str_equals(value, "policy_skipped") {
            Some(TaskItemStatus::PolicySkipped)
        } else {
            None
        }
    }
}

impl DownloadItemStatus {
    pub open spec fn name(self) -> Seq<char> {
        match self {
            DownloadItemStatus::Saved => "saved"@,
            DownloadItemStatus::SkippedDuplicate => "skipped_duplicate"@,
            DownloadItemStatus::SkippedByPolicy => "skipped_by_policy"@,
            DownloadItemStatus::Failed => "failed"@,
        }
    }

    pub fn as_str(self) -> (s: &'static str)
        ensures
            s@ == self.name(),
    {
        match self {
            DownloadItemStatus::Saved => "saved",
            DownloadItemStatus::SkippedDuplicate => "skipped_duplicate",
            DownloadItemStatus::SkippedByPolicy => "skipped_by_policy",
            DownloadItemStatus::Failed => "failed",
        }
    }
}

} // verus!
