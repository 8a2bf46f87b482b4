//! The request descriptors that the command line parses into, as plain
//! values, and the small decisions they carry: whether a job is polled and
//! whether the captured image is shown in the terminal. The flag parsing
//! itself happens outside the library; these types hold its result.

use vstd::prelude::*;

verus! {

/// Arguments of the asynchronous capture command.
#[derive(Debug, Clone)]
pub struct AsyncArgs {
    pub url: String,
    pub output: Option<String>,
    pub device: Option<String>,
    pub format: String,
    pub full_page: bool,
    pub poll: bool,
    pub no_poll: bool,
    pub poll_interval: u64,
    pub display: bool,
    pub no_display: bool,
}

impl AsyncArgs {
    /// Whether the job is polled to completion, or only created.
    pub fn should_poll(&self) -> (r: bool)
        ensures
            r == (!self.no_poll && self.poll),
    {
        !self.no_poll && self.poll
    }

    /// Whether the captured image is shown in the terminal: asked for, or
    /// going nowhere else — unless display is switched off.
    pub fn should_display(&self) -> (r: bool)
        ensures
            r == (!self.no_display && (self.display || self.output is None)),
    {
        if self.no_display {
            return false;
        }
        self.display || self.output.is_none()
    }
}

/// Arguments of the synchronous capture command.
#[derive(Debug, Clone)]
pub struct CaptureArgs {
    pub url: String,
    pub output: Option<String>,
    pub device: Option<String>,
    pub width: Option<u32>,
    pub height: Option<u32>,
    pub format: String,
    pub full_page: bool,
    pub quality: Option<i32>,
    pub delay: Option<i32>,
    pub wait_for: Option<String>,
    pub wait_until: Option<String>,
    pub dark_mode: bool,
    pub block_ads: bool,
    pub block_cookies: bool,
    pub block_level: Option<String>,
    pub selector: Option<String>,
    pub custom_css: Option<String>,
    pub display: bool,
    pub no_display: bool,
    pub clipboard: bool,
}

impl CaptureArgs {
    /// Whether the captured image is shown in the terminal.
    pub fn should_display(&self) -> (r: bool)
        ensures
            r == (!self.no_display && (self.display || self.output is None)),
    {
        if self.no_display {
            return false;
        }
        self.display || self.output.is_none()
    }
}

/// Arguments of the batch capture command.
#[derive(Debug, Clone)]
pub struct BatchArgs {
    pub urls: Vec<String>,
    pub file: Option<String>,
    pub output_dir: String,
    pub device: Option<String>,
    pub format: String,
    pub full_page: bool,
    pub progress: bool,
    pub poll_interval: u64,
}

/// Arguments of the composition command.
#[derive(Debug, Clone)]
pub struct ComposeArgs {
    pub urls: Vec<String>,
    pub output: Option<String>,
    pub layout: String,
    pub columns: Option<i32>,
    pub spacing: Option<i32>,
    pub padding: Option<i32>,
    pub background: Option<String>,
    pub format: String,
    pub quality: Option<i32>,
    pub device: Option<String>,
    pub full_page: bool,
    pub is_async: bool,
    pub display: bool,
    pub no_display: bool,
}

impl ComposeArgs {
    /// Whether the composed image is shown in the terminal.
    pub fn should_display(&self) -> (r: bool)
        ensures
            r == (!self.no_display && (self.display || self.output is None)),
    {
        if self.no_display {
            return false;
        }
        self.display || self.output.is_none()
    }
}

/// Arguments of the watch command.
#[derive(Debug, Clone)]
pub struct WatchArgs {
    pub url: String,
    pub interval: String,
    pub output_dir: Option<String>,
    pub device: Option<String>,
    pub format: String,
    pub full_page: bool,
    pub max_captures: u32,
    pub no_display: bool,
}

/// Arguments of the gallery command.
#[derive(Debug, Clone)]
pub struct GalleryArgs {
    pub dir: Option<String>,
    pub limit: usize,
    pub size: String,
}

/// Arguments of the usage command.
#[derive(Debug, Clone)]
pub struct UsageArgs {
    pub format: String,
    pub quota_only: bool,
}

/// The configuration command and its action.
#[derive(Debug, Clone)]
pub struct ConfigCommand {
    pub command: ConfigSubcommand,
}

/// What the configuration command does.
#[derive(Debug, Clone)]
pub enum ConfigSubcommand {
    AddAuthToken { token: String },
    Show,
    Path,
    RemoveAuthToken,
    SetValue { key: String, value: String },
    Get { key: String },
}

/// The jobs command and its action.
#[derive(Debug, Clone)]
pub struct JobsCommand {
    pub command: JobsSubcommand,
}

/// What the jobs command does.
#[derive(Debug, Clone)]
pub enum JobsSubcommand {
    List,
    Get { id: String },
    Cancel { id: String },
    Result { id: String, output: Option<String>, display: bool },
}

/// The schedule command and its action.
#[derive(Debug, Clone)]
pub struct ScheduleCommand {
    pub command: ScheduleSubcommand,
}

/// What the schedule command does.
#[derive(Debug, Clone)]
pub enum ScheduleSubcommand {
    List,
    Create(CreateScheduleArgs),
    Get { id: String },
    Update(UpdateScheduleArgs),
    Delete { id: String },
    Pause { id: String },
    Resume { id: String },
    Trigger { id: String },
    History { id: String, limit: Option<i32> },
}

/// Arguments for creating a schedule.
#[derive(Debug, Clone)]
pub struct CreateScheduleArgs {
    pub name: String,
    pub url: String,
    pub cron: String,
    pub timezone: Option<String>,
    pub device: Option<String>,
    pub retention_days: Option<i32>,
    pub webhook_url: Option<String>,
}

/// Arguments for updating a schedule.
#[derive(Debug, Clone)]
pub struct UpdateScheduleArgs {
    pub id: String,
    pub name: Option<String>,
    pub url: Option<String>,
    pub cron: Option<String>,
    pub timezone: Option<String>,
    pub retention_days: Option<i32>,
}

} // verus!
