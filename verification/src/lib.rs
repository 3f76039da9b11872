mod config;
mod debounce;
mod history;
mod push;
mod repo;
mod store;
mod sync;

pub use config::{parse_seconds, resolve_push_mode, BackerConfig, ConfigError};
pub use debounce::{Debouncer, MonitorStep};
pub use history::CommitRecord;
pub use push::{add_all_changed, push_to_origin, BackupOutcome, PushOutcome};
pub use repo::{add_all_and_commit, create_initial_commit, init_repo, CommitError, Repo};
pub use sync::{pull, MergeAnalysisResult, MergeOutcome, SyncAction};
