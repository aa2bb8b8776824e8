//! Resolved configuration: repository, backup set, retention and mount.
use vstd::prelude::*;
use vstd::string::StringExecFns;

use crate::text::views;

verus! {

/// The whole configuration, one field per section of `backup.toml`.
#[derive(Debug)]
pub struct Config {
    pub repo: RepoConfig,
    pub backup: BackupConfig,
    pub retention: RetentionConfig,
    pub mount: MountConfig,
}

/// Where the repository lives and how it is unlocked.
#[derive(Debug)]
pub struct RepoConfig {
    /// Repository location, handed to the engine's `-r`.
    pub path: String,
    /// Repository password; empty for an unencrypted repository.
    pub password: String,
}

/// What to back up and what to leave out.
#[derive(Debug)]
pub struct BackupConfig {
    /// Paths to include; empty means the current directory.
    pub sources: Vec<String>,
    /// zstd compression level.
    pub compression: u8,
    /// Glob patterns, in the order the engine applies them.
    pub globs: Vec<String>,
    /// A directory holding a file of this name is skipped.
    pub exclude_if_present: String,
}

/// How many snapshots `forget` keeps in each window.
#[derive(Debug)]
pub struct RetentionConfig {
    pub daily: u32,
    pub weekly: u32,
    pub monthly: u32,
}

/// The optional network share to mount before anything else.
#[derive(Debug)]
pub struct MountConfig {
    /// Name of the share; `None` skips mounting.
    pub share: Option<String>,
    /// User whose home holds the mountpoint.
    pub user: Option<String>,
}

/// The glob patterns used when the configuration names none.
pub open spec fn default_globs_view() -> Seq<Seq<char>> {
    seq!["!**/.git"@, "!tmp/"@, "!**/target/"@, "!**/node_modules/"@]
}

pub fn default_compression() -> (r: u8)
    ensures
        r == 3,
{
    3
}

pub fn default_globs() -> (r: Vec<String>)
    ensures
        views(r@) == default_globs_view(),
{
    let r = vec![
        String::from_str("!**/.git"),
        String::from_str("!tmp/"),
        String::from_str("!**/target/"),
        String::from_str("!**/node_modules/"),
    ];
    assert(views(r@) =~= default_globs_view());
    r
}

pub fn default_exclude_marker() -> (r: String)
    ensures
        r@ == "ignore"@,
{
    String::from_str("ignore")
}

pub fn default_keep_daily() -> (r: u32)
    ensures
        r == 2,
{
    2
}

pub fn default_keep_weekly() -> (r: u32)
    ensures
        r == 1,
{
    1
}

pub fn default_keep_monthly() -> (r: u32)
    ensures
        r == 1,
{
    1
}

impl Default for Config {
    fn default() -> (r: Self)
        ensures
            r.repo.path@ == "./.backup"@,
            r.repo.password@.len() == 0,
            r.backup.sources@.len() == 0,
            r.backup.compression == 3,
            views(r.backup.globs@) == default_globs_view(),
            r.backup.exclude_if_present@ == "ignore"@,
            r.retention.daily == 2,
            r.retention.weekly == 1,
            r.retention.monthly == 1,
            r.mount.share.is_none(),
            r.mount.user.is_none(),
    {
        Config {
            repo: RepoConfig::default(),
            backup: BackupConfig::default(),
            retention: RetentionConfig::default(),
            mount: MountConfig::default(),
        }
    }
}

impl Default for RepoConfig {
    fn default() -> (r: Self)
        ensures
            r.path@ == "./.backup"@,
            r.password@.len() == 0,
    {
        RepoConfig { path: String::from_str("./.backup"), password: String::new() }
    }
}

impl Default for BackupConfig {
    fn default() -> (r: Self)
        ensures
            r.sources@.len() == 0,
            r.compression == 3,
            views(r.globs@) == default_globs_view(),
            r.exclude_if_present@ == "ignore"@,
    {
        BackupConfig {
            sources: Vec::new(),
            compression: default_compression(),
            globs: default_globs(),
            exclude_if_present: default_exclude_marker(),
        }
    }
}

impl Default for RetentionConfig {
    fn default() -> (r: Self)
        ensures
            r.daily == 2,
            r.weekly == 1,
            r.monthly == 1,
    {
        RetentionConfig {
            daily: default_keep_daily(),
            weekly: default_keep_weekly(),
            monthly: default_keep_monthly(),
        }
    }
}

impl Default for MountConfig {
    fn default() -> (r: Self)
        ensures
            r.share.is_none(),
            r.user.is_none(),
    {
        MountConfig { share: None, user: None }
    }
}

} // verus!
