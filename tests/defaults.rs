use backup_rs::config::{
    default_compression, default_exclude_marker, default_globs, default_keep_daily,
    default_keep_monthly, default_keep_weekly, BackupConfig, Config, MountConfig, RetentionConfig,
};
use backup_rs::text::{decimal_string, join_words};

#[test]
fn default_config_is_safe() {
    let cfg = Config::default();
    assert_eq!(cfg.repo.path, "./.backup");
    assert!(cfg.repo.password.is_empty());
}

#[test]
fn default_backup_sources_are_empty() {
    let cfg = BackupConfig::default();
    assert!(cfg.sources.is_empty());
}

#[test]
fn default_compression_is_reasonable() {
    let cfg = BackupConfig::default();
    assert!(
        cfg.compression >= 1 && cfg.compression <= 22,
        "compression level {} is outside the valid zstd range 1–22",
        cfg.compression
    );
}

#[test]
fn default_globs_exclude_git() {
    let globs = default_globs();
    assert!(
        globs.iter().any(|g| g.contains(".git")),
        "default globs should exclude .git directories"
    );
}

#[test]
fn default_retention_keeps_at_least_one_snapshot() {
    let r = RetentionConfig::default();
    let total = r.daily + r.weekly + r.monthly;
    assert!(total >= 1, "retention policy must keep at least one snapshot");
}

#[test]
fn default_mount_is_none() {
    let m = MountConfig::default();
    assert!(m.share.is_none());
    assert!(m.user.is_none());
}

#[test]
fn default_values_are_exact() {
    assert_eq!(default_compression(), 3);
    assert_eq!(default_globs(), vec!["!**/.git", "!tmp/", "!**/target/", "!**/node_modules/"]);
    assert_eq!(default_exclude_marker(), "ignore");
    assert_eq!(default_keep_daily(), 2);
    assert_eq!(default_keep_weekly(), 1);
    assert_eq!(default_keep_monthly(), 1);
    let cfg = Config::default();
    assert_eq!(cfg.backup.globs, default_globs());
    assert_eq!(cfg.backup.exclude_if_present, "ignore");
    assert_eq!(cfg.retention.daily, 2);
    assert_eq!(cfg.retention.weekly, 1);
    assert_eq!(cfg.retention.monthly, 1);
    assert!(cfg.mount.share.is_none());
}

#[test]
fn decimal_string_renders_like_to_string() {
    for n in [0u32, 7, 9, 10, 42, 100, 65535, 4294967295] {
        assert_eq!(decimal_string(n), n.to_string());
    }
}

#[test]
fn join_words_separates_with_single_spaces() {
    assert_eq!(join_words(&[]), "");
    assert_eq!(join_words(&["a".to_string()]), "a");
    assert_eq!(
        join_words(&["sh".to_string(), "-c".to_string(), "echo hi".to_string()]),
        "sh -c echo hi"
    );
}
