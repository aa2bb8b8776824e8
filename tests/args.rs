use backup_rs::cli::Cli;
use backup_rs::config::{BackupConfig, Config, MountConfig, RepoConfig, RetentionConfig};
use backup_rs::run::{
    build_backup_args, build_check_args, build_compact_args, build_forget_args, build_init_args,
    build_mkdir_args, stage_args, StageKind,
};
use backup_rs::runner::{prefix, rustic_base};

fn make_cli(sudo: bool) -> Cli {
    Cli {
        config: "backup.toml".to_string(),
        command: None,
        print_config: false,
        no_mount: false,
        no_prune: false,
        no_check: false,
        sudo,
    }
}

fn make_cfg() -> Config {
    Config {
        repo: RepoConfig { path: "/tmp/repo".into(), password: "pw".into() },
        backup: BackupConfig {
            sources: vec!["/home/alice/project".into()],
            compression: 3,
            globs: vec![
                "!**/.git".into(),
                "!tmp/".into(),
                "!**/target/".into(),
                "!**/node_modules/".into(),
            ],
            exclude_if_present: "ignore".into(),
        },
        retention: RetentionConfig { daily: 2, weekly: 1, monthly: 1 },
        mount: MountConfig { share: Some("new-backups".into()), user: None },
    }
}

fn make_base_cfg(repo_path: &str, password: &str) -> Config {
    Config {
        repo: RepoConfig { path: repo_path.into(), password: password.into() },
        backup: BackupConfig::default(),
        retention: RetentionConfig::default(),
        mount: MountConfig::default(),
    }
}

#[test]
fn backup_args_contain_compression() {
    let args = build_backup_args(&make_cli(false), &make_cfg());
    let idx = args.iter().position(|a| a == "--set-compression").unwrap();
    assert_eq!(args[idx + 1], "3");
}

#[test]
fn backup_args_contain_exclude_marker() {
    let args = build_backup_args(&make_cli(false), &make_cfg());
    let idx = args.iter().position(|a| a == "--exclude-if-present").unwrap();
    assert_eq!(args[idx + 1], "ignore");
}

#[test]
fn backup_args_globs_in_order() {
    let args = build_backup_args(&make_cli(false), &make_cfg());
    let globs: Vec<_> = args.iter().filter(|a| a.starts_with("--glob=")).collect();
    assert_eq!(globs[0], "--glob=!**/.git");
    assert_eq!(globs[1], "--glob=!tmp/");
}

#[test]
fn backup_args_default_source_dot_when_empty() {
    let mut cfg = make_cfg();
    cfg.backup.sources.clear();
    let args = build_backup_args(&make_cli(false), &cfg);
    assert!(args.contains(&".".to_string()));
}

#[test]
fn forget_args_have_all_retention_flags() {
    let args = build_forget_args(&make_cli(false), &make_cfg());
    assert!(args.contains(&"--prune".to_string()));
    let d = args.iter().position(|a| a == "--keep-daily").unwrap();
    assert_eq!(args[d + 1], "2");
}

#[test]
fn mkdir_args_contain_repo_path() {
    let args = build_mkdir_args(&make_cli(false), &make_cfg());
    assert!(args.contains(&"-p".to_string()));
    assert!(args.contains(&"/tmp/repo".to_string()));
}

#[test]
fn check_args_end_with_check() {
    let args = build_check_args(&make_cli(false), &make_cfg());
    assert_eq!(args.last().unwrap(), "check");
}

#[test]
fn compact_args_end_with_prune() {
    let args = build_compact_args(&make_cli(false), &make_cfg());
    assert_eq!(args.last().unwrap(), "prune");
}

#[test]
fn backup_args_exact_default() {
    let args = build_backup_args(&make_cli(false), &make_cfg());
    assert_eq!(
        args,
        vec![
            "rustic",
            "-r",
            "/tmp/repo",
            "--password",
            "pw",
            "backup",
            "--set-compression",
            "3",
            "--exclude-if-present",
            "ignore",
            "--glob=!**/.git",
            "--glob=!tmp/",
            "--glob=!**/target/",
            "--glob=!**/node_modules/",
            "/home/alice/project",
        ]
    );
}

#[test]
fn backup_args_exact_with_sudo() {
    let plain = build_backup_args(&make_cli(false), &make_cfg());
    let elevated = build_backup_args(&make_cli(true), &make_cfg());
    assert_eq!(elevated.len(), plain.len() + 1);
    assert_eq!(elevated[0], "doas");
    assert_eq!(elevated[1..].to_vec(), plain);
}

#[test]
fn backup_args_multiple_sources_keep_order_and_no_dot() {
    let mut cfg = make_cfg();
    cfg.backup.sources = vec!["/a".into(), "/b".into(), "/c".into()];
    let args = build_backup_args(&make_cli(false), &cfg);
    assert_eq!(args[args.len() - 3..].to_vec(), vec!["/a", "/b", "/c"]);
    assert!(!args.contains(&".".to_string()));
}

#[test]
fn backup_args_empty_sources_end_with_dot() {
    let mut cfg = make_cfg();
    cfg.backup.sources.clear();
    let args = build_backup_args(&make_cli(false), &cfg);
    assert_eq!(args.last().unwrap(), ".");
    assert_eq!(args.iter().filter(|a| *a == ".").count(), 1);
}

#[test]
fn backup_args_large_compression_and_no_globs() {
    let mut cfg = make_cfg();
    cfg.backup.compression = 255;
    cfg.backup.globs.clear();
    let args = build_backup_args(&make_cli(false), &cfg);
    assert_eq!(args[7], "255");
    assert!(!args.iter().any(|a| a.starts_with("--glob=")));
}

#[test]
fn backup_args_globs_follow_configured_order() {
    let mut cfg = make_cfg();
    cfg.backup.globs = vec!["b".into(), "a".into(), "!c".into()];
    let args = build_backup_args(&make_cli(false), &cfg);
    assert_eq!(args[10..13].to_vec(), vec!["--glob=b", "--glob=a", "--glob=!c"]);
}

#[test]
fn forget_args_exact_custom_retention() {
    let mut cfg = make_cfg();
    cfg.retention.daily = 7;
    cfg.retention.weekly = 4;
    cfg.retention.monthly = 12;
    let args = build_forget_args(&make_cli(false), &cfg);
    assert_eq!(
        args,
        vec![
            "rustic",
            "-r",
            "/tmp/repo",
            "--password",
            "pw",
            "forget",
            "--prune",
            "--keep-daily",
            "7",
            "--keep-weekly",
            "4",
            "--keep-monthly",
            "12",
        ]
    );
}

#[test]
fn forget_args_render_zero_and_large_counts() {
    let mut cfg = make_cfg();
    cfg.retention.daily = 0;
    cfg.retention.weekly = 4294967295;
    cfg.retention.monthly = 10;
    let args = build_forget_args(&make_cli(false), &cfg);
    assert_eq!(args[8], "0");
    assert_eq!(args[10], "4294967295");
    assert_eq!(args[12], "10");
}

#[test]
fn mkdir_init_check_compact_exact() {
    let cli = make_cli(true);
    let cfg = make_cfg();
    assert_eq!(build_mkdir_args(&cli, &cfg), vec!["doas", "mkdir", "-p", "/tmp/repo"]);
    assert_eq!(
        build_init_args(&cli, &cfg),
        vec!["doas", "rustic", "-r", "/tmp/repo", "--password", "pw", "init"]
    );
    assert_eq!(
        build_check_args(&cli, &cfg),
        vec!["doas", "rustic", "-r", "/tmp/repo", "--password", "pw", "check"]
    );
    assert_eq!(
        build_compact_args(&cli, &cfg),
        vec!["doas", "rustic", "-r", "/tmp/repo", "--password", "pw", "prune"]
    );
}

#[test]
fn stage_args_dispatch_to_builders() {
    let cli = make_cli(false);
    let cfg = make_cfg();
    assert!(stage_args(StageKind::Mount, &cli, &cfg).is_empty());
    assert_eq!(stage_args(StageKind::InitMkdir, &cli, &cfg), build_mkdir_args(&cli, &cfg));
    assert_eq!(stage_args(StageKind::InitRepo, &cli, &cfg), build_init_args(&cli, &cfg));
    assert_eq!(stage_args(StageKind::Check, &cli, &cfg), build_check_args(&cli, &cfg));
    assert_eq!(stage_args(StageKind::Backup, &cli, &cfg), build_backup_args(&cli, &cfg));
    assert_eq!(stage_args(StageKind::Forget, &cli, &cfg), build_forget_args(&cli, &cfg));
    assert_eq!(stage_args(StageKind::Compact, &cli, &cfg), build_compact_args(&cli, &cfg));
}

#[test]
fn elevation_adds_one_token_to_every_command() {
    let cfg = make_cfg();
    for kind in [
        StageKind::InitMkdir,
        StageKind::InitRepo,
        StageKind::Check,
        StageKind::Backup,
        StageKind::Forget,
        StageKind::Compact,
    ] {
        let plain = stage_args(kind, &make_cli(false), &cfg);
        let elevated = stage_args(kind, &make_cli(true), &cfg);
        assert_eq!(elevated[0], "doas");
        assert_eq!(elevated[1..].to_vec(), plain);
    }
}

#[test]
fn prefix_empty_without_sudo() {
    assert!(prefix(&make_cli(false)).is_empty());
}

#[test]
fn prefix_doas_with_sudo() {
    assert_eq!(prefix(&make_cli(true)), vec!["doas"]);
}

#[test]
fn rustic_base_without_sudo() {
    let cmd = rustic_base(&make_cli(false), &make_base_cfg("/tmp/repo", ""));
    assert_eq!(cmd, vec!["rustic", "-r", "/tmp/repo", "--password", ""]);
}

#[test]
fn rustic_base_with_sudo_prepends_doas() {
    let cmd = rustic_base(&make_cli(true), &make_base_cfg("/tmp/repo", "s3cr3t"));
    assert_eq!(cmd, vec!["doas", "rustic", "-r", "/tmp/repo", "--password", "s3cr3t"]);
}

#[test]
fn rustic_base_preserves_paths_with_spaces() {
    let cmd = rustic_base(&make_cli(false), &make_base_cfg("/mnt/my nas/repo", "p@ss"));
    assert_eq!(cmd[2], "/mnt/my nas/repo");
    assert_eq!(cmd[4], "p@ss");
}
