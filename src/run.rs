//! The backup pipeline: the argument vector of each stage, and the state
//! machine that sequences the stages.
use vstd::prelude::*;
use vstd::string::StringExecFns;

use crate::cli::Cli;
use crate::config::{BackupConfig, Config, RetentionConfig};
use crate::runner::{prefix, prefix_view, rustic_base, rustic_base_view};
use crate::text::{decimal, decimal_string, digit_char, views};
use crate::ui::{skipped_stage, StageOutcome};

verus! {

/// `[doas] mkdir -p <path>`.
pub open spec fn mkdir_args_view(sudo: bool, path: Seq<char>) -> Seq<Seq<char>> {
    prefix_view(sudo) + seq!["mkdir"@, "-p"@, path]
}

/// The engine base followed by one subcommand word.
pub open spec fn subcommand_args_view(cli: Cli, cfg: Config, word: Seq<char>) -> Seq<Seq<char>> {
    rustic_base_view(cli.sudo, cfg.repo.path@, cfg.repo.password@).push(word)
}

/// The token that hands one glob pattern to the engine.
pub open spec fn glob_token(glob: Seq<char>) -> Seq<char> {
    "--glob="@ + glob
}

/// The paths handed to `backup`: the configured sources, or `.` when there are none.
pub open spec fn backup_sources_view(sources: Seq<Seq<char>>) -> Seq<Seq<char>> {
    if sources.len() == 0 {
        seq!["."@]
    } else {
        sources
    }
}

/// The flags of `backup` that come before the glob tokens.
pub open spec fn backup_flags_view(b: BackupConfig) -> Seq<Seq<char>> {
    seq![
        "backup"@,
        "--set-compression"@,
        decimal(b.compression as nat),
        "--exclude-if-present"@,
        b.exclude_if_present@,
    ]
}

/// `<base> backup --set-compression <c> --exclude-if-present <marker> --glob=<g>... <sources>`.
pub open spec fn backup_args_view(cli: Cli, cfg: Config) -> Seq<Seq<char>> {
    rustic_base_view(cli.sudo, cfg.repo.path@, cfg.repo.password@) + backup_flags_view(cfg.backup)
        + views(cfg.backup.globs@).map_values(|g: Seq<char>| glob_token(g))
        + backup_sources_view(views(cfg.backup.sources@))
}

/// The flags of `forget`: pruning, and the three retention counts.
pub open spec fn forget_flags_view(r: RetentionConfig) -> Seq<Seq<char>> {
    seq![
        "forget"@,
        "--prune"@,
        "--keep-daily"@,
        decimal(r.daily as nat),
        "--keep-weekly"@,
        decimal(r.weekly as nat),
        "--keep-monthly"@,
        decimal(r.monthly as nat),
    ]
}

/// `<base> forget --prune --keep-daily <d> --keep-weekly <w> --keep-monthly <m>`.
pub open spec fn forget_args_view(cli: Cli, cfg: Config) -> Seq<Seq<char>> {
    rustic_base_view(cli.sudo, cfg.repo.path@, cfg.repo.password@) + forget_flags_view(
        cfg.retention,
    )
}

/// Arguments for `mkdir -p <repo>`.
pub fn build_mkdir_args(cli: &Cli, cfg: &Config) -> (r: Vec<String>)
    ensures
        views(r@) == mkdir_args_view(cli.sudo, cfg.repo.path@),
{
    let mut args = prefix(cli);
    args.push(String::from_str("mkdir"));
    args.push(String::from_str("-p"));
    args.push(cfg.repo.path.clone());
    assert(views(args@) =~= mkdir_args_view(cli.sudo, cfg.repo.path@));
    args
}

/// Arguments for `rustic init`.
pub fn build_init_args(cli: &Cli, cfg: &Config) -> (r: Vec<String>)
    ensures
        views(r@) == subcommand_args_view(*cli, *cfg, "init"@),
{
    let mut cmd = rustic_base(cli, cfg);
    cmd.push(String::from_str("init"));
    assert(views(cmd@) =~= subcommand_args_view(*cli, *cfg, "init"@));
    cmd
}

/// Arguments for `rustic check`.
pub fn build_check_args(cli: &Cli, cfg: &Config) -> (r: Vec<String>)
    ensures
        views(r@) == subcommand_args_view(*cli, *cfg, "check"@),
{
    let mut cmd = rustic_base(cli, cfg);
    cmd.push(String::from_str("check"));
    assert(views(cmd@) =~= subcommand_args_view(*cli, *cfg, "check"@));
    cmd
}

/// Arguments for `rustic backup …`; falls back to `.` when no source is configured.
pub fn build_backup_args(cli: &Cli, cfg: &Config) -> (r: Vec<String>)
    ensures
        views(r@) == backup_args_view(*cli, *cfg),
{
    let mut cmd = rustic_base(cli, cfg);
    cmd.push(String::from_str("backup"));
    cmd.push(String::from_str("--set-compression"));
    cmd.push(decimal_string(cfg.backup.compression as u32));
    cmd.push(String::from_str("--exclude-if-present"));
    cmd.push(cfg.backup.exclude_if_present.clone());
    let ghost head = rustic_base_view(cli.sudo, cfg.repo.path@, cfg.repo.password@)
        + backup_flags_view(cfg.backup);
    assert(views(cmd@) =~= head);
    let globs = &cfg.backup.globs;
    let ghost tokens = views(globs@).map_values(|g: Seq<char>| glob_token(g));
    let mut i: usize = 0;
    while i < globs.len()
        invariant
            i <= globs@.len(),
            views(cmd@) == head + tokens.take(i as int),
            tokens == views(globs@).map_values(|g: Seq<char>| glob_token(g)),
        decreases globs@.len() - i,
    {
        let token = String::from_str("--glob=").concat(globs[i].as_str());
        let ghost before = cmd@;
        cmd.push(token);
        assert(views(cmd@) =~= views(before).push(glob_token(globs@[i as int]@)));
        assert(tokens.take(i as int + 1) =~= tokens.take(i as int).push(
            glob_token(globs@[i as int]@),
        ));
        assert(views(cmd@) =~= head + tokens.take(i as int + 1));
        i = i + 1;
    }
    assert(tokens.take(globs@.len() as int) =~= tokens);
    let ghost mid = head + tokens;
    let sources = &cfg.backup.sources;
    if sources.len() == 0 {
        cmd.push(String::from_str("."));
        assert(views(cmd@) =~= mid + backup_sources_view(views(sources@)));
    } else {
        let mut j: usize = 0;
        while j < sources.len()
            invariant
                j <= sources@.len(),
                views(cmd@) == mid + views(sources@).take(j as int),
            decreases sources@.len() - j,
        {
            let ghost before = cmd@;
            cmd.push(sources[j].clone());
            assert(views(cmd@) =~= views(before).push(sources@[j as int]@));
            assert(views(sources@).take(j as int + 1) =~= views(sources@).take(j as int).push(
                sources@[j as int]@,
            ));
            assert(views(cmd@) =~= mid + views(sources@).take(j as int + 1));
            j = j + 1;
        }
        assert(views(sources@).take(sources@.len() as int) =~= views(sources@));
    }
    cmd
}

/// Arguments for `rustic forget --prune …`.
pub fn build_forget_args(cli: &Cli, cfg: &Config) -> (r: Vec<String>)
    ensures
        views(r@) == forget_args_view(*cli, *cfg),
{
    let r = &cfg.retention;
    let mut cmd = rustic_base(cli, cfg);
    cmd.push(String::from_str("forget"));
    cmd.push(String::from_str("--prune"));
    cmd.push(String::from_str("--keep-daily"));
    cmd.push(decimal_string(r.daily));
    cmd.push(String::from_str("--keep-weekly"));
    cmd.push(decimal_string(r.weekly));
    cmd.push(String::from_str("--keep-monthly"));
    cmd.push(decimal_string(r.monthly));
    assert(views(cmd@) =~= forget_args_view(*cli, *cfg));
    cmd
}

/// Arguments for `rustic prune`.
pub fn build_compact_args(cli: &Cli, cfg: &Config) -> (r: Vec<String>)
    ensures
        views(r@) == subcommand_args_view(*cli, *cfg, "prune"@),
{
    let mut cmd = rustic_base(cli, cfg);
    cmd.push(String::from_str("prune"));
    assert(views(cmd@) =~= subcommand_args_view(*cli, *cfg, "prune"@));
    cmd
}

/// The stages of the pipeline, in the order they can run.
#[derive(Debug, Clone, Copy, PartialEq, Eq, Structural)]
pub enum StageKind {
    Mount,
    InitMkdir,
    InitRepo,
    Check,
    Backup,
    Forget,
    Compact,
}

/// The label under which a stage is shown and reported.
pub open spec fn stage_label_view(k: StageKind) -> Seq<char> {
    match k {
        StageKind::Mount => "Mount"@,
        StageKind::InitMkdir => "Init (mkdir)"@,
        StageKind::InitRepo => "Init (repo)"@,
        StageKind::Check => "Check"@,
        StageKind::Backup => "Backup"@,
        StageKind::Forget => "Forget"@,
        StageKind::Compact => "Compact"@,
    }
}

/// The label under which a stage is shown and reported.
pub fn stage_label(k: StageKind) -> (r: &'static str)
    ensures
        r@ == stage_label_view(k),
{
    match k {
        StageKind::Mount => "Mount",
        StageKind::InitMkdir => "Init (mkdir)",
        StageKind::InitRepo => "Init (repo)",
        StageKind::Check => "Check",
        StageKind::Backup => "Backup",
        StageKind::Forget => "Forget",
        StageKind::Compact => "Compact",
    }
}

/// The command a stage runs; the mount stage runs none of these.
pub open spec fn stage_args_view(k: StageKind, cli: Cli, cfg: Config) -> Seq<Seq<char>> {
    match k {
        StageKind::Mount => Seq::empty(),
        StageKind::InitMkdir => mkdir_args_view(cli.sudo, cfg.repo.path@),
        StageKind::InitRepo => subcommand_args_view(cli, cfg, "init"@),
        StageKind::Check => subcommand_args_view(cli, cfg, "check"@),
        StageKind::Backup => backup_args_view(cli, cfg),
        StageKind::Forget => forget_args_view(cli, cfg),
        StageKind::Compact => subcommand_args_view(cli, cfg, "prune"@),
    }
}

/// The command a stage runs; empty for the mount stage, which runs none of these.
pub fn stage_args(k: StageKind, cli: &Cli, cfg: &Config) -> (r: Vec<String>)
    ensures
        views(r@) == stage_args_view(k, *cli, *cfg),
{
    match k {
        StageKind::Mount => {
            let r: Vec<String> = Vec::new();
            assert(views(r@) =~= Seq::empty());
            r
        },
        StageKind::InitMkdir => build_mkdir_args(cli, cfg),
        StageKind::InitRepo => build_init_args(cli, cfg),
        StageKind::Check => build_check_args(cli, cfg),
        StageKind::Backup => build_backup_args(cli, cfg),
        StageKind::Forget => build_forget_args(cli, cfg),
        StageKind::Compact => build_compact_args(cli, cfg),
    }
}

/// Every stage that a run which never fails goes through, in order: the
/// mount (run or skipped), the two init steps for a repository that does not
/// exist yet, the check unless disabled, the backup, and forget and compact
/// unless pruning is disabled.
pub open spec fn planned_stages(repo_exists: bool, no_check: bool, no_prune: bool) -> Seq<
    StageKind,
> {
    seq![StageKind::Mount] + (if repo_exists {
        Seq::empty()
    } else {
        seq![StageKind::InitMkdir, StageKind::InitRepo]
    }) + (if no_check {
        Seq::empty()
    } else {
        seq![StageKind::Check]
    }) + seq![StageKind::Backup] + (if no_prune {
        Seq::empty()
    } else {
        seq![StageKind::Forget, StageKind::Compact]
    })
}

/// Where a pipeline run stands.
#[derive(Debug, Clone, Copy, PartialEq, Eq, Structural)]
pub enum Phase {
    /// Waiting for the outcome of mounting the share.
    AwaitMount,
    /// Waiting to learn whether the repository location exists.
    AwaitProbe,
    /// Waiting for the outcome of the next planned stage.
    AwaitStage,
    /// Done: the run completed or a stage failed.
    Finished,
}

/// What the driver of a run reports back to the pipeline.
pub enum Event {
    /// The stage that was asked for (the mount included) ended with this outcome.
    StageDone(StageOutcome),
    /// Whether the repository location exists.
    RepoProbed(bool),
}

/// What the pipeline asks its driver to do next.
pub enum Action {
    /// Mount the configured share and report the outcome.
    Mount,
    /// Report whether the repository location exists.
    ProbeRepo,
    /// Run this stage's command and report the outcome.
    Run { stage: StageKind, label: String, args: Vec<String> },
    /// Print the summary; the run ends with this overall status.
    Finish { success: bool },
}

/// The abstract state of a run.
pub struct PipelineView {
    /// The outcomes recorded so far, in run order.
    pub outcomes: Seq<StageOutcome>,
    /// The stages the run goes through if none fails; only the mount is
    /// known before the repository has been probed.
    pub plan: Seq<StageKind>,
    pub phase: Phase,
    /// Whether the repository location existed when probed; false before.
    pub repo_exists: bool,
    pub no_check: bool,
    pub no_prune: bool,
}

impl PipelineView {
    /// Every outcome but the last succeeded, and the phase agrees with what
    /// has been recorded.
    pub open spec fn wf(self) -> bool {
        &&& forall|i: int| 0 <= i < self.outcomes.len() - 1 ==> #[trigger] self.outcomes[i].success
        &&& self.plan.len() >= 1
        &&& match self.phase {
            Phase::AwaitMount => self.outcomes.len() == 0 && self.plan == seq![StageKind::Mount],
            Phase::AwaitProbe => self.outcomes.len() == 1 && self.outcomes[0].success && self.plan
                == seq![StageKind::Mount],
            Phase::AwaitStage => {
                &&& 1 <= self.outcomes.len() < self.plan.len()
                &&& self.outcomes.last().success
                &&& self.plan == planned_stages(self.repo_exists, self.no_check, self.no_prune)
            },
            Phase::Finished => {
                &&& self.outcomes.len() >= 1
                &&& !self.outcomes.last().success || self.outcomes.len() == self.plan.len()
                &&& self.outcomes.len() == 1 ==> !self.outcomes.last().success
                &&& self.outcomes.len() > 1 ==> self.plan == planned_stages(
                    self.repo_exists,
                    self.no_check,
                    self.no_prune,
                )
            },
        }
    }

    /// The state after `event`; an event the phase does not wait for changes nothing.
    pub open spec fn next(self, event: Event) -> PipelineView {
        match (self.phase, event) {
            (Phase::AwaitMount, Event::StageDone(o)) => PipelineView {
                outcomes: self.outcomes.push(o),
                phase: if o.success {
                    Phase::AwaitProbe
                } else {
                    Phase::Finished
                },
                ..self
            },
            (Phase::AwaitProbe, Event::RepoProbed(found)) => PipelineView {
                plan: planned_stages(found, self.no_check, self.no_prune),
                phase: Phase::AwaitStage,
                repo_exists: found,
                ..self
            },
            (Phase::AwaitStage, Event::StageDone(o)) => PipelineView {
                outcomes: self.outcomes.push(o),
                phase: if !o.success || self.outcomes.len() + 1 == self.plan.len() {
                    Phase::Finished
                } else {
                    Phase::AwaitStage
                },
                ..self
            },
            _ => self,
        }
    }

    /// Whether every recorded outcome succeeded.
    pub open spec fn all_succeeded(self) -> bool {
        forall|i: int| 0 <= i < self.outcomes.len() ==> #[trigger] self.outcomes[i].success
    }

    /// Whether `a` is what the pipeline asks for in this state.
    pub open spec fn asks(self, a: Action, cli: Cli, cfg: Config) -> bool {
        match self.phase {
            Phase::AwaitMount => a is Mount,
            Phase::AwaitProbe => a is ProbeRepo,
            Phase::AwaitStage => {
                let k = self.plan[self.outcomes.len() as int];
                match a {
                    Action::Run { stage, label, args } => stage == k && label@ == stage_label_view(
                        k,
                    ) && views(args@) == stage_args_view(k, cli, cfg),
                    _ => false,
                }
            },
            Phase::Finished => a == Action::Finish { success: self.all_succeeded() },
        }
    }
}

/// One run of the backup pipeline: the outcomes recorded so far and what
/// comes next.
pub struct Pipeline {
    outcomes: Vec<StageOutcome>,
    plan: Vec<StageKind>,
    phase: Phase,
    repo_exists: bool,
    no_check: bool,
    no_prune: bool,
}

impl View for Pipeline {
    type V = PipelineView;

    closed spec fn view(&self) -> PipelineView {
        PipelineView {
            outcomes: self.outcomes@,
            plan: self.plan@,
            phase: self.phase,
            repo_exists: self.repo_exists,
            no_check: self.no_check,
            no_prune: self.no_prune,
        }
    }
}

/// Every plan starts with the mount and holds at least the backup besides.
proof fn lemma_planned_shape(repo_exists: bool, no_check: bool, no_prune: bool)
    ensures
        planned_stages(repo_exists, no_check, no_prune).len() >= 2,
        planned_stages(repo_exists, no_check, no_prune)[0] == StageKind::Mount,
{
}

/// The plan built once the repository has been probed.
fn plan_stages(repo_exists: bool, no_check: bool, no_prune: bool) -> (r: Vec<StageKind>)
    ensures
        r@ == planned_stages(repo_exists, no_check, no_prune),
{
    let mut r: Vec<StageKind> = Vec::new();
    r.push(StageKind::Mount);
    if !repo_exists {
        r.push(StageKind::InitMkdir);
        r.push(StageKind::InitRepo);
    }
    if !no_check {
        r.push(StageKind::Check);
    }
    r.push(StageKind::Backup);
    if !no_prune {
        r.push(StageKind::Forget);
        r.push(StageKind::Compact);
    }
    assert(r@ =~= planned_stages(repo_exists, no_check, no_prune));
    r
}

impl Pipeline {
    #[verifier::type_invariant]
    spec fn inv(self) -> bool {
        self@.wf()
    }

    /// Starts a run. The mount stage is asked for when mounting is enabled and
    /// a share is configured; otherwise it is recorded as skipped at once.
    pub fn start(cli: &Cli, cfg: &Config) -> (r: Pipeline)
        ensures
            r@.plan == seq![StageKind::Mount],
            r@.repo_exists == false,
            r@.no_check == cli.no_check,
            r@.no_prune == cli.no_prune,
            !cli.no_mount && cfg.mount.share is Some ==> r@.phase == Phase::AwaitMount
                && r@.outcomes.len() == 0,
            !(!cli.no_mount && cfg.mount.share is Some) ==> {
                &&& r@.phase == Phase::AwaitProbe
                &&& r@.outcomes.len() == 1
                &&& r@.outcomes[0].label@ == "Mount"@
                &&& r@.outcomes[0].success
                &&& r@.outcomes[0].stdout@.len() == 0
                &&& r@.outcomes[0].stderr@.len() == 0
                &&& r@.outcomes[0].error.is_none()
            },
    {
        let mut plan: Vec<StageKind> = Vec::new();
        plan.push(StageKind::Mount);
        assert(plan@ =~= seq![StageKind::Mount]);
        let mut outcomes: Vec<StageOutcome> = Vec::new();
        let phase = if !cli.no_mount && cfg.mount.share.is_some() {
            Phase::AwaitMount
        } else {
            outcomes.push(skipped_stage("Mount"));
            Phase::AwaitProbe
        };
        Pipeline {
            outcomes,
            plan,
            phase,
            repo_exists: false,
            no_check: cli.no_check,
            no_prune: cli.no_prune,
        }
    }

    /// The outcomes recorded so far, in run order.
    pub fn outcomes(&self) -> (r: &[StageOutcome])
        ensures
            r@ == self@.outcomes,
    {
        self.outcomes.as_slice()
    }

    /// Whether the run is over.
    pub fn is_finished(&self) -> (r: bool)
        ensures
            r == (self@.phase == Phase::Finished),
    {
        self.phase == Phase::Finished
    }

    /// What the driver has to do next; `cli` and `cfg` are those the run was
    /// started with.
    pub fn next_action(&self, cli: &Cli, cfg: &Config) -> (r: Action)
        ensures
            self@.asks(r, *cli, *cfg),
    {
        proof {
            use_type_invariant(self);
        }
        match self.phase {
            Phase::AwaitMount => Action::Mount,
            Phase::AwaitProbe => Action::ProbeRepo,
            Phase::AwaitStage => {
                let k = self.plan[self.outcomes.len()];
                Action::Run {
                    stage: k,
                    label: String::from_str(stage_label(k)),
                    args: stage_args(k, cli, cfg),
                }
            },
            Phase::Finished => {
                let success = self.outcomes[self.outcomes.len() - 1].success;
                proof {
                    if success {
                        assert forall|i: int| 0 <= i < self@.outcomes.len() implies #[trigger] self@.outcomes[i].success by {
                            if i < self@.outcomes.len() - 1 {
                                assert(self@.outcomes[i].success);
                            }
                        }
                    }
                }
                Action::Finish { success }
            },
        }
    }

    /// The run after `event`: an outcome is recorded, or the plan is fixed
    /// once the repository has been probed. An event the run does not wait
    /// for leaves it as it was.
    pub fn handle(self, event: Event) -> (r: Pipeline)
        ensures
            r@ == self@.next(event),
    {
        proof {
            use_type_invariant(&self);
        }
        let ghost old_view = self@;
        let Pipeline { mut outcomes, plan, phase, repo_exists, no_check, no_prune } = self;
        match (phase, event) {
            (Phase::AwaitMount, Event::StageDone(o)) => {
                let success = o.success;
                outcomes.push(o);
                let phase = if success {
                    Phase::AwaitProbe
                } else {
                    Phase::Finished
                };
                Pipeline { outcomes, plan, phase, repo_exists, no_check, no_prune }
            },
            (Phase::AwaitProbe, Event::RepoProbed(found)) => {
                let plan = plan_stages(found, no_check, no_prune);
                proof {
                    lemma_planned_shape(found, no_check, no_prune);
                }
                Pipeline { outcomes, plan, phase: Phase::AwaitStage, repo_exists: found, no_check, no_prune }
            },
            (Phase::AwaitStage, Event::StageDone(o)) => {
                let success = o.success;
                outcomes.push(o);
                let phase = if !success || outcomes.len() == plan.len() {
                    Phase::Finished
                } else {
                    Phase::AwaitStage
                };
                proof {
                    assert forall|i: int| 0 <= i < outcomes@.len() - 1 implies #[trigger] outcomes@[i].success by {
                        assert(outcomes@[i] == old_view.outcomes[i]);
                    }
                }
                Pipeline { outcomes, plan, phase, repo_exists, no_check, no_prune }
            },
            (phase, event) => Pipeline { outcomes, plan, phase, repo_exists, no_check, no_prune },
        }
    }
}

/// A recorded run stays well formed whatever event comes next.
pub proof fn lemma_next_keeps_wf(p: PipelineView, e: Event)
    requires
        p.wf(),
    ensures
        p.next(e).wf(),
{
    let q = p.next(e);
    match (p.phase, e) {
        (Phase::AwaitProbe, Event::RepoProbed(found)) => {
            lemma_planned_shape(found, p.no_check, p.no_prune);
        },
        (Phase::AwaitMount, Event::StageDone(o)) => {
            assert(q.outcomes.drop_last() =~= p.outcomes);
        },
        (Phase::AwaitStage, Event::StageDone(o)) => {
            assert forall|i: int| 0 <= i < q.outcomes.len() - 1 implies #[trigger] q.outcomes[i].success by {
                assert(q.outcomes[i] == p.outcomes[i]);
            }
        },
        _ => {},
    }
}

/// A failed stage ends the run: its outcome is the last one recorded, every
/// earlier outcome succeeded, the run is finished, and no later event
/// records anything more.
pub proof fn lemma_failure_ends_run(p: PipelineView, i: int, e: Event)
    requires
        p.wf(),
        0 <= i < p.outcomes.len(),
        !p.outcomes[i].success,
    ensures
        p.outcomes.len() == i + 1,
        p.phase == Phase::Finished,
        forall|j: int| 0 <= j < i ==> #[trigger] p.outcomes[j].success,
        p.next(e) == p,
{
}

/// A finished run in which every stage succeeded has recorded one outcome
/// for each stage of its plan, and that plan is the one its flags and the
/// probed repository call for.
pub proof fn lemma_success_completes_plan(p: PipelineView)
    requires
        p.wf(),
        p.phase == Phase::Finished,
        p.all_succeeded(),
    ensures
        p.outcomes.len() == p.plan.len(),
        p.plan == planned_stages(p.repo_exists, p.no_check, p.no_prune),
{
    assert(p.outcomes[p.outcomes.len() - 1].success);
}

/// Recording a failed outcome, for the mount or any later stage, finishes
/// the run with that outcome last.
pub proof fn lemma_failed_stage_finishes(p: PipelineView, o: StageOutcome)
    requires
        p.wf(),
        p.phase == Phase::AwaitMount || p.phase == Phase::AwaitStage,
        !o.success,
    ensures
        p.next(Event::StageDone(o)).outcomes == p.outcomes.push(o),
        p.next(Event::StageDone(o)).phase == Phase::Finished,
        !p.next(Event::StageDone(o)).all_succeeded(),
{
    let q = p.next(Event::StageDone(o));
    assert(q.outcomes[q.outcomes.len() - 1] == o);
}

/// Elevation puts exactly one token, `doas`, in front of the prefix and of
/// every engine and mkdir command; without it nothing is put in front.
pub proof fn lemma_elevation_prefix(on: Cli, off: Cli, cfg: Config)
    requires
        on.sudo,
        !off.sudo,
    ensures
        prefix_view(off.sudo).len() == 0,
        prefix_view(on.sudo) == seq!["doas"@],
        prefix_view(on.sudo).len() == prefix_view(off.sudo).len() + 1,
        rustic_base_view(on.sudo, cfg.repo.path@, cfg.repo.password@) == seq!["doas"@]
            + rustic_base_view(off.sudo, cfg.repo.path@, cfg.repo.password@),
        forall|k: StageKind|
            k != StageKind::Mount ==> #[trigger] stage_args_view(k, on, cfg) == seq!["doas"@]
                + stage_args_view(k, off, cfg),
{
    let path = cfg.repo.path@;
    let password = cfg.repo.password@;
    assert(prefix_view(off.sudo) =~= Seq::<Seq<char>>::empty());
    assert(rustic_base_view(on.sudo, path, password) =~= seq!["doas"@] + rustic_base_view(
        off.sudo,
        path,
        password,
    ));
    assert forall|k: StageKind| k != StageKind::Mount implies #[trigger] stage_args_view(k, on, cfg)
        == seq!["doas"@] + stage_args_view(k, off, cfg) by {
        let on_base = rustic_base_view(on.sudo, path, password);
        let off_base = rustic_base_view(off.sudo, path, password);
        match k {
            StageKind::Backup => {
                assert(backup_args_view(on, cfg) =~= seq!["doas"@] + backup_args_view(off, cfg));
            },
            StageKind::Forget => {
                assert(forget_args_view(on, cfg) =~= seq!["doas"@] + forget_args_view(off, cfg));
            },
            StageKind::InitMkdir => {
                assert(mkdir_args_view(on.sudo, path) =~= seq!["doas"@] + mkdir_args_view(
                    off.sudo,
                    path,
                ));
            },
            _ => {
                assert(on_base.push("init"@) =~= seq!["doas"@] + off_base.push("init"@));
                assert(on_base.push("check"@) =~= seq!["doas"@] + off_base.push("check"@));
                assert(on_base.push("prune"@) =~= seq!["doas"@] + off_base.push("prune"@));
            },
        }
    }
}

/// The glob tokens stand together right after the fixed flags of the backup
/// command, one for each configured glob and in the configured order.
pub proof fn lemma_globs_in_order(cli: Cli, cfg: Config)
    ensures
        ({
            let a = backup_args_view(cli, cfg);
            let g = views(cfg.backup.globs@);
            let k = rustic_base_view(cli.sudo, cfg.repo.path@, cfg.repo.password@).len() + 5;
            &&& k + g.len() <= a.len()
            &&& forall|i: int| 0 <= i < g.len() ==> a[k + i] == #[trigger] glob_token(g[i])
        }),
{
}

/// No word that the backup command supplies itself is `.`: neither its fixed
/// words, nor a compression level, nor a glob token.
proof fn lemma_fixed_words_are_not_dot(n: nat, g: Seq<char>)
    ensures
        "doas"@ != "."@,
        "rustic"@ != "."@,
        "-r"@ != "."@,
        "--password"@ != "."@,
        "backup"@ != "."@,
        "--set-compression"@ != "."@,
        "--exclude-if-present"@ != "."@,
        decimal(n) != "."@,
        glob_token(g) != "."@,
{
    reveal_strlit(".");
    reveal_strlit("doas");
    reveal_strlit("rustic");
    reveal_strlit("-r");
    reveal_strlit("--password");
    reveal_strlit("backup");
    reveal_strlit("--set-compression");
    reveal_strlit("--exclude-if-present");
    reveal_strlit("--glob=");
    assert("."@.len() == 1);
    assert("doas"@.len() == 4);
    assert("rustic"@.len() == 6);
    let d = decimal(n);
    assert(d.last() == digit_char(n % 10));
    if d == "."@ {
        assert(d.last() == '.');
    }
    assert(glob_token(g).len() >= 7);
}

/// With no sources configured the backup command ends with `.`; otherwise it
/// ends with exactly the configured sources, in their order, and holds `.`
/// only where the configuration itself supplies it.
pub proof fn lemma_backup_sources(cli: Cli, cfg: Config)
    ensures
        ({
            let a = backup_args_view(cli, cfg);
            let s = views(cfg.backup.sources@);
            &&& s.len() == 0 ==> a.last() == "."@ && a.contains("."@)
            &&& s.len() > 0 ==> a.subrange(a.len() - s.len(), a.len() as int) == s
            &&& s.len() > 0 && !s.contains("."@) && cfg.repo.path@ != "."@ && cfg.repo.password@
                != "."@ && cfg.backup.exclude_if_present@ != "."@ ==> !a.contains("."@)
        }),
{
    let a = backup_args_view(cli, cfg);
    let s = views(cfg.backup.sources@);
    let base = rustic_base_view(cli.sudo, cfg.repo.path@, cfg.repo.password@);
    let flags = backup_flags_view(cfg.backup);
    let tokens = views(cfg.backup.globs@).map_values(|g: Seq<char>| glob_token(g));
    let head = base + flags + tokens;
    assert(a == head + backup_sources_view(s));
    if s.len() == 0 {
        assert(a[a.len() - 1] == "."@);
    } else {
        assert(a.subrange(a.len() - s.len(), a.len() as int) =~= s);
        if !s.contains("."@) && cfg.repo.path@ != "."@ && cfg.repo.password@ != "."@
            && cfg.backup.exclude_if_present@ != "."@ {
            assert forall|i: int| 0 <= i < a.len() implies a[i] != "."@ by {
                lemma_fixed_words_are_not_dot(cfg.backup.compression as nat, Seq::empty());
                if i < base.len() {
                    if cli.sudo {
                        assert(base[i] == seq!["doas"@, "rustic"@, "-r"@, cfg.repo.path@, "--password"@, cfg.repo.password@][i]);
                    } else {
                        assert(base[i] == seq!["rustic"@, "-r"@, cfg.repo.path@, "--password"@, cfg.repo.password@][i]);
                    }
                } else if i < base.len() + flags.len() {
                    assert(a[i] == flags[i - base.len()]);
                } else if i < head.len() {
                    let j = i - base.len() - flags.len();
                    lemma_fixed_words_are_not_dot(0, views(cfg.backup.globs@)[j]);
                    assert(a[i] == tokens[j]);
                } else {
                    assert(a[i] == s[i - head.len()]);
                }
            }
        }
    }
}

} // verus!
