//! The privilege prefix and the base of every backup-engine command.
use vstd::prelude::*;
use vstd::string::StringExecFns;

use crate::cli::Cli;
use crate::config::Config;
use crate::text::views;

verus! {

/// The elevation prefix: `["doas"]` when elevating, else nothing.
pub open spec fn prefix_view(sudo: bool) -> Seq<Seq<char>> {
    if sudo {
        seq!["doas"@]
    } else {
        Seq::empty()
    }
}

/// `[doas] rustic -r <path> --password <password>`.
pub open spec fn rustic_base_view(sudo: bool, path: Seq<char>, password: Seq<char>) -> Seq<
    Seq<char>,
> {
    prefix_view(sudo) + seq!["rustic"@, "-r"@, path, "--password"@, password]
}

/// Returns `["doas"]` when `--sudo` is set, otherwise an empty vector.
pub fn prefix(cli: &Cli) -> (r: Vec<String>)
    ensures
        views(r@) == prefix_view(cli.sudo),
{
    let mut r: Vec<String> = Vec::new();
    if cli.sudo {
        r.push(String::from_str("doas"));
    }
    assert(views(r@) =~= prefix_view(cli.sudo));
    r
}

/// The arguments shared by every backup-engine invocation; callers append the
/// subcommand and its flags.
pub fn rustic_base(cli: &Cli, cfg: &Config) -> (r: Vec<String>)
    ensures
        views(r@) == rustic_base_view(cli.sudo, cfg.repo.path@, cfg.repo.password@),
{
    let mut cmd = prefix(cli);
    cmd.push(String::from_str("rustic"));
    cmd.push(String::from_str("-r"));
    cmd.push(cfg.repo.path.clone());
    cmd.push(String::from_str("--password"));
    cmd.push(cfg.repo.password.clone());
    assert(views(cmd@) =~= rustic_base_view(cli.sudo, cfg.repo.path@, cfg.repo.password@));
    cmd
}

} // verus!
