//! Mounting the configured network share: the share table, and the decisions
//! of the mount stage between the commands it has run for it.
use vstd::prelude::*;
use vstd::string::StringExecFns;

use crate::config::MountConfig;
use crate::text::{chars_of, views};
use crate::ui::StageOutcome;

verus! {

/// The shares exported from the first volume of the NAS under their own name.
pub open spec fn vol1_share(name: Seq<char>) -> bool {
    ||| name == "isos"@
    ||| name == "pictures"@
    ||| name == "movies"@
    ||| name == "videos"@
    ||| name == "backups"@
    ||| name == "owncloud"@
    ||| name == "lan-share"@
    ||| name == "repos"@
    ||| name == "documents"@
}

/// The NFS source (`server:/export`) of a known share.
pub open spec fn nfs_source_view(name: Seq<char>) -> Option<Seq<char>> {
    if name == "new-documents"@ {
        Some("documents.lan:/documents"@)
    } else if name == "new-backups"@ {
        Some("nas.lan:/mnt/vol2/backups"@)
    } else if vol1_share(name) {
        Some("nas.lan:/mnt/vol1/"@ + name)
    } else {
        None
    }
}

fn same_text(a: &str, b: &str) -> (r: bool)
    ensures
        r == (a@ == b@),
{
    String::from_str(a) == String::from_str(b)
}

/// Full NFS source string (`server:/export/path`) for the share `name`, or
/// `None` for a share the table does not know.
pub fn nfs_source(name: &str) -> (r: Option<String>)
    ensures
        match r {
            Some(s) => nfs_source_view(name@) == Some(s@),
            None => nfs_source_view(name@) is None,
        },
{
    if same_text(name, "new-documents") {
        Some(String::from_str("documents.lan:/documents"))
    } else if same_text(name, "new-backups") {
        Some(String::from_str("nas.lan:/mnt/vol2/backups"))
    } else if same_text(name, "isos") || same_text(name, "pictures") || same_text(name, "movies")
        || same_text(name, "videos") || same_text(name, "backups") || same_text(name, "owncloud")
        || same_text(name, "lan-share") || same_text(name, "repos") || same_text(name, "documents") {
        Some(String::from_str("nas.lan:/mnt/vol1/").concat(name))
    } else {
        None
    }
}

/// The user whose home holds the mountpoint: the configured one, else the
/// `USER` variable, else `LOGNAME`, else `user`.
pub open spec fn effective_user_view(
    configured: Option<String>,
    user_var: Option<String>,
    logname_var: Option<String>,
) -> Seq<char> {
    match configured {
        Some(u) => u@,
        None => match user_var {
            Some(u) => u@,
            None => match logname_var {
                Some(u) => u@,
                None => "user"@,
            },
        },
    }
}

/// Resolves the effective user from the configuration and the values of the
/// `USER` and `LOGNAME` environment variables.
pub fn effective_user(cfg: &MountConfig, user_var: Option<String>, logname_var: Option<String>) -> (r:
    String)
    ensures
        r@ == effective_user_view(cfg.user, user_var, logname_var),
{
    match &cfg.user {
        Some(u) => u.clone(),
        None => match user_var {
            Some(u) => u,
            None => match logname_var {
                Some(u) => u,
                None => String::from_str("user"),
            },
        },
    }
}

/// `/home/<user>/nfs/<share>`.
pub open spec fn mountpoint_view(user: Seq<char>, share: Seq<char>) -> Seq<char> {
    "/home/"@ + user + "/nfs/"@ + share
}

/// `needle` occurs in `hay` starting at `i`.
pub open spec fn occurs_at(hay: Seq<char>, needle: Seq<char>, i: int) -> bool {
    &&& 0 <= i
    &&& i + needle.len() <= hay.len()
    &&& hay.subrange(i, i + needle.len()) == needle
}

/// The `n` characters of `hay` from `i` lie within one line: they hold no
/// line feed and do not end with the carriage return of a CRLF line ending.
pub open spec fn within_line(hay: Seq<char>, n: int, i: int) -> bool {
    &&& forall|k: int| i <= k < i + n ==> hay[k] != '\n'
    &&& !(n > 0 && hay[i + n - 1] == '\r' && i + n < hay.len() && hay[i + n] == '\n')
}

/// Some line of `listing` contains `share`; a listing without characters has
/// no lines.
pub open spec fn mentions(listing: Seq<char>, share: Seq<char>) -> bool {
    &&& listing.len() > 0
    &&& exists|i: int| occurs_at(listing, share, i) && within_line(listing, share.len() as int, i)
}

fn occurs_at_exec(hay: &Vec<char>, needle: &Vec<char>, i: usize) -> (r: bool)
    requires
        i + needle@.len() <= hay@.len(),
    ensures
        r == occurs_at(hay@, needle@, i as int),
{
    let hay_len = hay.len();
    let mut k: usize = 0;
    while k < needle.len()
        invariant
            hay@.len() == hay_len,
            i + needle@.len() <= hay@.len(),
            k <= needle@.len(),
            forall|j: int| 0 <= j < k ==> hay@[i + j] == needle@[j],
        decreases needle@.len() - k,
    {
        if hay[i + k] != needle[k] {
            assert(hay@.subrange(i as int, i + needle@.len())[k as int] != needle@[k as int]);
            return false;
        }
        k = k + 1;
    }
    assert(hay@.subrange(i as int, i + needle@.len()) =~= needle@);
    true
}

fn within_line_exec(hay: &Vec<char>, n: usize, i: usize) -> (r: bool)
    requires
        i + n <= hay@.len(),
    ensures
        r == within_line(hay@, n as int, i as int),
{
    let hay_len = hay.len();
    let mut k: usize = i;
    while k < i + n
        invariant
            hay@.len() == hay_len,
            i + n <= hay@.len(),
            i <= k <= i + n,
            forall|j: int| i <= j < k ==> hay@[j] != '\n',
        decreases i + n - k,
    {
        if hay[k] == '\n' {
            return false;
        }
        k = k + 1;
    }
    !(n > 0 && hay[i + n - 1] == '\r' && i + n < hay.len() && hay[i + n] == '\n')
}

/// Whether some line of a mount listing contains `share`.
pub fn line_mentions(listing: &str, share: &str) -> (r: bool)
    ensures
        r == mentions(listing@, share@),
{
    let hay = chars_of(listing);
    let needle = chars_of(share);
    if hay.len() == 0 || needle.len() > hay.len() {
        return false;
    }
    let last = hay.len() - needle.len();
    let mut i: usize = 0;
    loop
        invariant
            last == hay@.len() - needle@.len(),
            i <= last,
            hay@ == listing@,
            needle@ == share@,
            hay@.len() > 0,
            forall|j: int|
                0 <= j < i ==> !(occurs_at(hay@, needle@, j) && within_line(
                    hay@,
                    needle@.len() as int,
                    j,
                )),
        decreases last - i,
    {
        if occurs_at_exec(&hay, &needle, i) && within_line_exec(&hay, needle.len(), i) {
            assert(occurs_at(hay@, needle@, i as int) && within_line(
                hay@,
                needle@.len() as int,
                i as int,
            ));
            return true;
        }
        if i == last {
            assert forall|j: int| !(occurs_at(hay@, needle@, j) && within_line(
                hay@,
                needle@.len() as int,
                j,
            )) by {
                if j > i {
                    assert(!occurs_at(hay@, needle@, j));
                }
            }
            return false;
        }
        i = i + 1;
    }
}

/// The error of a mount stage without a configured share.
pub open spec fn share_missing_message() -> Seq<char> {
    "[mount].share is not set — add `share = \"new-backups\"` to backup.toml"@
}

/// `doas mount -t nfs <source> <mountpoint>`.
pub open spec fn attach_args_view(source: Seq<char>, mountpoint: Seq<char>) -> Seq<Seq<char>> {
    seq!["doas"@, "mount"@, "-t"@, "nfs"@, source, mountpoint]
}

/// A failed mount outcome with the message `msg` and no captured output.
pub open spec fn mount_failed(r: StageOutcome, msg: Seq<char>) -> bool {
    &&& r.label@ == "Mount"@
    &&& !r.success
    &&& r.stdout@.len() == 0
    &&& r.stderr@.len() == 0
    &&& r.error is Some
    &&& r.error->Some_0@ == msg
}

/// A successful mount outcome that reports `msg`.
pub open spec fn mount_succeeded(r: StageOutcome, msg: Seq<char>) -> bool {
    &&& r.label@ == "Mount"@
    &&& r.success
    &&& r.stdout@ == msg
    &&& r.stderr@.len() == 0
    &&& r.error is None
}

fn failure(msg: String) -> (r: StageOutcome)
    ensures
        mount_failed(r, msg@),
        r.consistent(),
{
    StageOutcome {
        label: String::from_str("Mount"),
        success: false,
        stdout: String::new(),
        stderr: String::new(),
        error: Some(msg),
    }
}

fn success(msg: String) -> (r: StageOutcome)
    ensures
        mount_succeeded(r, msg@),
        r.consistent(),
{
    StageOutcome {
        label: String::from_str("Mount"),
        success: true,
        stdout: msg,
        stderr: String::new(),
        error: None,
    }
}

/// A known share, where it comes from and where it goes.
pub struct MountTarget {
    pub share: String,
    /// The share's NFS source, from the share table.
    pub source: String,
    pub mountpoint: String,
}

/// What the mount stage needs done next.
pub enum MountStep {
    /// List the mounted filesystems (`doas mount`) and hand the listing, or
    /// `None` when it could not be run, to [`MountTarget::probed`].
    Probe(MountTarget),
    /// Create the mountpoint with its parents and report to [`MountTarget::created`].
    CreateDir(MountTarget),
    /// Run `args` and report how it exited to [`MountTarget::attached`].
    Attach { target: MountTarget, args: Vec<String> },
    /// The mount stage is over with this outcome.
    Done(StageOutcome),
}

/// Starts the mount stage for the user `user`: fails at once when no share
/// is configured or the share table does not know it, else asks whether the
/// share is already mounted.
pub fn mount_share(cfg: &MountConfig, user: &str) -> (r: MountStep)
    ensures
        cfg.share is None ==> (r matches MountStep::Done(o) && mount_failed(
            o,
            share_missing_message(),
        ) && o.consistent()),
        cfg.share is Some && nfs_source_view(cfg.share->Some_0@) is None ==> (r matches MountStep::Done(
            o,
        ) && mount_failed(o, "unknown share name: '"@ + cfg.share->Some_0@ + "'"@)
            && o.consistent()),
        cfg.share is Some && nfs_source_view(cfg.share->Some_0@) is Some ==> (r matches MountStep::Probe(
            t,
        ) && t.share@ == cfg.share->Some_0@ && Some(t.source@) == nfs_source_view(
            cfg.share->Some_0@,
        ) && t.mountpoint@ == mountpoint_view(user@, cfg.share->Some_0@)),
{
    match &cfg.share {
        None => MountStep::Done(
            failure(
                String::from_str(
                    "[mount].share is not set — add `share = \"new-backups\"` to backup.toml",
                ),
            ),
        ),
        Some(share) => match nfs_source(share.as_str()) {
            None => {
                let msg = String::from_str("unknown share name: '").concat(share.as_str()).concat(
                    "'",
                );
                MountStep::Done(failure(msg))
            },
            Some(source) => {
                let mountpoint = String::from_str("/home/").concat(user).concat("/nfs/").concat(
                    share.as_str(),
                );
                MountStep::Probe(MountTarget { share: share.clone(), source, mountpoint })
            },
        },
    }
}

impl MountTarget {
    /// Decides on the mount listing: a listing that could not be had fails
    /// the stage, a share already listed ends it successfully, otherwise the
    /// mountpoint is created next.
    pub fn probed(self, listing: Option<String>) -> (r: MountStep)
        ensures
            match listing {
                None => r matches MountStep::Done(o) && mount_failed(
                    o,
                    "failed to run doas mount"@,
                ) && o.consistent(),
                Some(l) => if mentions(l@, self.share@) {
                    r matches MountStep::Done(o) && mount_succeeded(
                        o,
                        self.share@ + " already mounted at "@ + self.mountpoint@,
                    ) && o.consistent()
                } else {
                    r matches MountStep::CreateDir(t) && t == self
                },
            },
    {
        match listing {
            None => MountStep::Done(failure(String::from_str("failed to run doas mount"))),
            Some(l) => {
                if line_mentions(l.as_str(), self.share.as_str()) {
                    let msg = self.share.clone().concat(" already mounted at ").concat(
                        self.mountpoint.as_str(),
                    );
                    MountStep::Done(success(msg))
                } else {
                    MountStep::CreateDir(self)
                }
            },
        }
    }

    /// Decides after creating the mountpoint: a failure ends the stage,
    /// otherwise the share is attached.
    pub fn created(self, ok: bool) -> (r: MountStep)
        ensures
            !ok ==> (r matches MountStep::Done(o) && mount_failed(o, "mkdir -p "@ + self.mountpoint@)
                && o.consistent()),
            ok ==> (r matches MountStep::Attach { target, args } && target == self && views(args@)
                == attach_args_view(self.source@, self.mountpoint@)),
    {
        if !ok {
            let msg = String::from_str("mkdir -p ").concat(self.mountpoint.as_str());
            return MountStep::Done(failure(msg));
        }
        let mut args: Vec<String> = Vec::new();
        args.push(String::from_str("doas"));
        args.push(String::from_str("mount"));
        args.push(String::from_str("-t"));
        args.push(String::from_str("nfs"));
        args.push(self.source.clone());
        args.push(self.mountpoint.clone());
        assert(views(args@) =~= attach_args_view(self.source@, self.mountpoint@));
        MountStep::Attach { target: self, args }
    }

    /// The outcome of the stage once `doas mount` has ended: `None` when it
    /// could not be spawned, else whether it exited successfully.
    pub fn attached(&self, exit: Option<bool>) -> (r: StageOutcome)
        ensures
            r.consistent(),
            exit is None ==> mount_failed(r, "failed to spawn doas mount"@),
            exit == Some(false) ==> mount_failed(
                r,
                "doas mount -t nfs "@ + self.source@ + " "@ + self.mountpoint@
                    + " exited non-zero"@,
            ),
            exit == Some(true) ==> mount_succeeded(
                r,
                "mounted "@ + self.source@ + " → "@ + self.mountpoint@,
            ),
    {
        match exit {
            None => failure(String::from_str("failed to spawn doas mount")),
            Some(false) => failure(
                String::from_str("doas mount -t nfs ").concat(self.source.as_str()).concat(
                    " ",
                ).concat(self.mountpoint.as_str()).concat(" exited non-zero"),
            ),
            Some(true) => success(
                String::from_str("mounted ").concat(self.source.as_str()).concat(" → ").concat(
                    self.mountpoint.as_str(),
                ),
            ),
        }
    }
}

} // verus!
