use vstd::prelude::*;
use crate::disk::{Disk, Target};
use crate::matcher::{is_pending, snapshot_matches, first_match_at, match_disk};
use crate::pending::{unique_labels, spec_retire, retire_label, lemma_retire_membership};
use crate::paths::{
    spec_scratch_dir, scratch_dir_for, spec_dest_path, dest_path_for, is_uf2_name,
    has_uf2_extension,
};
use crate::MAX_SCANS;

verus! {

/// A fatal condition; every variant aborts the whole run.
#[derive(Debug, PartialEq, Eq)]
pub enum FlashError {
    /// The input file does not exist.
    MissingFile,
    /// The input file does not carry the required extension.
    InvalidFormat,
    /// The attempt budget was spent without a pending disk appearing.
    Timeout,
    /// The OS disk state could not be queried.
    Enumerate(String),
    /// The scratch directory could not be created.
    CreateDir(String),
    /// The mount of a raw device failed.
    Mount(String),
    /// The copy toward a matched disk failed.
    Copy(String),
}

/// What the OS reported for a scratch-directory creation.
#[derive(Debug, PartialEq, Eq)]
pub enum DirOutcome {
    Created,
    AlreadyExists,
    Failed(String),
}

/// What the OS reported for a mount attempt: on success, the write path.
#[derive(Debug, PartialEq, Eq)]
pub enum MountOutcome {
    Mounted(String),
    Failed(String),
}

/// What the OS reported for a copy attempt.
#[derive(Debug, PartialEq, Eq)]
pub enum CopyOutcome {
    Done,
    Failed(String),
}

/// One answer from the outside world, handed to `Session::step`.
#[derive(Debug, PartialEq, Eq)]
pub enum Event {
    /// The snapshot that the requested poll produced.
    Snapshot(Vec<Disk>),
    /// The enumeration itself failed.
    SnapshotFailed(String),
    /// The requested scratch-directory creation finished.
    DirReady(DirOutcome),
    /// The requested mount finished.
    MountDone(MountOutcome),
    /// The requested copy finished.
    CopyDone(CopyOutcome),
}

/// The next piece of outside work that the driver asks for.
#[derive(Debug, PartialEq, Eq)]
pub enum Action {
    /// Enumerate now: the device view when `device_view`, else the
    /// mounted-volumes view.
    Poll { device_view: bool },
    /// Sleep `SLEEP_SECS` seconds, then enumerate as `Poll` says.
    SleepThenPoll { device_view: bool },
    /// Create `dir`, reporting an already existing directory as such.
    EnsureDir { dir: String },
    /// Mount the raw device at `dir` with a FAT-compatible driver.
    MountDevice { device: String, dir: String },
    /// Copy the source file into `dir`; `dest` is the full target path.
    CopyFile { dir: String, dest: String },
    /// Every pending label was served; report completion.
    Finished,
    /// A fatal condition; the run is over.
    Abort(FlashError),
}

/// Where the driver stands between two events.
#[derive(Debug, PartialEq, Eq)]
pub enum Phase {
    /// Polling for the next pending disk.
    Scanning,
    /// A raw device matched; waiting for its scratch directory.
    AwaitDir { label: String, device: String },
    /// Waiting for the mount of the matched raw device.
    AwaitMount { label: String },
    /// Waiting for the copy toward the matched disk.
    Copying { label: String },
    /// Every pending label was served.
    Done,
    /// A fatal condition was reported.
    Failed,
}

/// The Copy-and-Retire Driver: a state machine over the pending-label set,
/// driven by events from the outside world and answering with the next
/// action.  Its terminal states are `Done` (pending set empty) and `Failed`.
#[derive(Debug, PartialEq, Eq)]
pub struct Session {
    /// Labels still awaiting a successful copy; pairwise distinct.
    pub pending: Vec<String>,
    /// Whether enumeration uses the raw-device view (mounting required).
    pub device_view: bool,
    /// Base name of the source file; every copy writes this name.
    pub source_name: String,
    /// Enumeration/match cycles left for the disk currently waited for.
    pub attempts_left: u8,
    /// Where the driver stands.
    pub phase: Phase,
}

impl Session {
    /// The still-pending labels, as character sequences.
    pub open spec fn labels(&self) -> Seq<Seq<char>> {
        self.pending.deep_view()
    }

    /// The driver's invariant.
    pub open spec fn wf(&self) -> bool {
        &&& unique_labels(self.labels())
        &&& self.attempts_left <= MAX_SCANS
        &&& match self.phase {
            Phase::Scanning => 1 <= self.attempts_left && self.labels().len() > 0,
            Phase::AwaitDir { label, device } => is_pending(self.labels(), label@),
            Phase::AwaitMount { label } => is_pending(self.labels(), label@),
            Phase::Copying { label } => is_pending(self.labels(), label@),
            Phase::Done => self.labels().len() == 0,
            Phase::Failed => true,
        }
    }
}

/// Which events can answer the action requested in a given phase.
pub open spec fn event_fits(phase: Phase, ev: Event) -> bool {
    match phase {
        Phase::Scanning => ev is Snapshot || ev is SnapshotFailed,
        Phase::AwaitDir { label, device } => ev is DirReady,
        Phase::AwaitMount { label } => ev is MountDone,
        Phase::Copying { label } => ev is CopyDone,
        Phase::Done => false,
        Phase::Failed => false,
    }
}

/// The parts of a session that no step ever changes but a retire.
pub open spec fn same_config(pre: Session, post: Session) -> bool {
    &&& post.pending.deep_view() == pre.pending.deep_view()
    &&& post.device_view == pre.device_view
    &&& post.source_name@ == pre.source_name@
}

/// What finding disk `d` does: a disk already carrying a filesystem path is
/// copied to at that very path, unchanged; a raw device first gets its
/// scratch directory and a mount.
pub open spec fn found_spec(pre: Session, d: Disk, post: Session, a: Action) -> bool {
    match d.target {
        Target::Mountpoint(p) => {
            &&& same_config(pre, post)
            &&& post.attempts_left == pre.attempts_left
            &&& post.phase matches Phase::Copying { label } && label@ == d.label@
            &&& a matches Action::CopyFile { dir, dest } && dir@ == p@ && dest@
                == spec_dest_path(p@, pre.source_name@)
        },
        Target::Device(dev) => {
            &&& same_config(pre, post)
            &&& post.attempts_left == pre.attempts_left
            &&& post.phase matches Phase::AwaitDir { label, device } && label@ == d.label@
                && device@ == dev@
            &&& a matches Action::EnsureDir { dir } && dir@ == spec_scratch_dir(d.label@)
        },
    }
}

/// The driver's transition relation: how one event moves the session on and
/// which action it requests next.
pub open spec fn step_spec(pre: Session, ev: Event, post: Session, a: Action) -> bool {
    match (pre.phase, ev) {
        (Phase::Scanning, Event::Snapshot(snap)) => {
            if snapshot_matches(snap@, pre.labels()) {
                exists|i: int|
                    #[trigger] first_match_at(snap@, pre.labels(), i) && found_spec(
                        pre,
                        snap@[i],
                        post,
                        a,
                    )
            } else if pre.attempts_left > 1 {
                &&& same_config(pre, post)
                &&& post.attempts_left == pre.attempts_left - 1
                &&& post.phase is Scanning
                &&& a == (Action::SleepThenPoll { device_view: pre.device_view })
            } else {
                &&& same_config(pre, post)
                &&& post.phase is Failed
                &&& a == Action::Abort(FlashError::Timeout)
            }
        },
        (Phase::Scanning, Event::SnapshotFailed(msg)) => {
            &&& same_config(pre, post)
            &&& post.phase is Failed
            &&& a == Action::Abort(FlashError::Enumerate(msg))
        },
        (Phase::AwaitDir { label, device }, Event::DirReady(out)) => match out {
            DirOutcome::Created | DirOutcome::AlreadyExists => {
                &&& same_config(pre, post)
                &&& post.attempts_left == pre.attempts_left
                &&& post.phase matches Phase::AwaitMount { label: l } && l@ == label@
                &&& a matches Action::MountDevice { device: dv, dir } && dv@ == device@
                    && dir@ == spec_scratch_dir(label@)
            },
            DirOutcome::Failed(msg) => {
                &&& same_config(pre, post)
                &&& post.phase is Failed
                &&& a == Action::Abort(FlashError::CreateDir(msg))
            },
        },
        (Phase::AwaitMount { label }, Event::MountDone(out)) => match out {
            MountOutcome::Mounted(path) => {
                &&& same_config(pre, post)
                &&& post.attempts_left == pre.attempts_left
                &&& post.phase matches Phase::Copying { label: l } && l@ == label@
                &&& a matches Action::CopyFile { dir, dest } && dir@ == path@ && dest@
                    == spec_dest_path(path@, pre.source_name@)
            },
            MountOutcome::Failed(msg) => {
                &&& same_config(pre, post)
                &&& post.phase is Failed
                &&& a == Action::Abort(FlashError::Mount(msg))
            },
        },
        (Phase::Copying { label }, Event::CopyDone(out)) => match out {
            CopyOutcome::Done => {
                &&& post.pending.deep_view() == spec_retire(pre.labels(), label@)
                &&& post.device_view == pre.device_view
                &&& post.source_name@ == pre.source_name@
                &&& if spec_retire(pre.labels(), label@).len() == 0 {
                    post.phase is Done && a == Action::Finished
                } else {
                    &&& post.phase is Scanning
                    &&& post.attempts_left == MAX_SCANS
                    &&& a == (Action::Poll { device_view: pre.device_view })
                }
            },
            CopyOutcome::Failed(msg) => {
                &&& same_config(pre, post)
                &&& post.phase is Failed
                &&& a == Action::Abort(FlashError::Copy(msg))
            },
        },
        _ => false,
    }
}

/// Pre-flight and initial state: a run starts scanning with a full attempt
/// budget; it fails before any enumeration exactly when the source file is
/// missing or does not carry the required extension.  The device view is
/// used only where it was requested and the platform can mount raw devices.
pub fn start_session(
    source_name: String,
    file_exists: bool,
    mount_requested: bool,
    can_mount: bool,
    labels: Vec<String>,
) -> (r: Result<Session, FlashError>)
    requires
        unique_labels(labels.deep_view()),
        labels@.len() > 0,
    ensures
        r is Ok <==> file_exists && is_uf2_name(source_name@),
        match r {
            Ok(s) => {
                &&& s.wf()
                &&& s.phase is Scanning
                &&& s.labels() == labels.deep_view()
                &&& s.device_view == (mount_requested && can_mount)
                &&& s.source_name@ == source_name@
                &&& s.attempts_left == MAX_SCANS
            },
            Err(e) => {
                &&& (e == FlashError::MissingFile <==> !file_exists)
                &&& (e == FlashError::InvalidFormat <==> file_exists && !is_uf2_name(
                    source_name@,
                ))
            },
        },
{
    if !file_exists {
        return Err(FlashError::MissingFile);
    }
    if !has_uf2_extension(&source_name) {
        return Err(FlashError::InvalidFormat);
    }
    Ok(
        Session {
            pending: labels,
            device_view: mount_requested && can_mount,
            source_name,
            attempts_left: MAX_SCANS,
            phase: Phase::Scanning,
        },
    )
}

impl Session {
    /// The first piece of work of a run: an immediate poll.
    pub fn initial_action(&self) -> (a: Action)
        requires
            self.phase is Scanning,
        ensures
            a == (Action::Poll { device_view: self.device_view }),
    {
        Action::Poll { device_view: self.device_view }
    }

    /// Feed one event to the driver and get the next action.
    pub fn step(&mut self, ev: Event) -> (a: Action)
        requires
            old(self).wf(),
            event_fits(old(self).phase, ev),
        ensures
            final(self).wf(),
            step_spec(*old(self), ev, *final(self), a),
    {
        let ph = clone_phase(&self.phase);
        match (ph, ev) {
            (Phase::Scanning, Event::Snapshot(snap)) => {
                match match_disk(&snap, &self.pending) {
                    Some(i) => {
                        let ghost gsnap = snap@;
                        let ghost gi = i as int;
                        let mut snap = snap;
                        let d = snap.remove(i);
                        proof {
                            assert(d == gsnap[gi]);
                        }
                        match d.target {
                            Target::Mountpoint(p) => {
                                let dest = dest_path_for(&p, &self.source_name);
                                self.phase = Phase::Copying { label: d.label };
                                let a = Action::CopyFile { dir: p, dest };
                                proof {
                                    assert(first_match_at(gsnap, old(self).labels(), gi)
                                        && found_spec(*old(self), gsnap[gi], *self, a));
                                }
                                a
                            },
                            Target::Device(dev) => {
                                let dir = scratch_dir_for(&d.label);
                                self.phase = Phase::AwaitDir { label: d.label, device: dev };
                                let a = Action::EnsureDir { dir };
                                proof {
                                    assert(first_match_at(gsnap, old(self).labels(), gi)
                                        && found_spec(*old(self), gsnap[gi], *self, a));
                                }
                                a
                            },
                        }
                    },
                    None => {
                        if self.attempts_left > 1 {
                            self.attempts_left = self.attempts_left - 1;
                            Action::SleepThenPoll { device_view: self.device_view }
                        } else {
                            self.phase = Phase::Failed;
                            Action::Abort(FlashError::Timeout)
                        }
                    },
                }
            },
            (Phase::Scanning, Event::SnapshotFailed(msg)) => {
                self.phase = Phase::Failed;
                Action::Abort(FlashError::Enumerate(msg))
            },
            (Phase::AwaitDir { label, device }, Event::DirReady(out)) => {
                match out {
                    DirOutcome::Created => {
                        let dir = scratch_dir_for(&label);
                        self.phase = Phase::AwaitMount { label };
                        Action::MountDevice { device, dir }
                    },
                    DirOutcome::AlreadyExists => {
                        let dir = scratch_dir_for(&label);
                        self.phase = Phase::AwaitMount { label };
                        Action::MountDevice { device, dir }
                    },
                    DirOutcome::Failed(msg) => {
                        self.phase = Phase::Failed;
                        Action::Abort(FlashError::CreateDir(msg))
                    },
                }
            },
            (Phase::AwaitMount { label }, Event::MountDone(out)) => {
                match out {
                    MountOutcome::Mounted(path) => {
                        let dest = dest_path_for(&path, &self.source_name);
                        self.phase = Phase::Copying { label };
                        Action::CopyFile { dir: path, dest }
                    },
                    MountOutcome::Failed(msg) => {
                        self.phase = Phase::Failed;
                        Action::Abort(FlashError::Mount(msg))
                    },
                }
            },
            (Phase::Copying { label }, Event::CopyDone(out)) => {
                match out {
                    CopyOutcome::Done => {
                        retire_label(&mut self.pending, &label);
                        proof {
                            lemma_retire_membership(old(self).labels(), label@);
                        }
                        if self.pending.len() == 0 {
                            self.phase = Phase::Done;
                            Action::Finished
                        } else {
                            self.attempts_left = MAX_SCANS;
                            self.phase = Phase::Scanning;
                            Action::Poll { device_view: self.device_view }
                        }
                    },
                    CopyOutcome::Failed(msg) => {
                        self.phase = Phase::Failed;
                        Action::Abort(FlashError::Copy(msg))
                    },
                }
            },
            _ => {
                proof {
                    assert(false);
                }
                vstd::pervasive::unreached()
            },
        }
    }
}

/// The Mount Orchestrator's no-work case: when the matched disk already
/// carries a filesystem path, the copy is requested at that very path,
/// unchanged, and no directory or mount action is issued.
pub proof fn lemma_mountpoint_path_unchanged(
    pre: Session,
    snap: Vec<Disk>,
    post: Session,
    a: Action,
    i: int,
    p: String,
)
    requires
        pre.phase is Scanning,
        step_spec(pre, Event::Snapshot(snap), post, a),
        first_match_at(snap@, pre.labels(), i),
        snap@[i].target == Target::Mountpoint(p),
    ensures
        a matches Action::CopyFile { dir, dest } && dir@ == p@ && dest@ == spec_dest_path(
            p@,
            pre.source_name@,
        ),
        post.phase is Copying,
        post.pending.deep_view() == pre.pending.deep_view(),
{
    assert(snapshot_matches(snap@, pre.labels())) by {
        assert(0 <= i < snap@.len() && is_pending(pre.labels(), snap@[i].label@));
    }
    let j = choose|j: int|
        #[trigger] first_match_at(snap@, pre.labels(), j) && found_spec(pre, snap@[j], post, a);
    crate::matcher::lemma_first_match_unique(snap@, pre.labels(), i, j);
}

/// Idempotent scratch-directory creation: a scratch directory that already
/// exists is as good as a fresh one — the run proceeds straight to the mount.
pub proof fn lemma_existing_dir_proceeds(
    pre: Session,
    post: Session,
    a: Action,
    label: String,
    device: String,
)
    requires
        pre.phase == (Phase::AwaitDir { label, device }),
        step_spec(pre, Event::DirReady(DirOutcome::AlreadyExists), post, a),
    ensures
        a matches Action::MountDevice { device: dv, dir } && dv@ == device@ && dir@
            == spec_scratch_dir(label@),
        post.phase is AwaitMount,
        post.pending.deep_view() == pre.pending.deep_view(),
{
}

/// After a successful copy-and-retire cycle for a label, that label is no
/// longer pending, every other member of the pending set is unchanged, and
/// the set shrank by exactly one.
pub proof fn lemma_copy_retires_label(pre: Session, post: Session, a: Action, label: String)
    requires
        pre.wf(),
        pre.phase == (Phase::Copying { label }),
        step_spec(pre, Event::CopyDone(CopyOutcome::Done), post, a),
    ensures
        !post.labels().contains(label@),
        forall|l: Seq<char>|
            l != label@ ==> (#[trigger] post.labels().contains(l) <==> pre.labels().contains(l)),
        post.labels().len() == pre.labels().len() - 1,
{
    lemma_retire_membership(pre.labels(), label@);
}

/// Clone the driver's phase; the clone equals the original.
fn clone_phase(p: &Phase) -> (r: Phase)
    ensures
        r == *p,
{
    match p {
        Phase::Scanning => Phase::Scanning,
        Phase::AwaitDir { label, device } => Phase::AwaitDir {
            label: label.clone(),
            device: device.clone(),
        },
        Phase::AwaitMount { label } => Phase::AwaitMount { label: label.clone() },
        Phase::Copying { label } => Phase::Copying { label: label.clone() },
        Phase::Done => Phase::Done,
        Phase::Failed => Phase::Failed,
    }
}

} // verus!
