use fwflash::disk::{disks_from_labels, disks_from_volumes, Disk};
use fwflash::session::{
    start_session, Action, CopyOutcome, DirOutcome, Event, FlashError, MountOutcome, Phase,
    Session,
};
use fwflash::MAX_SCANS;

fn s(x: &str) -> String {
    x.to_string()
}

fn both_hands() -> Vec<String> {
    vec![s("GLV80LHBOOT"), s("GLV80RHBOOT")]
}

fn started(mount_requested: bool, can_mount: bool, labels: Vec<String>) -> Session {
    start_session(s("firmware.uf2"), true, mount_requested, can_mount, labels)
        .expect("pre-flight should pass")
}

fn volumes(entries: &[(&str, &str)]) -> Event {
    Event::Snapshot(disks_from_volumes(
        entries.iter().map(|(l, p)| (s(l), s(p))).collect(),
    ))
}

#[test]
fn preflight_missing_file_fails() {
    let r = start_session(s("firmware.uf2"), false, false, false, both_hands());
    assert_eq!(r, Err(FlashError::MissingFile));
}

#[test]
fn preflight_wrong_extension_fails_before_any_enumeration() {
    let r = start_session(s("firmware.bin"), true, false, false, both_hands());
    assert_eq!(r, Err(FlashError::InvalidFormat));
}

#[test]
fn preflight_success_starts_scanning_with_full_budget() {
    let session = started(false, false, both_hands());
    assert_eq!(session.phase, Phase::Scanning);
    assert_eq!(session.attempts_left, MAX_SCANS);
    assert_eq!(session.pending, both_hands());
    assert_eq!(session.initial_action(), Action::Poll { device_view: false });
}

#[test]
fn mount_flag_is_forced_off_without_platform_support() {
    let session = started(true, false, both_hands());
    assert_eq!(session.initial_action(), Action::Poll { device_view: false });
}

#[test]
fn scenario_mounted_volume_on_third_attempt() {
    let mut session = started(false, false, both_hands());
    assert_eq!(session.initial_action(), Action::Poll { device_view: false });

    // The target volume is absent on the first two attempts.
    let a = session.step(volumes(&[]));
    assert_eq!(a, Action::SleepThenPoll { device_view: false });
    let a = session.step(volumes(&[("OTHERDISK", "/media/other")]));
    assert_eq!(a, Action::SleepThenPoll { device_view: false });

    // It appears on attempt 3, already mounted at /media/lh.
    let a = session.step(volumes(&[("GLV80LHBOOT", "/media/lh")]));
    assert_eq!(
        a,
        Action::CopyFile {
            dir: s("/media/lh"),
            dest: s("/media/lh/firmware.uf2"),
        }
    );

    // The copy succeeds; the label retires and polling resumes.
    let a = session.step(Event::CopyDone(CopyOutcome::Done));
    assert_eq!(a, Action::Poll { device_view: false });
    assert_eq!(session.pending, vec![s("GLV80RHBOOT")]);
    assert_eq!(session.phase, Phase::Scanning);
    assert_eq!(session.attempts_left, MAX_SCANS);
}

#[test]
fn scenario_timeout_after_fifty_empty_attempts() {
    let mut session = started(false, false, both_hands());
    assert_eq!(session.initial_action(), Action::Poll { device_view: false });
    for _ in 0..49 {
        let a = session.step(volumes(&[]));
        assert_eq!(a, Action::SleepThenPoll { device_view: false });
    }
    // The fiftieth unsuccessful scan spends the budget.
    let a = session.step(volumes(&[]));
    assert_eq!(a, Action::Abort(FlashError::Timeout));
    assert_eq!(session.phase, Phase::Failed);
    // No copy happened: both labels are still pending.
    assert_eq!(session.pending, both_hands());
}

#[test]
fn scenario_device_mount_platform() {
    let mut session = started(true, true, vec![s("GLV80RHBOOT")]);
    assert_eq!(session.initial_action(), Action::Poll { device_view: true });

    // Device-mode enumeration lists the label in the by-label directory.
    let a = session.step(Event::Snapshot(disks_from_labels(vec![s("GLV80RHBOOT")])));
    assert_eq!(a, Action::EnsureDir { dir: s("/tmp/GLV80RHBOOT_mnt") });

    // The scratch directory did not exist and was created.
    let a = session.step(Event::DirReady(DirOutcome::Created));
    assert_eq!(
        a,
        Action::MountDevice {
            device: s("/dev/disk/by-label/GLV80RHBOOT"),
            dir: s("/tmp/GLV80RHBOOT_mnt"),
        }
    );

    // The mount succeeds and yields the write path.
    let a = session.step(Event::MountDone(MountOutcome::Mounted(s(
        "/tmp/GLV80RHBOOT_mnt",
    ))));
    assert_eq!(
        a,
        Action::CopyFile {
            dir: s("/tmp/GLV80RHBOOT_mnt"),
            dest: s("/tmp/GLV80RHBOOT_mnt/firmware.uf2"),
        }
    );

    // The copy succeeds; the last label retires and the run completes.
    let a = session.step(Event::CopyDone(CopyOutcome::Done));
    assert_eq!(a, Action::Finished);
    assert_eq!(session.phase, Phase::Done);
    assert!(session.pending.is_empty());
}

#[test]
fn existing_scratch_directory_still_succeeds() {
    let mut session = started(true, true, vec![s("GLV80RHBOOT")]);
    session.step(Event::Snapshot(disks_from_labels(vec![s("GLV80RHBOOT")])));
    let a = session.step(Event::DirReady(DirOutcome::AlreadyExists));
    assert_eq!(
        a,
        Action::MountDevice {
            device: s("/dev/disk/by-label/GLV80RHBOOT"),
            dir: s("/tmp/GLV80RHBOOT_mnt"),
        }
    );
    assert_eq!(session.phase, Phase::AwaitMount { label: s("GLV80RHBOOT") });
}

#[test]
fn mountpoint_disk_is_written_at_its_own_path() {
    let mut session = started(false, false, both_hands());
    let a = session.step(volumes(&[("GLV80RHBOOT", "/media/rh")]));
    match a {
        Action::CopyFile { dir, dest } => {
            assert_eq!(dir, "/media/rh");
            assert_eq!(dest, "/media/rh/firmware.uf2");
        }
        other => panic!("expected a copy, got {:?}", other),
    }
}

#[test]
fn enumeration_failure_is_fatal() {
    let mut session = started(false, false, both_hands());
    let a = session.step(Event::SnapshotFailed(s("cannot list volumes")));
    assert_eq!(
        a,
        Action::Abort(FlashError::Enumerate(s("cannot list volumes")))
    );
    assert_eq!(session.phase, Phase::Failed);
}

#[test]
fn scratch_directory_failure_is_fatal() {
    let mut session = started(true, true, vec![s("GLV80RHBOOT")]);
    session.step(Event::Snapshot(disks_from_labels(vec![s("GLV80RHBOOT")])));
    let a = session.step(Event::DirReady(DirOutcome::Failed(s("permission denied"))));
    assert_eq!(
        a,
        Action::Abort(FlashError::CreateDir(s("permission denied")))
    );
    assert_eq!(session.phase, Phase::Failed);
}

#[test]
fn mount_failure_is_fatal() {
    let mut session = started(true, true, vec![s("GLV80RHBOOT")]);
    session.step(Event::Snapshot(disks_from_labels(vec![s("GLV80RHBOOT")])));
    session.step(Event::DirReady(DirOutcome::Created));
    let a = session.step(Event::MountDone(MountOutcome::Failed(s("bad superblock"))));
    assert_eq!(a, Action::Abort(FlashError::Mount(s("bad superblock"))));
    assert_eq!(session.phase, Phase::Failed);
}

#[test]
fn copy_failure_is_fatal() {
    let mut session = started(false, false, both_hands());
    session.step(volumes(&[("GLV80LHBOOT", "/media/lh")]));
    let a = session.step(Event::CopyDone(CopyOutcome::Failed(s("short write"))));
    assert_eq!(a, Action::Abort(FlashError::Copy(s("short write"))));
    assert_eq!(session.phase, Phase::Failed);
}

#[test]
fn both_hands_flash_one_after_the_other() {
    let mut session = started(false, false, both_hands());
    session.initial_action();

    // Both volumes are visible at once; they are served one at a time.
    let snap = || -> Event {
        Event::Snapshot(disks_from_volumes(vec![
            (s("GLV80RHBOOT"), s("/media/rh")),
            (s("GLV80LHBOOT"), s("/media/lh")),
        ]))
    };
    let a = session.step(snap());
    assert_eq!(
        a,
        Action::CopyFile { dir: s("/media/rh"), dest: s("/media/rh/firmware.uf2") }
    );
    let a = session.step(Event::CopyDone(CopyOutcome::Done));
    assert_eq!(a, Action::Poll { device_view: false });
    assert_eq!(session.pending, vec![s("GLV80LHBOOT")]);

    let a = session.step(snap());
    assert_eq!(
        a,
        Action::CopyFile { dir: s("/media/lh"), dest: s("/media/lh/firmware.uf2") }
    );
    let a = session.step(Event::CopyDone(CopyOutcome::Done));
    assert_eq!(a, Action::Finished);
    assert_eq!(session.phase, Phase::Done);
    assert!(session.pending.is_empty());
}

#[test]
fn budget_is_restored_for_the_next_label() {
    let mut session = started(false, false, both_hands());
    session.step(volumes(&[]));
    session.step(volumes(&[]));
    assert_eq!(session.attempts_left, MAX_SCANS - 2);
    session.step(volumes(&[("GLV80LHBOOT", "/media/lh")]));
    session.step(Event::CopyDone(CopyOutcome::Done));
    assert_eq!(session.attempts_left, MAX_SCANS);

    // A disk whose label already retired no longer matches.
    let a = session.step(volumes(&[("GLV80LHBOOT", "/media/lh")]));
    assert_eq!(a, Action::SleepThenPoll { device_view: false });
}
