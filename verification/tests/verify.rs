use psst::verify::{
    emoji_line, import_report, is_yes, on_sync_report, Comparison, ImportEvent, ImportOutcome,
    ImportStage, KeyImport, Recovery, SasError, SasEvent, SasStage, SyncReport, SyncStart,
    Verification, VerificationError, VerificationEvent, VerificationStage, BACKUP_POLLS,
    SYNC_DEADLINE_SECS, VERIFICATION_ATTEMPTS,
};

fn gives_up(report: SyncReport) -> String {
    match on_sync_report(&report) {
        SyncStart::GiveUp(text) => text,
        other => panic!("expected to give up, got {other:?}"),
    }
}

#[test]
fn sync_reports() {
    assert!(matches!(on_sync_report(&SyncReport::Running), SyncStart::Ready));
    assert!(matches!(on_sync_report(&SyncReport::Other), SyncStart::Wait));
    assert_eq!(gives_up(SyncReport::Error("no route".into())), "sync error: no route");
    assert_eq!(gives_up(SyncReport::Terminated), "sync terminated unexpectedly");
    assert_eq!(gives_up(SyncReport::TimedOut), "timed out waiting for initial sync");
    assert_eq!(SYNC_DEADLINE_SECS, 30);
}

#[test]
fn verification_by_comparison() {
    let mut v = Verification::new();
    assert_eq!(v.stage(), VerificationStage::Request);
    v.advance(VerificationEvent::Done);
    v.advance(VerificationEvent::Ready);
    v.advance(VerificationEvent::Other);
    assert_eq!(v.stage(), VerificationStage::Answer);
    v.advance(VerificationEvent::Compare);
    assert_eq!(v.stage(), VerificationStage::Comparison);
    v.advance(VerificationEvent::Done);
    assert_eq!(v.stage(), VerificationStage::Import);
    v.advance(VerificationEvent::Done);
    assert_eq!(v.stage(), VerificationStage::Verified);
    assert!(v.error().is_none());
    v.advance(VerificationEvent::Failed);
    assert_eq!(v.stage(), VerificationStage::Verified);
}

#[test]
fn verification_completed_elsewhere() {
    let mut v = Verification::new();
    v.advance(VerificationEvent::Done);
    v.advance(VerificationEvent::Completed);
    assert_eq!(v.stage(), VerificationStage::Import);
    v.advance(VerificationEvent::Failed);
    assert_eq!(v.stage(), VerificationStage::Failed);
    assert!(matches!(v.error(), Some(VerificationError::Outside)));
}

#[test]
fn cancelled_verification_is_retried() {
    let mut v = Verification::new();
    for _ in 1..VERIFICATION_ATTEMPTS {
        v.advance(VerificationEvent::Done);
        v.advance(VerificationEvent::Cancelled("stale".into()));
        assert_eq!(v.stage(), VerificationStage::Pause);
        v.advance(VerificationEvent::Done);
        assert_eq!(v.stage(), VerificationStage::Request);
    }
    v.advance(VerificationEvent::Done);
    v.advance(VerificationEvent::Cancelled("the user said no".into()));
    assert_eq!(v.stage(), VerificationStage::Failed);
    assert_eq!(v.error().unwrap().message(), "verification cancelled: the user said no");
    assert_eq!(VERIFICATION_ATTEMPTS, 3);
}

#[test]
fn verification_failures() {
    let answered = |event: VerificationEvent| {
        let mut v = Verification::new();
        v.advance(VerificationEvent::Done);
        v.advance(event);
        assert_eq!(v.stage(), VerificationStage::Failed);
        v.error().unwrap().message()
    };
    assert_eq!(answered(VerificationEvent::UnknownMethod), "non-SAS method not supported");
    assert_eq!(
        answered(VerificationEvent::Ended),
        "verification request stream ended unexpectedly"
    );
}

#[test]
fn emoji_that_match() {
    let mut c = Comparison::new(true);
    assert_eq!(c.stage(), SasStage::Accept);
    c.advance(SasEvent::Done);
    c.advance(SasEvent::NoEmoji);
    assert_eq!(c.stage(), SasStage::Change);
    c.advance(SasEvent::Emoji);
    assert_eq!(c.stage(), SasStage::Question);
    c.advance(SasEvent::Line(" Y\n".into()));
    assert_eq!(c.stage(), SasStage::Confirm);
    c.advance(SasEvent::Done);
    assert_eq!(c.stage(), SasStage::Change);
    c.advance(SasEvent::Completed);
    assert_eq!(c.stage(), SasStage::Over);
    assert!(c.error().is_none());
}

#[test]
fn emoji_that_differ() {
    let mut c = Comparison::new(false);
    assert_eq!(c.stage(), SasStage::Change);
    c.advance(SasEvent::Emoji);
    c.advance(SasEvent::Line("yes".into()));
    assert_eq!(c.stage(), SasStage::Mismatch);
    c.advance(SasEvent::Done);
    assert_eq!(c.stage(), SasStage::Failed);
    assert_eq!(c.error().unwrap().message(), "emoji mismatch, verification cancelled");
    assert!(is_yes("y"));
    assert!(is_yes("\tY "));
    assert!(!is_yes("n"));
    assert!(!is_yes(""));
    assert_eq!(emoji_line("🐶", "Dog"), "  🐶  Dog");
}

#[test]
fn comparisons_that_end_early() {
    let mut c = Comparison::new(false);
    c.advance(SasEvent::Cancelled("timeout".into()));
    assert_eq!(c.error().unwrap().message(), "verification cancelled: timeout");
    let mut c = Comparison::new(false);
    c.advance(SasEvent::Ended);
    assert_eq!(c.stage(), SasStage::Over);
    let mut c = Comparison::new(true);
    c.advance(SasEvent::Failed);
    assert_eq!(c.stage(), SasStage::Failed);
    assert!(matches!(c.error(), Some(SasError::Outside)));
}

#[test]
fn import_waits_for_a_shared_key() {
    let mut i = KeyImport::new();
    for _ in 0..BACKUP_POLLS {
        assert_eq!(i.stage(), ImportStage::Poll);
        i.advance(ImportEvent::Backup(false));
        assert_eq!(i.stage(), ImportStage::Pause);
        i.advance(ImportEvent::Done);
    }
    assert_eq!(i.stage(), ImportStage::Backup);
    i.advance(ImportEvent::Backup(true));
    assert_eq!(i.stage(), ImportStage::Finished(ImportOutcome::BackupEnabled));
    assert_eq!(BACKUP_POLLS, 10);
    let mut i = KeyImport::new();
    i.advance(ImportEvent::Backup(true));
    assert_eq!(i.stage(), ImportStage::Backup);
}

/// An import without a shared key, at the state of recovery.
fn at_recovery() -> KeyImport {
    let mut i = KeyImport::new();
    i.advance(ImportEvent::Backup(true));
    i.advance(ImportEvent::Backup(false));
    assert_eq!(i.stage(), ImportStage::Recovery);
    i
}

#[test]
fn import_with_a_recovery_key() {
    let mut i = at_recovery();
    i.advance(ImportEvent::Recovery(Recovery::Other));
    i.advance(ImportEvent::ServerBackup(Some(true)));
    assert_eq!(i.stage(), ImportStage::Storage);
    i.advance(ImportEvent::Recovery(Recovery::Other));
    assert_eq!(i.stage(), ImportStage::Key);
    i.advance(ImportEvent::Line("  EsTc 1234 \n".into()));
    assert_eq!(i.key(), "EsTc 1234");
    assert_eq!(i.stage(), ImportStage::Recover);
    i.advance(ImportEvent::Done);
    assert_eq!(i.stage(), ImportStage::Finished(ImportOutcome::Imported));
    i.advance(ImportEvent::Failed);
    assert_eq!(i.stage(), ImportStage::Finished(ImportOutcome::Imported));
}

#[test]
fn imports_that_need_no_key() {
    let ended = |events: Vec<ImportEvent>| {
        let mut i = at_recovery();
        for event in events {
            i.advance(event);
        }
        i.stage()
    };
    assert_eq!(
        ended(vec![ImportEvent::Recovery(Recovery::Enabled)]),
        ImportStage::Finished(ImportOutcome::RecoveryEnabled)
    );
    assert_eq!(
        ended(vec![
            ImportEvent::Recovery(Recovery::Disabled),
            ImportEvent::ServerBackup(None),
        ]),
        ImportStage::Finished(ImportOutcome::NoServerBackup)
    );
    assert_eq!(
        ended(vec![
            ImportEvent::Recovery(Recovery::Disabled),
            ImportEvent::ServerBackup(Some(true)),
            ImportEvent::Recovery(Recovery::Disabled),
        ]),
        ImportStage::Finished(ImportOutcome::NoSecretStorage)
    );
    assert_eq!(import_report(ImportOutcome::NoServerBackup), "no server-side key backup found.");
    assert_eq!(
        import_report(ImportOutcome::Imported),
        "key import complete! encrypted rooms should now decrypt."
    );
}

#[test]
fn import_with_a_wrong_key_fails() {
    let mut i = at_recovery();
    i.advance(ImportEvent::Recovery(Recovery::Other));
    i.advance(ImportEvent::ServerBackup(Some(true)));
    i.advance(ImportEvent::Recovery(Recovery::Other));
    i.advance(ImportEvent::Line("wrong".into()));
    i.advance(ImportEvent::Failed);
    assert_eq!(i.stage(), ImportStage::Failed);
}

#[test]
fn emoji_may_be_shown_again() {
    let mut c = Comparison::new(false);
    for _ in 0..2 {
        c.advance(SasEvent::Emoji);
        c.advance(SasEvent::Line("y".into()));
        c.advance(SasEvent::Done);
        assert_eq!(c.stage(), SasStage::Change);
    }
    c.advance(SasEvent::Completed);
    assert_eq!(c.stage(), SasStage::Over);
}

#[test]
fn import_comes_to_an_end() {
    let mut i = KeyImport::new();
    let mut steps = 0;
    while !matches!(i.stage(), ImportStage::Finished(_) | ImportStage::Failed) {
        let event = match i.stage() {
            ImportStage::Poll | ImportStage::Backup => ImportEvent::Backup(false),
            ImportStage::Recovery | ImportStage::Storage => ImportEvent::Recovery(Recovery::Other),
            ImportStage::ServerBackup => ImportEvent::ServerBackup(Some(true)),
            ImportStage::Key => ImportEvent::Line("key".into()),
            _ => ImportEvent::Done,
        };
        i.advance(event);
        steps += 1;
    }
    assert_eq!(steps, 26);
    assert_eq!(i.stage(), ImportStage::Finished(ImportOutcome::Imported));
}
