//! Laws of single steps of a verification, a comparison of emoji and a key import: what comes next,
//! said of what came in.
use vstd::prelude::*;

use crate::text::trimmed;
use crate::verify::{
    emoji_line, import_report, is_yes, on_sync_report, Comparison, ImportEvent, ImportOutcome,
    ImportStage, KeyImport, KeyImportView, Recovery, SasError, SasErrorView, SasEvent, SasStage,
    SyncReport, SyncStart, Verification, VerificationError, VerificationErrorView,
    VerificationEvent, VerificationStage, VerificationView,
};

verus! {

/// A sync that is to be started is waited for until it runs; an error, an end and a timeout give up,
/// each in words of its own.
pub proof fn starting_syncs_are_waited_for(report: SyncReport, r: SyncStart)
    requires
        call_ensures(on_sync_report, (&report,), r),
    ensures
        report is Running ==> r is Ready,
        report is Other ==> r is Wait,
        report matches SyncReport::Error(e) ==> r is GiveUp && r->GiveUp_0@ == "sync error: "@ + e@,
        report is Terminated ==> r is GiveUp && r->GiveUp_0@ == "sync terminated unexpectedly"@,
        report is TimedOut ==> r is GiveUp && r->GiveUp_0@ == "timed out waiting for initial sync"@,
{
}

/// Whether a verification is at a stage, and all else is as it was.
pub open spec fn at_stage(
    before: VerificationView,
    after: VerificationView,
    stage: VerificationStage,
) -> bool {
    &&& after.stage == stage
    &&& after.attempt == before.attempt
    &&& after.error == before.error
}

/// Whether a verification failed with this error.
pub open spec fn failed_with(after: VerificationView, error: VerificationErrorView) -> bool {
    after.stage == VerificationStage::Failed && after.error == Some(error)
}

/// A verification goes from a request to its answer, to the comparison that the other device starts,
/// or past it where that says that all is done, to the import, to its end. A cancelled request is
/// repeated after a pause, until three were cancelled.
pub proof fn verifications_go_on(v: &mut Verification, event: VerificationEvent)
    requires
        call_ensures(Verification::advance, (v, event), ()),
    ensures
        ({
            let before = old(v)@;
            let after = final(v)@;
            &&& before.stage == VerificationStage::Request && event is Done ==> at_stage(
                before,
                after,
                VerificationStage::Answer,
            )
            &&& before.stage == VerificationStage::Answer && event is Compare ==> at_stage(
                before,
                after,
                VerificationStage::Comparison,
            )
            &&& before.stage == VerificationStage::Answer && event is Completed ==> at_stage(
                before,
                after,
                VerificationStage::Import,
            )
            &&& before.stage == VerificationStage::Comparison && event is Done ==> at_stage(
                before,
                after,
                VerificationStage::Import,
            )
            &&& before.stage == VerificationStage::Import && event is Done ==> at_stage(
                before,
                after,
                VerificationStage::Verified,
            )
            &&& before.stage == VerificationStage::Answer && event is Cancelled && before.attempt < 2
                ==> at_stage(before, after, VerificationStage::Pause)
            &&& before.stage == VerificationStage::Pause && event is Done ==> after.stage
                == VerificationStage::Request && after.attempt == before.attempt + 1 && after.error
                == before.error
        }),
{
}

/// A verification fails where a request, the comparison or the import does, where the other device
/// asks for something else, where no more is heard of it, and where the third request is cancelled.
pub proof fn verifications_fail(v: &mut Verification, event: VerificationEvent)
    requires
        call_ensures(Verification::advance, (v, event), ()),
    ensures
        ({
            let before = old(v)@;
            let after = final(v)@;
            &&& (before.stage == VerificationStage::Request || before.stage
                == VerificationStage::Comparison || before.stage == VerificationStage::Import)
                && event is Failed ==> failed_with(after, VerificationErrorView::Outside)
            &&& before.stage == VerificationStage::Answer && event is UnknownMethod ==> failed_with(
                after,
                VerificationErrorView::UnknownMethod,
            )
            &&& before.stage == VerificationStage::Answer && event is Ended ==> failed_with(
                after,
                VerificationErrorView::Ended,
            )
            &&& before.stage == VerificationStage::Answer && event is Cancelled && before.attempt >= 2
                ==> failed_with(after, VerificationErrorView::Cancelled(event->Cancelled_0@))
        }),
{
}

/// Whether an event answers what a verification waits for at a stage.
pub open spec fn answers_verification(stage: VerificationStage, event: VerificationEvent) -> bool {
    match stage {
        VerificationStage::Request | VerificationStage::Comparison | VerificationStage::Import =>
            event is Done || event is Failed,
        VerificationStage::Pause => event is Done,
        VerificationStage::Answer => event is Compare || event is UnknownMethod || event is Completed
            || event is Cancelled || event is Ended,
        VerificationStage::Verified | VerificationStage::Failed => false,
    }
}

/// What does not answer what a verification waits for does not change it.
pub proof fn verifications_ignore_the_rest(v: &mut Verification, event: VerificationEvent)
    requires
        call_ensures(Verification::advance, (v, event), ()),
    ensures
        !answers_verification(old(v)@.stage, event) ==> final(v)@ == old(v)@,
{
}

/// A verification begins with a request, shows its stage, and tells in words why it failed.
pub proof fn verifications_begin_and_tell(
    fresh: Verification,
    v: Verification,
    stage: VerificationStage,
    error: Option<&VerificationError>,
    text: String,
)
    requires
        call_ensures(Verification::new, (), fresh),
        call_ensures(Verification::stage, (&v,), stage),
        call_ensures(Verification::error, (&v,), error),
        error matches Some(e) ==> call_ensures(VerificationError::message, (e,), text),
    ensures
        fresh@.stage == VerificationStage::Request,
        fresh@.attempt == 0,
        fresh@.error is None,
        stage == v@.stage,
        (error is Some) == (v@.error is Some),
        v@.error matches Some(VerificationErrorView::Cancelled(reason)) ==> text@
            == "verification cancelled: "@ + reason,
        v@.error == Some(VerificationErrorView::UnknownMethod) ==> text@
            == "non-SAS method not supported"@,
        v@.error == Some(VerificationErrorView::Ended) ==> text@
            == "verification request stream ended unexpectedly"@,
        v@.error == Some(VerificationErrorView::Outside) ==> text@ == ""@,
{
}

/// A comparison waits for the other device, shows emoji, and is confirmed where the user says that
/// they match; any other answer reports a mismatch, which fails it. It is over where the other device
/// says so or is heard of no more.
pub proof fn comparisons_go_on(c: &mut Comparison, event: SasEvent)
    requires
        call_ensures(Comparison::advance, (c, event), ()),
    ensures
        ({
            let before = old(c)@;
            let after = final(c)@;
            let yes = event is Line && (trimmed(event->Line_0@) == "y"@ || trimmed(event->Line_0@)
                == "Y"@);
            &&& before.stage == SasStage::Accept && event is Done ==> after.stage
                == SasStage::Change && after.error == before.error
            &&& before.stage == SasStage::Change && event is Emoji ==> after.stage
                == SasStage::Question && after.error == before.error
            &&& before.stage == SasStage::Change && (event is Completed || event is Ended)
                ==> after.stage == SasStage::Over && after.error == before.error
            &&& before.stage == SasStage::Change && event is Cancelled ==> after.stage
                == SasStage::Failed && after.error == Some(
                SasErrorView::Cancelled(event->Cancelled_0@),
            )
            &&& before.stage == SasStage::Question && yes ==> after.stage == SasStage::Confirm
                && after.error == before.error
            &&& before.stage == SasStage::Question && event is Line && !yes ==> after.stage
                == SasStage::Mismatch && after.error == before.error
            &&& before.stage == SasStage::Confirm && event is Done ==> after.stage
                == SasStage::Change && after.error == before.error
            &&& before.stage == SasStage::Mismatch && event is Done ==> after.stage
                == SasStage::Failed && after.error == Some(SasErrorView::Mismatch)
            &&& (before.stage == SasStage::Accept || before.stage == SasStage::Question
                || before.stage == SasStage::Confirm || before.stage == SasStage::Mismatch)
                && event is Failed ==> after.stage == SasStage::Failed && after.error == Some(
                SasErrorView::Outside,
            )
        }),
{
}

/// Whether an event answers what a comparison waits for at a stage.
pub open spec fn answers_comparison(stage: SasStage, event: SasEvent) -> bool {
    match stage {
        SasStage::Accept | SasStage::Confirm | SasStage::Mismatch => event is Done
            || event is Failed,
        SasStage::Change => event is Emoji || event is Completed || event is Cancelled
            || event is Ended,
        SasStage::Question => event is Line || event is Failed,
        SasStage::Over | SasStage::Failed => false,
    }
}

/// What does not answer what a comparison waits for does not change it.
pub proof fn comparisons_ignore_the_rest(c: &mut Comparison, event: SasEvent)
    requires
        call_ensures(Comparison::advance, (c, event), ()),
    ensures
        !answers_comparison(old(c)@.stage, event) ==> final(c)@ == old(c)@,
{
}

/// A comparison is first accepted where that is asked for, shows its stage, and tells in words why it
/// failed.
pub proof fn comparisons_begin_and_tell(
    should_accept: bool,
    fresh: Comparison,
    c: Comparison,
    stage: SasStage,
    error: Option<&SasError>,
    text: String,
)
    requires
        call_ensures(Comparison::new, (should_accept,), fresh),
        call_ensures(Comparison::stage, (&c,), stage),
        call_ensures(Comparison::error, (&c,), error),
        error matches Some(e) ==> call_ensures(SasError::message, (e,), text),
    ensures
        should_accept ==> fresh@.stage == SasStage::Accept,
        !should_accept ==> fresh@.stage == SasStage::Change,
        fresh@.error is None,
        stage == c@.stage,
        (error is Some) == (c@.error is Some),
        c@.error matches Some(SasErrorView::Cancelled(reason)) ==> text@
            == "verification cancelled: "@ + reason,
        c@.error == Some(SasErrorView::Mismatch) ==> text@
            == "emoji mismatch, verification cancelled"@,
        c@.error == Some(SasErrorView::Outside) ==> text@ == ""@,
{
}

/// A typed line means yes where it is a `y`, small or large, with nothing but white space around it.
/// An emoji is shown with its description.
pub proof fn answers_and_emoji(
    line: &str,
    yes: bool,
    symbol: &str,
    description: &str,
    shown: String,
)
    requires
        call_ensures(is_yes, (line,), yes),
        call_ensures(emoji_line, (symbol, description), shown),
    ensures
        trimmed(line@) == "y"@ || trimmed(line@) == "Y"@ ==> yes,
        trimmed(line@) != "y"@ && trimmed(line@) != "Y"@ ==> !yes,
        shown@ == "  "@ + symbol@ + "  "@ + description@,
{
}

/// Whether an import is at a stage, and all else is as it was.
pub open spec fn import_at(before: KeyImportView, after: KeyImportView, stage: ImportStage) -> bool {
    &&& after.stage == stage
    &&& after.polls == before.polls
    &&& after.key == before.key
}

/// An import looks for the backup until it is enabled, ten times at most, with a pause after each
/// look; then it looks once more. Where the backup is not enabled it goes by the state of recovery,
/// by whether there is a backup on the server and by whether there is secret storage, and only then
/// asks for the recovery key, with which it recovers the keys.
pub proof fn imports_go_on(i: &mut KeyImport, event: ImportEvent)
    requires
        call_ensures(KeyImport::advance, (i, event), ()),
    ensures
        ({
            let before = old(i)@;
            let after = final(i)@;
            &&& before.stage == ImportStage::Poll && event == ImportEvent::Backup(true)
                ==> import_at(before, after, ImportStage::Backup)
            &&& before.stage == ImportStage::Poll && event == ImportEvent::Backup(false)
                ==> after.stage == ImportStage::Pause && after.polls == before.polls + 1 && after.key
                == before.key
            &&& before.stage == ImportStage::Pause && event is Done && before.polls < 10
                ==> import_at(before, after, ImportStage::Poll)
            &&& before.stage == ImportStage::Pause && event is Done && before.polls >= 10
                ==> import_at(before, after, ImportStage::Backup)
            &&& before.stage == ImportStage::Backup && event == ImportEvent::Backup(true)
                ==> import_at(before, after, ImportStage::Finished(ImportOutcome::BackupEnabled))
            &&& before.stage == ImportStage::Backup && event == ImportEvent::Backup(false)
                ==> import_at(before, after, ImportStage::Recovery)
            &&& before.stage == ImportStage::Recovery && event == ImportEvent::Recovery(
                Recovery::Enabled,
            ) ==> import_at(before, after, ImportStage::Finished(ImportOutcome::RecoveryEnabled))
            &&& before.stage == ImportStage::Recovery && (event == ImportEvent::Recovery(
                Recovery::Disabled,
            ) || event == ImportEvent::Recovery(Recovery::Other)) ==> import_at(
                before,
                after,
                ImportStage::ServerBackup,
            )
            &&& before.stage == ImportStage::ServerBackup && event == ImportEvent::ServerBackup(
                Some(true),
            ) ==> import_at(before, after, ImportStage::Storage)
            &&& before.stage == ImportStage::ServerBackup && (event == ImportEvent::ServerBackup(
                Some(false),
            ) || event == ImportEvent::ServerBackup(None)) ==> import_at(
                before,
                after,
                ImportStage::Finished(ImportOutcome::NoServerBackup),
            )
            &&& before.stage == ImportStage::Storage && event == ImportEvent::Recovery(
                Recovery::Disabled,
            ) ==> import_at(before, after, ImportStage::Finished(ImportOutcome::NoSecretStorage))
            &&& before.stage == ImportStage::Storage && (event == ImportEvent::Recovery(
                Recovery::Enabled,
            ) || event == ImportEvent::Recovery(Recovery::Other)) ==> import_at(
                before,
                after,
                ImportStage::Key,
            )
            &&& before.stage == ImportStage::Key && event is Line ==> after.stage
                == ImportStage::Recover && after.key == trimmed(event->Line_0@) && after.polls
                == before.polls
            &&& before.stage == ImportStage::Recover && event is Done ==> import_at(
                before,
                after,
                ImportStage::Finished(ImportOutcome::Imported),
            )
            &&& (before.stage == ImportStage::Key || before.stage == ImportStage::Recover)
                && event is Failed ==> import_at(before, after, ImportStage::Failed)
        }),
{
}

/// Whether an event answers what an import waits for at a stage.
pub open spec fn answers_import(stage: ImportStage, event: ImportEvent) -> bool {
    match stage {
        ImportStage::Poll | ImportStage::Backup => event is Backup,
        ImportStage::Pause => event is Done,
        ImportStage::Recovery | ImportStage::Storage => event is Recovery,
        ImportStage::ServerBackup => event is ServerBackup,
        ImportStage::Key => event is Line || event is Failed,
        ImportStage::Recover => event is Done || event is Failed,
        ImportStage::Finished(_) | ImportStage::Failed => false,
    }
}

/// What does not answer what an import waits for does not change it.
pub proof fn imports_ignore_the_rest(i: &mut KeyImport, event: ImportEvent)
    requires
        call_ensures(KeyImport::advance, (i, event), ()),
    ensures
        !answers_import(old(i)@.stage, event) ==> final(i)@ == old(i)@,
{
}

/// An import begins with a look for the backup, and shows its stage and its key.
pub proof fn imports_begin_and_show(
    fresh: KeyImport,
    i: KeyImport,
    stage: ImportStage,
    key: &str,
)
    requires
        call_ensures(KeyImport::new, (), fresh),
        call_ensures(KeyImport::stage, (&i,), stage),
        call_ensures(KeyImport::key, (&i,), key),
    ensures
        fresh@.stage == ImportStage::Poll,
        fresh@.polls == 0,
        fresh@.key.len() == 0,
        stage == i@.stage,
        key@ == i@.key,
{
}

/// However an import ends, the user is told.
pub proof fn imports_tell_how_they_ended(outcome: ImportOutcome, r: &'static str)
    requires
        call_ensures(import_report, (outcome,), r),
    ensures
        outcome == ImportOutcome::BackupEnabled ==> r@
            == "key backup enabled, encrypted rooms should now decrypt."@,
        outcome == ImportOutcome::RecoveryEnabled ==> r@
            == "recovery already enabled, keys are available."@,
        outcome == ImportOutcome::NoServerBackup ==> r@ == "no server-side key backup found."@,
        outcome == ImportOutcome::NoSecretStorage ==> r@ == "no secret storage found on server."@,
        outcome == ImportOutcome::Imported ==> r@
            == "key import complete! encrypted rooms should now decrypt."@,
{
}

} // verus!
