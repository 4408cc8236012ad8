//! Device verification and the import of keys from a backup.
use vstd::prelude::*;
use vstd::string::*;

use crate::text::{join, same_text, trim, trimmed};

verus! {

/// What the sync service reports.
#[derive(Debug)]
pub enum SyncReport {
    Running,
    /// It failed, with this text.
    Error(String),
    Terminated,
    /// Anything else, or the end of its reports.
    Other,
    /// It has not been running in time.
    TimedOut,
}

/// What to do about a report of a sync that is to be started.
#[derive(Debug)]
pub enum SyncStart {
    /// The first sync is over.
    Ready,
    /// Wait for the next report.
    Wait,
    /// Give up, with this text.
    GiveUp(String),
}

/// How long the first sync may take, in seconds.
pub const SYNC_DEADLINE_SECS: u64 = 30;

/// Tells what to do about a report of a sync that is to be started.
pub fn on_sync_report(report: &SyncReport) -> (r: SyncStart)
    ensures
        match *report {
            SyncReport::Running => r == SyncStart::Ready,
            SyncReport::Error(e) => r is GiveUp && r->GiveUp_0@ == "sync error: "@ + e@,
            SyncReport::Terminated => r is GiveUp && r->GiveUp_0@
                == "sync terminated unexpectedly"@,
            SyncReport::Other => r == SyncStart::Wait,
            SyncReport::TimedOut => r is GiveUp && r->GiveUp_0@
                == "timed out waiting for initial sync"@,
        },
{
    match report {
        SyncReport::Running => SyncStart::Ready,
        SyncReport::Error(e) => SyncStart::GiveUp(join("sync error: ", e.as_str())),
        SyncReport::Terminated => SyncStart::GiveUp("sync terminated unexpectedly".to_owned()),
        SyncReport::Other => SyncStart::Wait,
        SyncReport::TimedOut => SyncStart::GiveUp(
            "timed out waiting for initial sync".to_owned(),
        ),
    }
}

/// How often a verification is requested at most. Stale requests of other clients can cancel
/// one.
pub const VERIFICATION_ATTEMPTS: u8 = 3;

/// What the verification waits for.
#[derive(Debug, Clone, Copy, PartialEq, Eq, Structural)]
pub enum VerificationStage {
    /// A request sent to the other devices.
    Request,
    /// What becomes of the request.
    Answer,
    /// A pause before the next request.
    Pause,
    /// The comparison of emoji.
    Comparison,
    /// The import of keys.
    Import,
    /// Nothing: the device is verified.
    Verified,
    /// Nothing: the verification failed.
    Failed,
}

/// What became of what the verification waits for.
#[derive(Debug)]
pub enum VerificationEvent {
    /// It was done.
    Done,
    /// It failed.
    Failed,
    /// The other device accepted the request.
    Ready,
    /// The other device started to compare emoji.
    Compare,
    /// The other device started something else.
    UnknownMethod,
    /// The other device says that all is done.
    Completed,
    /// The request was cancelled, for this reason.
    Cancelled(String),
    /// No more will be heard of the request.
    Ended,
    /// Anything else.
    Other,
}

/// Why a verification failed.
#[derive(Debug)]
pub enum VerificationError {
    /// Something outside failed; who ran it knows why.
    Outside,
    /// The other device asked for something else than emoji.
    UnknownMethod,
    /// It was cancelled, for this reason.
    Cancelled(String),
    /// No more was heard of the request.
    Ended,
}

/// What a `VerificationError` says.
#[verifier::ext_equal]
pub enum VerificationErrorView {
    Outside,
    UnknownMethod,
    Cancelled(Seq<char>),
    Ended,
}

impl View for VerificationError {
    type V = VerificationErrorView;

    open spec fn view(&self) -> VerificationErrorView {
        match self {
            VerificationError::Outside => VerificationErrorView::Outside,
            VerificationError::UnknownMethod => VerificationErrorView::UnknownMethod,
            VerificationError::Cancelled(reason) => VerificationErrorView::Cancelled(reason@),
            VerificationError::Ended => VerificationErrorView::Ended,
        }
    }
}

impl VerificationErrorView {
    /// What the user is told.
    pub open spec fn text(self) -> Seq<char> {
        match self {
            VerificationErrorView::Outside => ""@,
            VerificationErrorView::UnknownMethod => "non-SAS method not supported"@,
            VerificationErrorView::Cancelled(reason) => "verification cancelled: "@ + reason,
            VerificationErrorView::Ended => "verification request stream ended unexpectedly"@,
        }
    }
}

impl VerificationError {
    /// What the user is told.
    pub fn message(&self) -> (r: String)
        ensures
            r@ == self@.text(),
    {
        match self {
            VerificationError::Outside => "".to_owned(),
            VerificationError::UnknownMethod => "non-SAS method not supported".to_owned(),
            VerificationError::Cancelled(reason) => join(
                "verification cancelled: ",
                reason.as_str(),
            ),
            VerificationError::Ended => {
                "verification request stream ended unexpectedly".to_owned()
            },
        }
    }
}

/// A verification of this device on its way. It is told what became of what it waits for, and
/// then waits for the next thing.
pub struct Verification {
    stage: VerificationStage,
    attempt: u8,
    error: Option<VerificationError>,
}

/// What a `Verification` knows.
#[verifier::ext_equal]
pub struct VerificationView {
    pub stage: VerificationStage,
    /// How many requests were given up.
    pub attempt: int,
    pub error: Option<VerificationErrorView>,
}

/// What an optional error says.
pub open spec fn opt_error(e: Option<VerificationError>) -> Option<VerificationErrorView> {
    match e {
        Some(e) => Some(e@),
        None => None,
    }
}

impl View for Verification {
    type V = VerificationView;

    closed spec fn view(&self) -> VerificationView {
        VerificationView {
            stage: self.stage,
            attempt: self.attempt as int,
            error: opt_error(self.error),
        }
    }
}

impl VerificationView {
    /// The first request is still to be sent.
    pub open spec fn fresh() -> VerificationView {
        VerificationView { stage: VerificationStage::Request, attempt: 0, error: None }
    }

    /// The same verification at another stage.
    pub open spec fn at(self, stage: VerificationStage) -> VerificationView {
        VerificationView { stage, ..self }
    }

    /// The verification failed.
    pub open spec fn failed(self, error: VerificationErrorView) -> VerificationView {
        VerificationView { stage: VerificationStage::Failed, error: Some(error), ..self }
    }

    /// Whether nothing more is waited for.
    pub open spec fn over(self) -> bool {
        self.stage == VerificationStage::Verified || self.stage == VerificationStage::Failed
    }

    /// Whether another request may follow this one.
    pub open spec fn may_retry(self) -> bool {
        self.attempt + 1 < VERIFICATION_ATTEMPTS
    }

    /// The verification after an event. An event that does not answer what is waited for changes
    /// nothing.
    pub open spec fn next(self, event: VerificationEvent) -> VerificationView {
        match self.stage {
            VerificationStage::Request => match event {
                VerificationEvent::Done => self.at(VerificationStage::Answer),
                VerificationEvent::Failed => self.failed(VerificationErrorView::Outside),
                _ => self,
            },
            VerificationStage::Answer => match event {
                VerificationEvent::Compare => self.at(VerificationStage::Comparison),
                VerificationEvent::UnknownMethod => self.failed(
                    VerificationErrorView::UnknownMethod,
                ),
                VerificationEvent::Completed => self.at(VerificationStage::Import),
                VerificationEvent::Cancelled(reason) => if self.may_retry() {
                    self.at(VerificationStage::Pause)
                } else {
                    self.failed(VerificationErrorView::Cancelled(reason@))
                },
                VerificationEvent::Ended => self.failed(VerificationErrorView::Ended),
                _ => self,
            },
            VerificationStage::Pause => match event {
                VerificationEvent::Done => VerificationView {
                    attempt: self.attempt + 1,
                    ..self.at(VerificationStage::Request)
                },
                _ => self,
            },
            VerificationStage::Comparison => match event {
                VerificationEvent::Done => self.at(VerificationStage::Import),
                VerificationEvent::Failed => self.failed(VerificationErrorView::Outside),
                _ => self,
            },
            VerificationStage::Import => match event {
                VerificationEvent::Done => self.at(VerificationStage::Verified),
                VerificationEvent::Failed => self.failed(VerificationErrorView::Outside),
                _ => self,
            },
            VerificationStage::Verified => self,
            VerificationStage::Failed => self,
        }
    }
}

impl Verification {
    #[verifier::type_invariant]
    spec fn well_formed(self) -> bool {
        self.attempt < VERIFICATION_ATTEMPTS && (self.stage == VerificationStage::Pause
            ==> self.attempt + 1 < VERIFICATION_ATTEMPTS)
    }

    /// A verification whose first request is still to be sent.
    pub fn new() -> (r: Self)
        ensures
            r@ == VerificationView::fresh(),
    {
        Verification { stage: VerificationStage::Request, attempt: 0, error: None }
    }

    /// What the verification waits for.
    pub fn stage(&self) -> (r: VerificationStage)
        ensures
            r == self@.stage,
    {
        self.stage
    }

    /// Why the verification failed, once it did.
    pub fn error(&self) -> (r: Option<&VerificationError>)
        ensures
            match r {
                Some(e) => self@.error == Some(e@),
                None => self@.error is None,
            },
    {
        match &self.error {
            Some(e) => Some(e),
            None => None,
        }
    }

    /// The verification failed.
    fn fail(&mut self, error: VerificationError)
        ensures
            final(self)@ == old(self)@.failed(error@),
    {
        proof {
            use_type_invariant(&*self);
        }
        self.stage = VerificationStage::Failed;
        self.error = Some(error);
    }

    /// Takes note of what became of what the verification waits for.
    pub fn advance(&mut self, event: VerificationEvent)
        ensures
            final(self)@ == old(self)@.next(event),
    {
        proof {
            use_type_invariant(&*self);
        }
        match self.stage {
            VerificationStage::Request => match event {
                VerificationEvent::Done => self.stage = VerificationStage::Answer,
                VerificationEvent::Failed => self.fail(VerificationError::Outside),
                _ => {},
            },
            VerificationStage::Answer => match event {
                VerificationEvent::Compare => self.stage = VerificationStage::Comparison,
                VerificationEvent::UnknownMethod => self.fail(VerificationError::UnknownMethod),
                VerificationEvent::Completed => self.stage = VerificationStage::Import,
                VerificationEvent::Cancelled(reason) => if self.attempt + 1
                    < VERIFICATION_ATTEMPTS {
                    self.stage = VerificationStage::Pause;
                } else {
                    self.fail(VerificationError::Cancelled(reason));
                },
                VerificationEvent::Ended => self.fail(VerificationError::Ended),
                _ => {},
            },
            VerificationStage::Pause => match event {
                VerificationEvent::Done => {
                    self.stage = VerificationStage::Request;
                    self.attempt = self.attempt + 1;
                },
                _ => {},
            },
            VerificationStage::Comparison => match event {
                VerificationEvent::Done => self.stage = VerificationStage::Import,
                VerificationEvent::Failed => self.fail(VerificationError::Outside),
                _ => {},
            },
            VerificationStage::Import => match event {
                VerificationEvent::Done => self.stage = VerificationStage::Verified,
                VerificationEvent::Failed => self.fail(VerificationError::Outside),
                _ => {},
            },
            VerificationStage::Verified => {},
            VerificationStage::Failed => {},
        }
    }
}

/// What the comparison of emoji waits for.
#[derive(Debug, Clone, Copy, PartialEq, Eq, Structural)]
pub enum SasStage {
    /// The acceptance of the comparison.
    Accept,
    /// What the other device does.
    Change,
    /// The user's word on the emoji, typed in.
    Question,
    /// The emoji confirmed.
    Confirm,
    /// The mismatch reported.
    Mismatch,
    /// Nothing: the comparison is over.
    Over,
    /// Nothing: the comparison failed.
    Failed,
}

/// What became of what the comparison waits for.
#[derive(Debug)]
pub enum SasEvent {
    /// It was done.
    Done,
    /// It failed.
    Failed,
    /// Keys are exchanged, and there are emoji to compare.
    Emoji,
    /// Keys are exchanged, without emoji.
    NoEmoji,
    /// A line that the user typed.
    Line(String),
    /// The other device says that all is done.
    Completed,
    /// It was cancelled, for this reason.
    Cancelled(String),
    /// No more will be heard of it.
    Ended,
    /// Anything else.
    Other,
}

/// Why a comparison failed.
#[derive(Debug)]
pub enum SasError {
    /// Something outside failed; who ran it knows why.
    Outside,
    /// The emoji differ.
    Mismatch,
    /// It was cancelled, for this reason.
    Cancelled(String),
}

/// What a `SasError` says.
#[verifier::ext_equal]
pub enum SasErrorView {
    Outside,
    Mismatch,
    Cancelled(Seq<char>),
}

impl View for SasError {
    type V = SasErrorView;

    open spec fn view(&self) -> SasErrorView {
        match self {
            SasError::Outside => SasErrorView::Outside,
            SasError::Mismatch => SasErrorView::Mismatch,
            SasError::Cancelled(reason) => SasErrorView::Cancelled(reason@),
        }
    }
}

impl SasErrorView {
    /// What the user is told.
    pub open spec fn text(self) -> Seq<char> {
        match self {
            SasErrorView::Outside => ""@,
            SasErrorView::Mismatch => "emoji mismatch, verification cancelled"@,
            SasErrorView::Cancelled(reason) => "verification cancelled: "@ + reason,
        }
    }
}

impl SasError {
    /// What the user is told.
    pub fn message(&self) -> (r: String)
        ensures
            r@ == self@.text(),
    {
        match self {
            SasError::Outside => "".to_owned(),
            SasError::Mismatch => "emoji mismatch, verification cancelled".to_owned(),
            SasError::Cancelled(reason) => join("verification cancelled: ", reason.as_str()),
        }
    }
}

/// Whether a typed line means yes.
pub open spec fn says_yes(line: Seq<char>) -> bool {
    trimmed(line) == "y"@ || trimmed(line) == "Y"@
}

/// Tells whether a typed line means yes.
pub fn is_yes(line: &str) -> (r: bool)
    ensures
        r == says_yes(line@),
{
    let answer = trim(line);
    same_text(answer.as_str(), "y") || same_text(answer.as_str(), "Y")
}

/// The line that shows an emoji.
pub fn emoji_line(symbol: &str, description: &str) -> (r: String)
    ensures
        r@ == "  "@ + symbol@ + "  "@ + description@,
{
    join("  ", symbol).concat("  ").concat(description)
}

/// A comparison of emoji on its way. It is told what became of what it waits for, and then waits
/// for the next thing.
pub struct Comparison {
    stage: SasStage,
    error: Option<SasError>,
}

/// What a `Comparison` knows.
#[verifier::ext_equal]
pub struct ComparisonView {
    pub stage: SasStage,
    pub error: Option<SasErrorView>,
}

/// What an optional error says.
pub open spec fn opt_sas_error(e: Option<SasError>) -> Option<SasErrorView> {
    match e {
        Some(e) => Some(e@),
        None => None,
    }
}

impl View for Comparison {
    type V = ComparisonView;

    closed spec fn view(&self) -> ComparisonView {
        ComparisonView { stage: self.stage, error: opt_sas_error(self.error) }
    }
}

impl ComparisonView {
    /// The same comparison at another stage.
    pub open spec fn at(self, stage: SasStage) -> ComparisonView {
        ComparisonView { stage, ..self }
    }

    /// The comparison failed.
    pub open spec fn failed(self, error: SasErrorView) -> ComparisonView {
        ComparisonView { stage: SasStage::Failed, error: Some(error) }
    }

    /// Whether nothing more is waited for.
    pub open spec fn over(self) -> bool {
        self.stage == SasStage::Over || self.stage == SasStage::Failed
    }

    /// The comparison after an event. An event that does not answer what is waited for changes
    /// nothing. Where no more will be heard of it, it is over.
    pub open spec fn next(self, event: SasEvent) -> ComparisonView {
        match self.stage {
            SasStage::Accept => match event {
                SasEvent::Done => self.at(SasStage::Change),
                SasEvent::Failed => self.failed(SasErrorView::Outside),
                _ => self,
            },
            SasStage::Change => match event {
                SasEvent::Emoji => self.at(SasStage::Question),
                SasEvent::Completed => self.at(SasStage::Over),
                SasEvent::Cancelled(reason) => self.failed(SasErrorView::Cancelled(reason@)),
                SasEvent::Ended => self.at(SasStage::Over),
                _ => self,
            },
            SasStage::Question => match event {
                SasEvent::Line(line) => if says_yes(line@) {
                    self.at(SasStage::Confirm)
                } else {
                    self.at(SasStage::Mismatch)
                },
                SasEvent::Failed => self.failed(SasErrorView::Outside),
                _ => self,
            },
            SasStage::Confirm => match event {
                SasEvent::Done => self.at(SasStage::Change),
                SasEvent::Failed => self.failed(SasErrorView::Outside),
                _ => self,
            },
            SasStage::Mismatch => match event {
                SasEvent::Done => self.failed(SasErrorView::Mismatch),
                SasEvent::Failed => self.failed(SasErrorView::Outside),
                _ => self,
            },
            SasStage::Over => self,
            SasStage::Failed => self,
        }
    }
}

impl Comparison {
    /// A comparison, which is first accepted where the other device started it.
    pub fn new(should_accept: bool) -> (r: Self)
        ensures
            r@ == (ComparisonView {
                stage: if should_accept {
                    SasStage::Accept
                } else {
                    SasStage::Change
                },
                error: None,
            }),
    {
        Comparison {
            stage: if should_accept {
                SasStage::Accept
            } else {
                SasStage::Change
            },
            error: None,
        }
    }

    /// What the comparison waits for.
    pub fn stage(&self) -> (r: SasStage)
        ensures
            r == self@.stage,
    {
        self.stage
    }

    /// Why the comparison failed, once it did.
    pub fn error(&self) -> (r: Option<&SasError>)
        ensures
            match r {
                Some(e) => self@.error == Some(e@),
                None => self@.error is None,
            },
    {
        match &self.error {
            Some(e) => Some(e),
            None => None,
        }
    }

    /// The comparison failed.
    fn fail(&mut self, error: SasError)
        ensures
            final(self)@ == old(self)@.failed(error@),
    {
        self.stage = SasStage::Failed;
        self.error = Some(error);
    }

    /// Takes note of what became of what the comparison waits for.
    pub fn advance(&mut self, event: SasEvent)
        ensures
            final(self)@ == old(self)@.next(event),
    {
        match self.stage {
            SasStage::Accept => match event {
                SasEvent::Done => self.stage = SasStage::Change,
                SasEvent::Failed => self.fail(SasError::Outside),
                _ => {},
            },
            SasStage::Change => match event {
                SasEvent::Emoji => self.stage = SasStage::Question,
                SasEvent::Completed => self.stage = SasStage::Over,
                SasEvent::Cancelled(reason) => self.fail(SasError::Cancelled(reason)),
                SasEvent::Ended => self.stage = SasStage::Over,
                _ => {},
            },
            SasStage::Question => match event {
                SasEvent::Line(line) => if is_yes(line.as_str()) {
                    self.stage = SasStage::Confirm;
                } else {
                    self.stage = SasStage::Mismatch;
                },
                SasEvent::Failed => self.fail(SasError::Outside),
                _ => {},
            },
            SasStage::Confirm => match event {
                SasEvent::Done => self.stage = SasStage::Change,
                SasEvent::Failed => self.fail(SasError::Outside),
                _ => {},
            },
            SasStage::Mismatch => match event {
                SasEvent::Done => self.fail(SasError::Mismatch),
                SasEvent::Failed => self.fail(SasError::Outside),
                _ => {},
            },
            SasStage::Over => {},
            SasStage::Failed => {},
        }
    }
}

/// How often the import looks for the backup key before it goes on without it.
pub const BACKUP_POLLS: u8 = 10;

/// What the key import waits for.
#[derive(Debug, Clone, Copy, PartialEq, Eq, Structural)]
pub enum ImportStage {
    /// Whether the backup is enabled by now; another device may have shared its key.
    Poll,
    /// A pause before the next look.
    Pause,
    /// Whether the backup is enabled after all looks.
    Backup,
    /// The state of recovery.
    Recovery,
    /// Whether there is a backup on the server.
    ServerBackup,
    /// Whether there is secret storage.
    Storage,
    /// The recovery key, typed in unseen.
    Key,
    /// The keys recovered with the key.
    Recover,
    /// Nothing: this is how the import ended.
    Finished(ImportOutcome),
    /// Nothing: the import failed.
    Failed,
}

/// How an import ended.
#[derive(Debug, Clone, Copy, PartialEq, Eq, Structural)]
pub enum ImportOutcome {
    BackupEnabled,
    RecoveryEnabled,
    NoServerBackup,
    NoSecretStorage,
    Imported,
}

/// The state of recovery.
#[derive(Debug, Clone, Copy, PartialEq, Eq, Structural)]
pub enum Recovery {
    Enabled,
    Disabled,
    Other,
}

/// What became of what the import waits for.
#[derive(Debug)]
pub enum ImportEvent {
    /// Whether the backup is enabled.
    Backup(bool),
    /// A pause is over, or the keys are recovered.
    Done,
    /// It failed.
    Failed,
    /// The state of recovery.
    Recovery(Recovery),
    /// Whether there is a backup on the server, where that could be found out.
    ServerBackup(Option<bool>),
    /// A line that the user typed.
    Line(String),
}

/// A key import on its way. It is told what became of what it waits for, and then waits for the
/// next thing.
pub struct KeyImport {
    stage: ImportStage,
    polls: u8,
    key: String,
}

/// What a `KeyImport` knows.
#[verifier::ext_equal]
pub struct KeyImportView {
    pub stage: ImportStage,
    /// How many looks there were.
    pub polls: int,
    pub key: Seq<char>,
}

impl View for KeyImport {
    type V = KeyImportView;

    closed spec fn view(&self) -> KeyImportView {
        KeyImportView { stage: self.stage, polls: self.polls as int, key: self.key@ }
    }
}

impl KeyImportView {
    /// The same import at another stage.
    pub open spec fn at(self, stage: ImportStage) -> KeyImportView {
        KeyImportView { stage, ..self }
    }

    /// The import ended this way.
    pub open spec fn finished(self, outcome: ImportOutcome) -> KeyImportView {
        self.at(ImportStage::Finished(outcome))
    }

    /// Whether nothing more is waited for.
    pub open spec fn over(self) -> bool {
        self.stage is Finished || self.stage == ImportStage::Failed
    }

    /// The import after an event. An event that does not answer what is waited for changes
    /// nothing.
    pub open spec fn next(self, event: ImportEvent) -> KeyImportView {
        match self.stage {
            ImportStage::Poll => match event {
                ImportEvent::Backup(true) => self.at(ImportStage::Backup),
                ImportEvent::Backup(false) => KeyImportView {
                    polls: self.polls + 1,
                    ..self.at(ImportStage::Pause)
                },
                _ => self,
            },
            ImportStage::Pause => match event {
                ImportEvent::Done => if self.polls < BACKUP_POLLS {
                    self.at(ImportStage::Poll)
                } else {
                    self.at(ImportStage::Backup)
                },
                _ => self,
            },
            ImportStage::Backup => match event {
                ImportEvent::Backup(true) => self.finished(ImportOutcome::BackupEnabled),
                ImportEvent::Backup(false) => self.at(ImportStage::Recovery),
                _ => self,
            },
            ImportStage::Recovery => match event {
                ImportEvent::Recovery(Recovery::Enabled) => self.finished(
                    ImportOutcome::RecoveryEnabled,
                ),
                ImportEvent::Recovery(_) => self.at(ImportStage::ServerBackup),
                _ => self,
            },
            ImportStage::ServerBackup => match event {
                ImportEvent::ServerBackup(Some(true)) => self.at(ImportStage::Storage),
                ImportEvent::ServerBackup(_) => self.finished(ImportOutcome::NoServerBackup),
                _ => self,
            },
            ImportStage::Storage => match event {
                ImportEvent::Recovery(Recovery::Disabled) => self.finished(
                    ImportOutcome::NoSecretStorage,
                ),
                ImportEvent::Recovery(_) => self.at(ImportStage::Key),
                _ => self,
            },
            ImportStage::Key => match event {
                ImportEvent::Line(line) => KeyImportView {
                    key: trimmed(line@),
                    ..self.at(ImportStage::Recover)
                },
                ImportEvent::Failed => self.at(ImportStage::Failed),
                _ => self,
            },
            ImportStage::Recover => match event {
                ImportEvent::Done => self.finished(ImportOutcome::Imported),
                ImportEvent::Failed => self.at(ImportStage::Failed),
                _ => self,
            },
            ImportStage::Finished(_) => self,
            ImportStage::Failed => self,
        }
    }
}

impl KeyImport {
    #[verifier::type_invariant]
    spec fn well_formed(self) -> bool {
        self.polls <= BACKUP_POLLS && (self.stage == ImportStage::Poll ==> self.polls
            < BACKUP_POLLS)
    }

    /// An import that has not looked for the backup key yet.
    pub fn new() -> (r: Self)
        ensures
            r@.stage == ImportStage::Poll,
            r@.polls == 0,
            r@.key.len() == 0,
    {
        KeyImport { stage: ImportStage::Poll, polls: 0, key: String::new() }
    }

    /// What the import waits for.
    pub fn stage(&self) -> (r: ImportStage)
        ensures
            r == self@.stage,
    {
        self.stage
    }

    /// The recovery key as typed in, without white space around it.
    pub fn key(&self) -> (r: &str)
        ensures
            r@ == self@.key,
    {
        self.key.as_str()
    }

    /// Takes note of what became of what the import waits for.
    pub fn advance(&mut self, event: ImportEvent)
        ensures
            final(self)@ == old(self)@.next(event),
    {
        proof {
            use_type_invariant(&*self);
        }
        match self.stage {
            ImportStage::Poll => match event {
                ImportEvent::Backup(true) => self.stage = ImportStage::Backup,
                ImportEvent::Backup(false) => {
                    self.stage = ImportStage::Pause;
                    self.polls = self.polls + 1;
                },
                _ => {},
            },
            ImportStage::Pause => match event {
                ImportEvent::Done => if self.polls < BACKUP_POLLS {
                    self.stage = ImportStage::Poll;
                } else {
                    self.stage = ImportStage::Backup;
                },
                _ => {},
            },
            ImportStage::Backup => match event {
                ImportEvent::Backup(true) => {
                    self.stage = ImportStage::Finished(ImportOutcome::BackupEnabled);
                },
                ImportEvent::Backup(false) => self.stage = ImportStage::Recovery,
                _ => {},
            },
            ImportStage::Recovery => match event {
                ImportEvent::Recovery(Recovery::Enabled) => {
                    self.stage = ImportStage::Finished(ImportOutcome::RecoveryEnabled);
                },
                ImportEvent::Recovery(_) => self.stage = ImportStage::ServerBackup,
                _ => {},
            },
            ImportStage::ServerBackup => match event {
                ImportEvent::ServerBackup(Some(true)) => self.stage = ImportStage::Storage,
                ImportEvent::ServerBackup(_) => {
                    self.stage = ImportStage::Finished(ImportOutcome::NoServerBackup);
                },
                _ => {},
            },
            ImportStage::Storage => match event {
                ImportEvent::Recovery(Recovery::Disabled) => {
                    self.stage = ImportStage::Finished(ImportOutcome::NoSecretStorage);
                },
                ImportEvent::Recovery(_) => self.stage = ImportStage::Key,
                _ => {},
            },
            ImportStage::Key => match event {
                ImportEvent::Line(line) => {
                    self.key = trim(line.as_str());
                    self.stage = ImportStage::Recover;
                },
                ImportEvent::Failed => self.stage = ImportStage::Failed,
                _ => {},
            },
            ImportStage::Recover => match event {
                ImportEvent::Done => {
                    self.stage = ImportStage::Finished(ImportOutcome::Imported);
                },
                ImportEvent::Failed => self.stage = ImportStage::Failed,
                _ => {},
            },
            ImportStage::Finished(_) => {},
            ImportStage::Failed => {},
        }
    }
}

/// What the user is told about how an import ended.
pub fn import_report(outcome: ImportOutcome) -> (r: &'static str)
    ensures
        r@ == match outcome {
            ImportOutcome::BackupEnabled => {
                "key backup enabled, encrypted rooms should now decrypt."@
            },
            ImportOutcome::RecoveryEnabled => "recovery already enabled, keys are available."@,
            ImportOutcome::NoServerBackup => "no server-side key backup found."@,
            ImportOutcome::NoSecretStorage => "no secret storage found on server."@,
            ImportOutcome::Imported => {
                "key import complete! encrypted rooms should now decrypt."@
            },
        },
{
    match outcome {
        ImportOutcome::BackupEnabled => "key backup enabled, encrypted rooms should now decrypt.",
        ImportOutcome::RecoveryEnabled => "recovery already enabled, keys are available.",
        ImportOutcome::NoServerBackup => "no server-side key backup found.",
        ImportOutcome::NoSecretStorage => "no secret storage found on server.",
        ImportOutcome::Imported => "key import complete! encrypted rooms should now decrypt.",
    }
}

} // verus!
