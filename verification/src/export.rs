//! The snapshot export, step by step.
//!
//! An export lists the balance folder, writes every balance to a new file
//! and then sets every balance to zero. The folder and the file are the
//! caller's: the ledger says what to do next ([`ExportAction`]), the caller
//! does it and reports what came of it ([`ExportEvent`]).
//!
//! The balances written are those of the moment at which the folder's
//! listing arrives. The reset happens when the last line has been written,
//! and only then: after any failure the balances stay as they are. A credit
//! or debit that the caller lets in between those two moments is lost to the
//! reset.

use crate::amount::Amount;
use crate::balance_file::{
    balance_file_path, balance_line, count_balance_files, format_balance_lines,
    generate_next_balance_file_name, is_date_stamp, today_stamp,
};
use crate::errors::CommonError;
use crate::model::Client;
use crate::service::ClientService;
use crate::state::{all_balances_zero, balances_reset, lists_balances};
use vstd::pervasive::unreached;
use vstd::prelude::*;

verus! {

/// How far an export has come: which report it waits for.
#[derive(Debug, Clone, Copy, PartialEq, Eq, Structural)]
pub enum ExportStage {
    /// waits to hear whether the folder exists
    CheckingFolder,
    /// waits to hear whether the folder was created
    CreatingFolder,
    /// waits for the names in the folder
    ReadingFolder,
    /// waits to hear whether the file was created
    CreatingFile,
    /// waits to hear whether a line was written
    Writing,
    /// over
    Done,
}

/// What a step of an export needs of the ledger.
#[derive(Debug, Clone, Copy, PartialEq, Eq, Structural)]
pub enum LedgerAccess {
    /// the step leaves the ledger alone
    Nothing,
    /// the step reads the balances
    Read,
    /// the step resets the balances
    Write,
}

impl LedgerAccess {
    /// The error of a step that could not get the ledger: none where the
    /// step leaves the ledger alone, else the one for the lock that it asked
    /// for.
    pub fn failure(self) -> (r: Option<CommonError>)
        ensures
            r == (match self {
                LedgerAccess::Nothing => None,
                LedgerAccess::Read => Some(CommonError::LockReadFailed),
                LedgerAccess::Write => Some(CommonError::LockWriteFailed),
            }),
    {
        match self {
            LedgerAccess::Nothing => None,
            LedgerAccess::Read => Some(CommonError::LockReadFailed),
            LedgerAccess::Write => Some(CommonError::LockWriteFailed),
        }
    }
}

/// What the caller of an export does next.
#[derive(Debug)]
pub enum ExportAction {
    /// find out whether the balance folder exists
    CheckFolder,
    /// create the balance folder
    CreateFolder,
    /// list the names in the balance folder
    ReadFolder,
    /// create the file at `path`, empty
    CreateFile { path: String },
    /// write `line` at the end of the file
    WriteLine { line: String },
    /// stop: the export ended with `result`
    Finish { result: Result<(), CommonError> },
}

/// What the caller of an export reports.
#[derive(Debug)]
pub enum ExportEvent {
    /// whether the balance folder exists
    FolderChecked { exists: bool },
    /// whether the balance folder could be created
    FolderCreated { created: bool },
    /// the names in the balance folder, `None` if it could not be listed
    FolderRead { file_names: Option<Vec<String>> },
    /// whether the file could be created
    FileCreated { created: bool },
    /// whether the line could be written
    LineWritten { written: bool },
}

/// An export under way.
#[derive(Debug)]
pub struct Export {
    /// which report the export waits for
    pub stage: ExportStage,
    /// the day of the export, as `DDMMYYYY`
    pub date: String,
    /// the lines of the file
    pub lines: Vec<String>,
    /// how many of the lines have been written
    pub written: usize,
}

/// `lines` are the lines of a balance file for `ledger`: one for each client,
/// in ascending order of the ids.
pub open spec fn is_snapshot_of(lines: Seq<String>, ledger: Map<i32, Client>) -> bool {
    exists|entries: Seq<(i32, Amount)>|
        {
            &&& #[trigger] lists_balances(entries, ledger)
            &&& lines.len() == entries.len()
            &&& forall|k: int|
                0 <= k < lines.len() ==> (#[trigger] lines[k])@ == balance_line(
                    entries[k].0,
                    entries[k].1,
                )
        }
}

impl Export {
    /// While lines are being written, one of them is still to be confirmed.
    pub open spec fn wf(&self) -> bool {
        self.stage == ExportStage::Writing ==> self.written < self.lines@.len()
    }

    /// `event` is the report that the export waits for.
    pub open spec fn awaits(&self, event: ExportEvent) -> bool {
        match event {
            ExportEvent::FolderChecked { .. } => self.stage == ExportStage::CheckingFolder,
            ExportEvent::FolderCreated { .. } => self.stage == ExportStage::CreatingFolder,
            ExportEvent::FolderRead { file_names } => self.stage == ExportStage::ReadingFolder && (
            file_names is Some ==> file_names.unwrap()@.len() < usize::MAX),
            ExportEvent::FileCreated { .. } => self.stage == ExportStage::CreatingFile,
            ExportEvent::LineWritten { .. } => self.stage == ExportStage::Writing,
        }
    }

    /// What the step on `event` needs of the ledger: it reads the balances
    /// when the folder's listing arrives, and resets them when the file
    /// stands and no line is left to write.
    pub open spec fn access(&self, event: ExportEvent) -> LedgerAccess {
        match event {
            ExportEvent::FolderRead { file_names: Some(_) } => LedgerAccess::Read,
            ExportEvent::FileCreated { created: true } => if self.lines@.len() == 0 {
                LedgerAccess::Write
            } else {
                LedgerAccess::Nothing
            },
            ExportEvent::LineWritten { written: true } => if self.written + 1 == self.lines@.len() {
                LedgerAccess::Write
            } else {
                LedgerAccess::Nothing
            },
            _ => LedgerAccess::Nothing,
        }
    }

    /// What the step on `event` needs of the ledger.
    pub fn ledger_access(&self, event: &ExportEvent) -> (r: LedgerAccess)
        ensures
            r == self.access(*event),
    {
        match event {
            ExportEvent::FolderRead { file_names: Some(_) } => LedgerAccess::Read,
            ExportEvent::FileCreated { created: true } => if self.lines.len() == 0 {
                LedgerAccess::Write
            } else {
                LedgerAccess::Nothing
            },
            ExportEvent::LineWritten { written: true } => if self.written < self.lines.len()
                && self.lines.len() - self.written == 1 {
                LedgerAccess::Write
            } else {
                LedgerAccess::Nothing
            },
            _ => LedgerAccess::Nothing,
        }
    }

    /// Whether `event` is the report that the export waits for.
    pub fn is_awaiting(&self, event: &ExportEvent) -> (r: bool)
        ensures
            r == self.awaits(*event),
    {
        match event {
            ExportEvent::FolderChecked { .. } => self.stage == ExportStage::CheckingFolder,
            ExportEvent::FolderCreated { .. } => self.stage == ExportStage::CreatingFolder,
            ExportEvent::FolderRead { file_names } => self.stage == ExportStage::ReadingFolder
                && match file_names {
                Some(names) => names.len() < usize::MAX,
                None => true,
            },
            ExportEvent::FileCreated { .. } => self.stage == ExportStage::CreatingFile,
            ExportEvent::LineWritten { .. } => self.stage == ExportStage::Writing,
        }
    }
}

impl ClientService {
    /// Begins an export for the day `date`.
    pub fn begin_export(date: String) -> (r: (Export, ExportAction))
        ensures
            r.0.stage == ExportStage::CheckingFolder,
            r.0.date == date,
            r.0.lines@.len() == 0,
            r.0.written == 0,
            r.0.wf(),
            r.1 is CheckFolder,
    {
        (
            Export { stage: ExportStage::CheckingFolder, date, lines: Vec::new(), written: 0 },
            ExportAction::CheckFolder,
        )
    }

    /// Begins an export for today, by the local clock: the export's date is
    /// the stamp of a day, `DDMMYYYY`.
    pub fn generate_file_with_all_clients_balances() -> (r: (Export, ExportAction))
        ensures
            is_date_stamp(r.0.date@),
            r.0.stage == ExportStage::CheckingFolder,
            r.0.lines@.len() == 0,
            r.0.written == 0,
            r.0.wf(),
            r.1 is CheckFolder,
    {
        Self::begin_export(today_stamp())
    }

    /// Takes the report `event` and says what to do next.
    ///
    /// The ledger changes in one case only: when the file has been created
    /// and no line is left to write, every balance becomes zero.
    pub fn advance_export(&mut self, export: Export, event: ExportEvent) -> (r: (
        Export,
        ExportAction,
    ))
        requires
            old(self).wf(),
            export.wf(),
            export.awaits(event),
        ensures
            final(self).wf(),
            final(self).next_id() == old(self).next_id(),
            r.0.wf(),
            r.0.date == export.date,
            r.1 is Finish <==> r.0.stage == ExportStage::Done,
            match event {
                ExportEvent::FolderChecked { exists } => {
                    &&& *final(self) == *old(self)
                    &&& r.0.lines == export.lines
                    &&& r.0.written == export.written
                    &&& exists ==> r.0.stage == ExportStage::ReadingFolder && r.1 is ReadFolder
                    &&& !exists ==> r.0.stage == ExportStage::CreatingFolder && r.1 is CreateFolder
                },
                ExportEvent::FolderCreated { created } => {
                    &&& *final(self) == *old(self)
                    &&& r.0.lines == export.lines
                    &&& r.0.written == export.written
                    &&& created ==> r.0.stage == ExportStage::ReadingFolder && r.1 is ReadFolder
                    &&& !created ==> r.1 == (ExportAction::Finish {
                        result: Err(CommonError::FolderCreationFailed),
                    })
                },
                ExportEvent::FolderRead { file_names: None } => {
                    &&& *final(self) == *old(self)
                    &&& r.0.lines == export.lines
                    &&& r.0.written == export.written
                    &&& r.1 == (ExportAction::Finish { result: Err(CommonError::FolderReadFailed) })
                },
                ExportEvent::FolderRead { file_names: Some(names) } => {
                    &&& *final(self) == *old(self)
                    &&& r.0.stage == ExportStage::CreatingFile
                    &&& is_snapshot_of(r.0.lines@, old(self)@)
                    &&& r.0.lines@.len() == old(self)@.dom().len()
                    &&& r.0.written == 0
                    &&& r.1 matches ExportAction::CreateFile { path } && path@ == balance_file_path(
                        export.date@,
                        count_balance_files(names@, export.date@) + 1,
                    )
                },
                ExportEvent::FileCreated { created } => {
                    &&& r.0.lines == export.lines
                    &&& r.0.written == 0
                    &&& !created ==> *final(self) == *old(self) && r.1 == (ExportAction::Finish {
                        result: Err(CommonError::FileCreationFailed),
                    })
                    &&& created && export.lines@.len() > 0 ==> *final(self) == *old(self)
                        && r.0.stage == ExportStage::Writing && r.1 == (ExportAction::WriteLine {
                        line: export.lines@[0],
                    })
                    &&& created && export.lines@.len() == 0 ==> balances_reset(
                        old(self)@,
                        final(self)@,
                    ) && all_balances_zero(final(self)@) && r.1 == (ExportAction::Finish {
                        result: Ok(()),
                    })
                },
                ExportEvent::LineWritten { written } => {
                    &&& r.0.lines == export.lines
                    &&& !written ==> *final(self) == *old(self) && r.0.written == export.written
                        && r.1 == (ExportAction::Finish {
                        result: Err(CommonError::FileWriteFailed),
                    })
                    &&& written ==> r.0.written == export.written + 1
                    &&& written && export.written + 1 < export.lines@.len() ==> *final(self)
                        == *old(self) && r.0.stage == ExportStage::Writing && r.1 == (
                    ExportAction::WriteLine { line: export.lines@[export.written + 1] })
                    &&& written && export.written + 1 == export.lines@.len() ==> balances_reset(
                        old(self)@,
                        final(self)@,
                    ) && all_balances_zero(final(self)@) && r.1 == (ExportAction::Finish {
                        result: Ok(()),
                    })
                },
            },
    {
        match export.ledger_access(&event) {
            LedgerAccess::Nothing => Self::advance_export_aside(export, event),
            LedgerAccess::Read => self.snapshot_for_export(export, event),
            LedgerAccess::Write => self.reset_after_export(export, event),
        }
    }

    /// The step on a report that leaves the ledger alone.
    pub fn advance_export_aside(export: Export, event: ExportEvent) -> (r: (Export, ExportAction))
        requires
            export.wf(),
            export.awaits(event),
            export.access(event) == LedgerAccess::Nothing,
        ensures
            r.0.wf(),
            r.0.date == export.date,
            r.0.lines == export.lines,
            r.1 is Finish <==> r.0.stage == ExportStage::Done,
            match event {
                ExportEvent::FolderChecked { exists } => {
                    &&& r.0.written == export.written
                    &&& exists ==> r.0.stage == ExportStage::ReadingFolder && r.1 is ReadFolder
                    &&& !exists ==> r.0.stage == ExportStage::CreatingFolder && r.1 is CreateFolder
                },
                ExportEvent::FolderCreated { created } => {
                    &&& r.0.written == export.written
                    &&& created ==> r.0.stage == ExportStage::ReadingFolder && r.1 is ReadFolder
                    &&& !created ==> r.1 == (ExportAction::Finish {
                        result: Err(CommonError::FolderCreationFailed),
                    })
                },
                ExportEvent::FolderRead { .. } => {
                    &&& r.0.written == export.written
                    &&& r.1 == (ExportAction::Finish { result: Err(CommonError::FolderReadFailed) })
                },
                ExportEvent::FileCreated { created } => {
                    &&& r.0.written == 0
                    &&& !created ==> r.1 == (ExportAction::Finish {
                        result: Err(CommonError::FileCreationFailed),
                    })
                    &&& created ==> r.0.stage == ExportStage::Writing && r.1 == (
                    ExportAction::WriteLine { line: export.lines@[0] })
                },
                ExportEvent::LineWritten { written } => {
                    &&& !written ==> r.0.written == export.written && r.1 == (ExportAction::Finish {
                        result: Err(CommonError::FileWriteFailed),
                    })
                    &&& written ==> r.0.written == export.written + 1 && r.0.stage
                        == ExportStage::Writing && r.1 == (ExportAction::WriteLine {
                        line: export.lines@[export.written + 1],
                    })
                },
            },
    {
        let Export { stage: _, date, lines, written } = export;
        match event {
            ExportEvent::FolderChecked { exists } => {
                if exists {
                    (
                        Export { stage: ExportStage::ReadingFolder, date, lines, written },
                        ExportAction::ReadFolder,
                    )
                } else {
                    (
                        Export { stage: ExportStage::CreatingFolder, date, lines, written },
                        ExportAction::CreateFolder,
                    )
                }
            },
            ExportEvent::FolderCreated { created } => {
                if created {
                    (
                        Export { stage: ExportStage::ReadingFolder, date, lines, written },
                        ExportAction::ReadFolder,
                    )
                } else {
                    (
                        Export { stage: ExportStage::Done, date, lines, written },
                        ExportAction::Finish { result: Err(CommonError::FolderCreationFailed) },
                    )
                }
            },
            ExportEvent::FolderRead { .. } => (
                Export { stage: ExportStage::Done, date, lines, written },
                ExportAction::Finish { result: Err(CommonError::FolderReadFailed) },
            ),
            ExportEvent::FileCreated { created } => {
                if !created {
                    (
                        Export { stage: ExportStage::Done, date, lines, written: 0 },
                        ExportAction::Finish { result: Err(CommonError::FileCreationFailed) },
                    )
                } else {
                    let line = lines[0].clone();
                    (
                        Export { stage: ExportStage::Writing, date, lines, written: 0 },
                        ExportAction::WriteLine { line },
                    )
                }
            },
            ExportEvent::LineWritten { written: done } => {
                if !done {
                    (
                        Export { stage: ExportStage::Done, date, lines, written },
                        ExportAction::Finish { result: Err(CommonError::FileWriteFailed) },
                    )
                } else {
                    let count = lines.len();
                    assert(written + 1 < count);
                    let line = lines[written + 1].clone();
                    (
                        Export { stage: ExportStage::Writing, date, lines, written: written + 1 },
                        ExportAction::WriteLine { line },
                    )
                }
            },
        }
    }

    /// The step on the folder's listing: names the new file and takes down
    /// the lines to write, from the balances as they are now.
    pub fn snapshot_for_export(&self, export: Export, event: ExportEvent) -> (r: (
        Export,
        ExportAction,
    ))
        requires
            self.wf(),
            export.wf(),
            export.awaits(event),
            export.access(event) == LedgerAccess::Read,
        ensures
            r.0.wf(),
            r.0.date == export.date,
            r.0.stage == ExportStage::CreatingFile,
            is_snapshot_of(r.0.lines@, self@),
            r.0.lines@.len() == self@.dom().len(),
            r.0.written == 0,
            event matches ExportEvent::FolderRead { file_names: Some(names) } && r.1 matches
                ExportAction::CreateFile { path } && path@ == balance_file_path(
                export.date@,
                count_balance_files(names@, export.date@) + 1,
            ),
    {
        let Export { stage: _, date, lines, written } = export;
        match event {
            ExportEvent::FolderRead { file_names: Some(names) } => {
                let path = generate_next_balance_file_name(date.as_str(), &names);
                let entries = self.balances_by_client_id();
                let lines = format_balance_lines(&entries);
                assert(lists_balances(entries@, self@));
                (
                    Export { stage: ExportStage::CreatingFile, date, lines, written: 0 },
                    ExportAction::CreateFile { path },
                )
            },
            _ => unreached(),
        }
    }

    /// The step after the last write: sets every balance to zero and ends
    /// the export.
    pub fn reset_after_export(&mut self, export: Export, event: ExportEvent) -> (r: (
        Export,
        ExportAction,
    ))
        requires
            old(self).wf(),
            export.wf(),
            export.awaits(event),
            export.access(event) == LedgerAccess::Write,
        ensures
            final(self).wf(),
            final(self).next_id() == old(self).next_id(),
            balances_reset(old(self)@, final(self)@),
            all_balances_zero(final(self)@),
            r.0.wf(),
            r.0.date == export.date,
            r.0.lines == export.lines,
            r.0.written == export.lines@.len(),
            r.0.stage == ExportStage::Done,
            r.1 == (ExportAction::Finish { result: Ok(()) }),
    {
        let Export { stage: _, date, lines, written: _ } = export;
        self.reset_balances();
        let written = lines.len();
        (Export { stage: ExportStage::Done, date, lines, written }, ExportAction::Finish { result: Ok(()) })
    }
}

} // verus!
