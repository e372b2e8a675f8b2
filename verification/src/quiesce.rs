//! The backup cycle's step sequencer.
//!
//! A cycle quiesces a connected server (disable autosave, force a save,
//! flush the filesystem), archives its data directory, re-enables autosave,
//! uploads, removes the local archive, and prunes. The caller drives the
//! machine: it performs each returned step and reports whether it succeeded.
//! Step failures are logged and never cut the sequence short where it
//! matters: re-enabling autosave is the last act of the quiesce protocol and
//! happens no matter which steps before it failed, so a mid-sequence failure
//! can never leave a server with autosave off.
//!
//! The local archive is removed even when the upload failed; whether removal
//! should be gated on upload success is an open question, deliberately kept
//! as it is rather than silently resolved.

use vstd::prelude::*;

verus! {

/// The outward actions of one backup cycle, in the order the machine hands
/// them out.
#[derive(Clone, Copy, PartialEq, Eq, Structural, Debug)]
pub enum BackupStep {
    /// Console command: stop periodic saves while the archive is taken.
    DisableAutosave,
    /// Console command: force a full save/flush.
    FlushSave,
    /// Flush the host's filesystem buffers.
    SyncFilesystem,
    /// Produce the compressed archive of the data directory.
    CreateArchive,
    /// Console command: resume periodic saves.
    EnableAutosave,
    /// Copy the archive to remote storage.
    UploadArchive,
    /// Remove the local archive file.
    RemoveLocalArchive,
    /// Delete archives outside the retention window, local and remote.
    PruneArchives,
}

/// How far the cycle has come: the most recent step handed out.
#[derive(Clone, Copy, PartialEq, Eq, Structural, Debug)]
pub enum CyclePhase {
    Start,
    AutosaveOff,
    Flushed,
    Synced,
    Archived,
    Restored,
    Uploaded,
    Cleaned,
    Done,
}

/// The step the machine hands out in a phase, given whether the previous step
/// succeeded. Quiescing happens only for a connected server; the upload runs
/// only off a successfully created archive; re-enabling autosave depends on
/// nothing.
pub open spec fn cycle_step(
    phase: CyclePhase,
    connected: bool,
    archive_ok: bool,
    prev_ok: bool,
) -> Option<BackupStep> {
    match phase {
        CyclePhase::Start => if connected {
            Some(BackupStep::DisableAutosave)
        } else {
            Some(BackupStep::CreateArchive)
        },
        CyclePhase::AutosaveOff => Some(BackupStep::FlushSave),
        CyclePhase::Flushed => Some(BackupStep::SyncFilesystem),
        CyclePhase::Synced => Some(BackupStep::CreateArchive),
        CyclePhase::Archived => if connected {
            Some(BackupStep::EnableAutosave)
        } else if prev_ok {
            Some(BackupStep::UploadArchive)
        } else {
            Some(BackupStep::PruneArchives)
        },
        CyclePhase::Restored => if archive_ok {
            Some(BackupStep::UploadArchive)
        } else {
            Some(BackupStep::PruneArchives)
        },
        CyclePhase::Uploaded => Some(BackupStep::RemoveLocalArchive),
        CyclePhase::Cleaned => Some(BackupStep::PruneArchives),
        CyclePhase::Done => None,
    }
}

/// The phase after handing out a step.
pub open spec fn cycle_next(phase: CyclePhase, connected: bool, archive_ok: bool, prev_ok: bool) -> CyclePhase {
    match phase {
        CyclePhase::Start => if connected {
            CyclePhase::AutosaveOff
        } else {
            CyclePhase::Archived
        },
        CyclePhase::AutosaveOff => CyclePhase::Flushed,
        CyclePhase::Flushed => CyclePhase::Synced,
        CyclePhase::Synced => CyclePhase::Archived,
        CyclePhase::Archived => if connected {
            CyclePhase::Restored
        } else if prev_ok {
            CyclePhase::Uploaded
        } else {
            CyclePhase::Done
        },
        CyclePhase::Restored => if archive_ok {
            CyclePhase::Uploaded
        } else {
            CyclePhase::Done
        },
        CyclePhase::Uploaded => CyclePhase::Cleaned,
        CyclePhase::Cleaned => CyclePhase::Done,
        CyclePhase::Done => CyclePhase::Done,
    }
}

pub open spec fn phase_rank(phase: CyclePhase) -> nat {
    match phase {
        CyclePhase::Start => 8,
        CyclePhase::AutosaveOff => 7,
        CyclePhase::Flushed => 6,
        CyclePhase::Synced => 5,
        CyclePhase::Archived => 4,
        CyclePhase::Restored => 3,
        CyclePhase::Uploaded => 2,
        CyclePhase::Cleaned => 1,
        CyclePhase::Done => 0,
    }
}

/// One backup cycle in flight for one server.
pub struct BackupCycle {
    connected: bool,
    phase: CyclePhase,
    archive_ok: bool,
    disabled: bool,
    restored: bool,
}

impl BackupCycle {
    /// Whether the server was connected when the cycle began (and so was
    /// quiesced).
    pub closed spec fn spec_connected(&self) -> bool {
        self.connected
    }

    pub closed spec fn spec_phase(&self) -> CyclePhase {
        self.phase
    }

    /// Whether a `DisableAutosave` step was handed out.
    pub closed spec fn autosave_disabled(&self) -> bool {
        self.disabled
    }

    /// Whether an `EnableAutosave` step was handed out.
    pub closed spec fn autosave_restored(&self) -> bool {
        self.restored
    }

    /// Whether the archive step was reported successful.
    pub closed spec fn spec_archive_ok(&self) -> bool {
        self.archive_ok
    }

    pub open spec fn done(&self) -> bool {
        self.spec_phase() is Done
    }

    /// The cycle's standing invariant. Autosave is disabled exactly while a
    /// connected cycle is past its first step, and restored exactly once a
    /// connected cycle has passed the `EnableAutosave` step — which every
    /// path from `Archived` to `Done` crosses.
    pub open spec fn wf(&self) -> bool {
        &&& self.autosave_disabled() == (self.spec_connected() && !(self.spec_phase() is Start))
        &&& self.autosave_restored() == (self.spec_connected() && phase_rank(self.spec_phase())
            <= phase_rank(CyclePhase::Restored))
    }

    /// Begin a cycle; `connected` says whether the server's console is live,
    /// which decides whether the quiesce steps run at all.
    pub fn start(connected: bool) -> (cycle: BackupCycle)
        ensures
            cycle.wf(),
            cycle.spec_connected() == connected,
            cycle.spec_phase() == CyclePhase::Start,
            !cycle.autosave_disabled(),
            !cycle.autosave_restored(),
    {
        BackupCycle {
            connected,
            phase: CyclePhase::Start,
            archive_ok: false,
            disabled: false,
            restored: false,
        }
    }

    /// Hand out the next step. `prev_ok` reports whether the previously
    /// returned step succeeded (pass `true` for the first call); the machine
    /// continues on failures — only the upload is skipped when no archive was
    /// created. Returns `None` once the cycle is over.
    pub fn next(&mut self, prev_ok: bool) -> (step: Option<BackupStep>)
        requires
            old(self).wf(),
        ensures
            final(self).wf(),
            final(self).spec_connected() == old(self).spec_connected(),
            step == cycle_step(
                old(self).spec_phase(),
                old(self).spec_connected(),
                old(self).spec_archive_ok(),
                prev_ok,
            ),
            final(self).spec_phase() == cycle_next(
                old(self).spec_phase(),
                old(self).spec_connected(),
                old(self).spec_archive_ok(),
                prev_ok,
            ),
            final(self).spec_archive_ok() == if old(self).spec_phase() is Archived {
                prev_ok
            } else {
                old(self).spec_archive_ok()
            },
            old(self).autosave_disabled() ==> final(self).autosave_disabled(),
            old(self).autosave_restored() ==> final(self).autosave_restored(),
            step is None <==> old(self).done(),
            step is Some ==> phase_rank(final(self).spec_phase()) < phase_rank(
                old(self).spec_phase(),
            ),
    {
        match self.phase {
            CyclePhase::Start => {
                if self.connected {
                    self.phase = CyclePhase::AutosaveOff;
                    self.disabled = true;
                    Some(BackupStep::DisableAutosave)
                } else {
                    self.phase = CyclePhase::Archived;
                    Some(BackupStep::CreateArchive)
                }
            },
            CyclePhase::AutosaveOff => {
                self.phase = CyclePhase::Flushed;
                Some(BackupStep::FlushSave)
            },
            CyclePhase::Flushed => {
                self.phase = CyclePhase::Synced;
                Some(BackupStep::SyncFilesystem)
            },
            CyclePhase::Synced => {
                self.phase = CyclePhase::Archived;
                Some(BackupStep::CreateArchive)
            },
            CyclePhase::Archived => {
                self.archive_ok = prev_ok;
                if self.connected {
                    self.phase = CyclePhase::Restored;
                    self.restored = true;
                    Some(BackupStep::EnableAutosave)
                } else if prev_ok {
                    self.phase = CyclePhase::Uploaded;
                    Some(BackupStep::UploadArchive)
                } else {
                    self.phase = CyclePhase::Done;
                    Some(BackupStep::PruneArchives)
                }
            },
            CyclePhase::Restored => {
                if self.archive_ok {
                    self.phase = CyclePhase::Uploaded;
                    Some(BackupStep::UploadArchive)
                } else {
                    self.phase = CyclePhase::Done;
                    Some(BackupStep::PruneArchives)
                }
            },
            CyclePhase::Uploaded => {
                self.phase = CyclePhase::Cleaned;
                Some(BackupStep::RemoveLocalArchive)
            },
            CyclePhase::Cleaned => {
                self.phase = CyclePhase::Done;
                Some(BackupStep::PruneArchives)
            },
            CyclePhase::Done => None,
        }
    }

    /// Whether the cycle is over.
    pub fn is_done(&self) -> (over: bool)
        ensures
            over == self.done(),
    {
        matches!(self.phase, CyclePhase::Done)
    }

    /// Whether the archive step was reported successful — the condition for
    /// persisting the cycle's backup record, independent of the upload's and
    /// prune's outcomes.
    pub fn archive_succeeded(&self) -> (created: bool)
        ensures
            created == self.spec_archive_ok(),
    {
        self.archive_ok
    }
}

/// A finished cycle never leaves autosave off: whenever `DisableAutosave` was
/// handed out, `EnableAutosave` was handed out too, whatever mix of step
/// failures — the archiver's included — the cycle saw on the way.
pub proof fn lemma_autosave_restored(cycle: &BackupCycle)
    requires
        cycle.wf(),
        cycle.done(),
    ensures
        cycle.autosave_disabled() ==> cycle.autosave_restored(),
{
}

} // verus!
