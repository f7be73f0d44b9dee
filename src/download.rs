//! The steps of one image download: make sure the output directory exists, skip
//! the download where the file is already there, else stream the body into a
//! temporary file and rename it to its final name.
//!
//! The driver performs each [`DownloadAction`] and reports what came of it as a
//! [`DownloadEvent`].

use vstd::prelude::*;

verus! {

/// Where a download stands.
#[derive(Clone, Copy, PartialEq, Eq, Structural)]
pub enum DownloadPhase {
    /// Nothing has been done yet.
    Start,
    /// The output directory is being created.
    CreatingDir,
    /// The driver checks whether the destination file exists.
    CheckingTarget,
    /// The body is being streamed into a temporary file.
    Transferring,
    /// The temporary file is being renamed to the destination.
    Persisting,
    /// Finished: `ok` tells whether the download succeeded.
    Done { ok: bool },
}

/// What the driver reports.
#[derive(Clone, Copy, PartialEq, Eq, Structural)]
pub enum DownloadEvent {
    /// The download was picked up; `dir_exists` tells whether the output
    /// directory is there.
    Begun { dir_exists: bool },
    /// The output directory was created.
    DirCreated,
    /// The destination file was looked up.
    TargetChecked { exists: bool },
    /// A chunk of `len` bytes of the body was written to the temporary file.
    ChunkWritten { len: u64 },
    /// The body has been received and written in full.
    BodyEnded,
    /// The temporary file now has the destination's name.
    Persisted,
    /// A network or file system operation failed.
    Failed,
}

/// What the driver does next.
#[derive(Clone, Copy, PartialEq, Eq, Structural)]
pub enum DownloadAction {
    /// Create the output directory, parents included.
    CreateDir,
    /// Look up the destination file.
    CheckTarget,
    /// Create a temporary file in the output directory, request the body and
    /// write its first chunk.
    StartTransfer,
    /// Write the next chunk of the body.
    ContinueTransfer,
    /// Rename the temporary file to the destination.
    Persist,
    /// Stop: `ok` tells whether the download succeeded.
    Finish { ok: bool },
    /// The event does not apply in this phase; nothing changes.
    Ignore,
}

/// The state of one download.
#[derive(Clone, Copy, PartialEq, Eq, Structural)]
pub struct DownloadRun {
    pub phase: DownloadPhase,
    /// The bytes written to the temporary file so far (saturating).
    pub transferred: u64,
}

/// The state and action after `e`.
pub open spec fn download_step(s: DownloadRun, e: DownloadEvent) -> (DownloadRun, DownloadAction) {
    let keep = (s, DownloadAction::Ignore);
    let fail = (DownloadRun { phase: DownloadPhase::Done { ok: false }, ..s }, DownloadAction::Finish { ok: false });
    match s.phase {
        DownloadPhase::Done { .. } => keep,
        _ => match e {
            DownloadEvent::Failed => fail,
            DownloadEvent::Begun { dir_exists } => if s.phase == DownloadPhase::Start {
                if dir_exists {
                    (DownloadRun { phase: DownloadPhase::CheckingTarget, ..s }, DownloadAction::CheckTarget)
                } else {
                    (DownloadRun { phase: DownloadPhase::CreatingDir, ..s }, DownloadAction::CreateDir)
                }
            } else {
                keep
            },
            DownloadEvent::DirCreated => if s.phase == DownloadPhase::CreatingDir {
                (DownloadRun { phase: DownloadPhase::CheckingTarget, ..s }, DownloadAction::CheckTarget)
            } else {
                keep
            },
            DownloadEvent::TargetChecked { exists } => if s.phase == DownloadPhase::CheckingTarget {
                if exists {
                    (DownloadRun { phase: DownloadPhase::Done { ok: true }, ..s }, DownloadAction::Finish { ok: true })
                } else {
                    (DownloadRun { phase: DownloadPhase::Transferring, ..s }, DownloadAction::StartTransfer)
                }
            } else {
                keep
            },
            DownloadEvent::ChunkWritten { len } => if s.phase == DownloadPhase::Transferring {
                let total = if s.transferred + len > u64::MAX { u64::MAX } else { (s.transferred + len) as u64 };
                (DownloadRun { transferred: total, ..s }, DownloadAction::ContinueTransfer)
            } else {
                keep
            },
            DownloadEvent::BodyEnded => if s.phase == DownloadPhase::Transferring {
                (DownloadRun { phase: DownloadPhase::Persisting, ..s }, DownloadAction::Persist)
            } else {
                keep
            },
            DownloadEvent::Persisted => if s.phase == DownloadPhase::Persisting {
                (DownloadRun { phase: DownloadPhase::Done { ok: true }, ..s }, DownloadAction::Finish { ok: true })
            } else {
                keep
            },
        },
    }
}

impl DownloadRun {
    /// A download that has not begun.
    pub fn new() -> (r: DownloadRun)
        ensures
            r.phase == DownloadPhase::Start,
            r.transferred == 0,
    {
        DownloadRun { phase: DownloadPhase::Start, transferred: 0 }
    }

    /// Takes one event and says what to do next.
    pub fn on_event(&mut self, e: DownloadEvent) -> (a: DownloadAction)
        ensures
            (*final(self), a) == download_step(*old(self), e),
    {
        if let DownloadPhase::Done { .. } = self.phase {
            return DownloadAction::Ignore;
        }
        match e {
            DownloadEvent::Failed => {
                self.phase = DownloadPhase::Done { ok: false };
                DownloadAction::Finish { ok: false }
            },
            DownloadEvent::Begun { dir_exists } => {
                if self.phase != DownloadPhase::Start {
                    DownloadAction::Ignore
                } else if dir_exists {
                    self.phase = DownloadPhase::CheckingTarget;
                    DownloadAction::CheckTarget
                } else {
                    self.phase = DownloadPhase::CreatingDir;
                    DownloadAction::CreateDir
                }
            },
            DownloadEvent::DirCreated => {
                if self.phase != DownloadPhase::CreatingDir {
                    DownloadAction::Ignore
                } else {
                    self.phase = DownloadPhase::CheckingTarget;
                    DownloadAction::CheckTarget
                }
            },
            DownloadEvent::TargetChecked { exists } => {
                if self.phase != DownloadPhase::CheckingTarget {
                    DownloadAction::Ignore
                } else if exists {
                    self.phase = DownloadPhase::Done { ok: true };
                    DownloadAction::Finish { ok: true }
                } else {
                    self.phase = DownloadPhase::Transferring;
                    DownloadAction::StartTransfer
                }
            },
            DownloadEvent::ChunkWritten { len } => {
                if self.phase != DownloadPhase::Transferring {
                    DownloadAction::Ignore
                } else {
                    self.transferred = self.transferred.saturating_add(len);
                    DownloadAction::ContinueTransfer
                }
            },
            DownloadEvent::BodyEnded => {
                if self.phase != DownloadPhase::Transferring {
                    DownloadAction::Ignore
                } else {
                    self.phase = DownloadPhase::Persisting;
                    DownloadAction::Persist
                }
            },
            DownloadEvent::Persisted => {
                if self.phase != DownloadPhase::Persisting {
                    DownloadAction::Ignore
                } else {
                    self.phase = DownloadPhase::Done { ok: true };
                    DownloadAction::Finish { ok: true }
                }
            },
        }
    }

    /// The download has finished, successfully or not.
    pub fn is_done(&self) -> (r: bool)
        ensures
            r == (self.phase is Done),
    {
        match self.phase {
            DownloadPhase::Done { .. } => true,
            _ => false,
        }
    }
}

/// The state after the events `es`, in order, and the actions they called for.
pub open spec fn run_download(s: DownloadRun, es: Seq<DownloadEvent>) -> (DownloadRun, Seq<DownloadAction>)
    decreases es.len(),
{
    if es.len() == 0 {
        (s, Seq::empty())
    } else {
        let (s1, a) = download_step(s, es[0]);
        let rest = run_download(s1, es.drop_first());
        (rest.0, seq![a] + rest.1)
    }
}

/// The action writes to the output directory's files.
pub open spec fn writes_file(a: DownloadAction) -> bool {
    a == DownloadAction::StartTransfer || a == DownloadAction::ContinueTransfer || a
        == DownloadAction::Persist
}

/// A finished download ignores whatever comes after.
pub proof fn finished_download_is_quiet(s: DownloadRun, es: Seq<DownloadEvent>)
    requires
        s.phase is Done,
    ensures
        run_download(s, es).0 == s,
        forall|i: int| 0 <= i < es.len() ==> run_download(s, es).1[i] == DownloadAction::Ignore,
        run_download(s, es).1.len() == es.len(),
    decreases es.len(),
{
    if es.len() > 0 {
        finished_download_is_quiet(s, es.drop_first());
        let rest = run_download(s, es.drop_first());
        assert forall|i: int| 0 <= i < es.len() implies run_download(s, es).1[i]
            == DownloadAction::Ignore by {
            if i > 0 {
                assert(run_download(s, es).1[i] == rest.1[i - 1]);
            }
        }
    }
}

/// Where the destination file already exists when the download looks it up, the
/// download succeeds without writing a byte, and no action touches the file,
/// whatever is reported after.
pub proof fn existing_file_is_kept(dir_exists: bool, later: Seq<DownloadEvent>)
    ensures
        ({
            let prefix = if dir_exists {
                seq![DownloadEvent::Begun { dir_exists: true }]
            } else {
                seq![DownloadEvent::Begun { dir_exists: false }, DownloadEvent::DirCreated]
            };
            let es = prefix + seq![DownloadEvent::TargetChecked { exists: true }] + later;
            let r = run_download(DownloadRun { phase: DownloadPhase::Start, transferred: 0 }, es);
            &&& r.0 == DownloadRun { phase: DownloadPhase::Done { ok: true }, transferred: 0 }
            &&& forall|i: int| 0 <= i < r.1.len() ==> !writes_file(#[trigger] r.1[i])
        }),
{
    let start = DownloadRun { phase: DownloadPhase::Start, transferred: 0 };
    let checking = DownloadRun { phase: DownloadPhase::CheckingTarget, transferred: 0 };
    let done = DownloadRun { phase: DownloadPhase::Done { ok: true }, transferred: 0 };
    let check = seq![DownloadEvent::TargetChecked { exists: true }];
    finished_download_is_quiet(done, later);
    let tail = check + later;
    assert(tail[0] == DownloadEvent::TargetChecked { exists: true });
    assert(tail.drop_first() =~= later);
    let rt = run_download(checking, tail);
    assert(rt.0 == done);
    assert forall|i: int| 0 <= i < rt.1.len() implies !writes_file(#[trigger] rt.1[i]) by {
        if i > 0 {
            assert(rt.1[i] == run_download(done, later).1[i - 1]);
        }
    }
    if dir_exists {
        let es = seq![DownloadEvent::Begun { dir_exists: true }] + check + later;
        assert(es[0] == DownloadEvent::Begun { dir_exists: true });
        assert(es.drop_first() =~= tail);
        let r = run_download(start, es);
        assert forall|i: int| 0 <= i < r.1.len() implies !writes_file(#[trigger] r.1[i]) by {
            if i > 0 {
                assert(r.1[i] == rt.1[i - 1]);
            }
        }
    } else {
        let creating = DownloadRun { phase: DownloadPhase::CreatingDir, transferred: 0 };
        let mid = seq![DownloadEvent::DirCreated] + check + later;
        assert(mid[0] == DownloadEvent::DirCreated);
        assert(mid.drop_first() =~= tail);
        let rm = run_download(creating, mid);
        assert forall|i: int| 0 <= i < rm.1.len() implies !writes_file(#[trigger] rm.1[i]) by {
            if i > 0 {
                assert(rm.1[i] == rt.1[i - 1]);
            }
        }
        let es = seq![DownloadEvent::Begun { dir_exists: false }, DownloadEvent::DirCreated] + check
            + later;
        assert(es[0] == DownloadEvent::Begun { dir_exists: false });
        assert(es.drop_first() =~= mid);
        let r = run_download(start, es);
        assert forall|i: int| 0 <= i < r.1.len() implies !writes_file(#[trigger] r.1[i]) by {
            if i > 0 {
                assert(r.1[i] == rm.1[i - 1]);
            }
        }
    }
}

} // verus!
