//! File rotation rules.

use vstd::prelude::*;
use crate::errors::{LoggingError, LoquatError};
use crate::time::{digit_char, int_decimal, nat_digits, push_digits};

verus! {

/// When and how log files are rotated.
#[derive(Debug, Clone, Copy, PartialEq, Eq, Structural)]
pub struct FileRotationConfig {
    /// Rotate once the file holds this many bytes.
    pub max_file_size: u64,
    /// How many backups are kept.
    pub max_files: usize,
    pub compress: bool,
}

impl Default for FileRotationConfig {
    /// 10 MiB files, five backups, no compression.
    fn default() -> (r: Self)
        ensures
            r.max_file_size == 10_485_760,
            r.max_files == 5,
            !r.compress,
    {
        FileRotationConfig { max_file_size: 10 * 1024 * 1024, max_files: 5, compress: false }
    }
}

/// Whether a file of `current_size` bytes is due for rotation: only with a
/// rotation configured, once it reaches the size limit.
pub fn needs_rotation(config: &Option<FileRotationConfig>, current_size: u64) -> (r: bool)
    ensures
        r == (match config {
            Some(c) => current_size >= c.max_file_size,
            None => false,
        }),
{
    match config {
        Some(c) => current_size >= c.max_file_size,
        None => false,
    }
}

/// The size of a file of `current_size` bytes after appending a line of
/// `message_bytes` bytes and its newline.
pub fn size_after_line(current_size: u64, message_bytes: usize) -> (r: u64)
    requires
        current_size + message_bytes + 1 <= u64::MAX,
    ensures
        r == current_size + message_bytes + 1,
{
    current_size + message_bytes as u64 + 1
}

/// std's `Path::with_extension(ext)` of the path `path`, as text: the path
/// with the extension of its file name replaced by `ext` (or `ext` added).
pub uninterp spec fn path_with_extension(path: Seq<char>, ext: Seq<char>) -> Seq<char>;

/// `s` holds no path separator.
pub open spec fn no_separator(s: Seq<char>) -> bool {
    !s.contains('/') && !s.contains('\\')
}

/// Decimal digits hold no path separator.
proof fn lemma_digits_no_separator(n: nat)
    ensures
        no_separator(nat_digits(n)),
    decreases n,
{
    if n >= 10 {
        lemma_digits_no_separator(n / 10);
        let d = nat_digits(n / 10);
        let t = d + seq![digit_char(n % 10)];
        assert forall|c: char| t.contains(c) implies c != '/' && c != '\\' by {
            let i = choose|i: int| 0 <= i < t.len() && t[i] == c;
            if i < d.len() {
                assert(d[i] == c);
            }
        }
    }
}

/// Calls std's `Path::with_extension` and renders the result as text. The
/// contract names the result: it depends on the two texts alone. std panics
/// on an extension holding a path separator, which `requires` leaves out.
#[verifier::external_body]
fn with_extension(path: &str, ext: &str) -> (r: String)
    requires
        no_separator(ext@),
    ensures
        r@ == path_with_extension(path@, ext@),
{
    std::path::Path::new(path).with_extension(ext).to_string_lossy().into_owned()
}

/// The file a rotation index names: 0 is the log file itself, `n` its
/// backup `log.<n>`.
pub open spec fn rotation_path(file_path: Seq<char>, n: nat) -> Seq<char> {
    if n == 0 {
        file_path
    } else {
        path_with_extension(file_path, "log."@ + int_decimal(n as int))
    }
}

/// The stages of a rotation.
#[derive(Debug, Clone, Copy, PartialEq, Eq, Structural)]
pub enum RotationPhase {
    /// Probing whether the chosen backup name is taken; `num` is the next
    /// backup number to try.
    Probe { num: usize },
    /// Checking whether the log file itself exists, to move it to the backup.
    CheckCurrent,
    /// Checking backup `i`, to shift it to `i + 1`.
    Shift { i: usize },
    /// Checking backup `i`, beyond the kept ones, to remove it.
    Prune { i: usize },
    /// Reopening the log file.
    Reopen,
    /// Finished.
    Finished,
}

/// What a rotation asks to be done next.
#[derive(Debug, Clone, PartialEq, Eq)]
pub enum RotationAction {
    /// Tell whether this file exists.
    CheckExists(String),
    /// Rename a file.
    Rename { from: String, to: String },
    /// Remove a file.
    Remove(String),
    /// Reopen the log file, empty, for appending.
    Reopen,
    /// Nothing more.
    Finished,
}

/// An operation on files, by rotation index: rename the first to the second,
/// or (when `rename` is false) remove the first.
#[derive(Debug, Clone, Copy, PartialEq, Eq, Structural)]
pub struct RotationOp {
    pub rename: bool,
    pub from: usize,
    pub to: usize,
}

/// Where the shifting of backups starts: at the last kept one, when at least
/// two are kept; else where pruning starts.
pub open spec fn shift_start(max_files: usize) -> RotationPhase {
    if max_files >= 2 {
        RotationPhase::Shift { i: (max_files - 1) as usize }
    } else {
        prune_start(max_files)
    }
}

/// Where pruning starts: just past the kept backups, when any are kept.
pub open spec fn prune_start(max_files: usize) -> RotationPhase {
    if max_files > 0 {
        RotationPhase::Prune { i: (max_files + 1) as usize }
    } else {
        RotationPhase::Reopen
    }
}

/// One step of a rotation: from the stage `p`, the chosen backup `backup` and
/// the answer `exists` to the current check, the next stage, the chosen
/// backup and the operation to perform, if any. The backup name is the first
/// free one among the log file itself and `log.1`, `log.2`, …, stopping once
/// the numbers pass `max_files`; the log file then moves there; backups
/// `max_files - 1` down to 1 shift up by one; backups `max_files + 1` to
/// `max_files + 10` are removed; and the log file is reopened.
pub open spec fn spec_rotation_step(p: RotationPhase, backup: usize, max_files: usize, exists: bool) -> (
    RotationPhase,
    usize,
    Option<RotationOp>,
) {
    match p {
        RotationPhase::Probe { num } => if exists {
            if num + 1 > max_files {
                (RotationPhase::CheckCurrent, num, None)
            } else {
                (RotationPhase::Probe { num: (num + 1) as usize }, num, None)
            }
        } else {
            (RotationPhase::CheckCurrent, backup, None)
        },
        RotationPhase::CheckCurrent => (
            shift_start(max_files),
            backup,
            if exists {
                Some(RotationOp { rename: true, from: 0, to: backup })
            } else {
                None
            },
        ),
        RotationPhase::Shift { i } => (
            if i > 1 {
                RotationPhase::Shift { i: (i - 1) as usize }
            } else {
                prune_start(max_files)
            },
            backup,
            if exists {
                Some(RotationOp { rename: true, from: i, to: (i + 1) as usize })
            } else {
                None
            },
        ),
        RotationPhase::Prune { i } => (
            if i < max_files + 10 {
                RotationPhase::Prune { i: (i + 1) as usize }
            } else {
                RotationPhase::Reopen
            },
            backup,
            if exists {
                Some(RotationOp { rename: false, from: i, to: 0 })
            } else {
                None
            },
        ),
        RotationPhase::Reopen => (RotationPhase::Finished, backup, None),
        RotationPhase::Finished => (RotationPhase::Finished, backup, None),
    }
}

/// The stages are consistent with the number of kept backups.
pub open spec fn phase_ok(p: RotationPhase, backup: usize, max_files: usize) -> bool {
    &&& max_files + 11 <= usize::MAX
    &&& backup <= max_files + 1
    &&& match p {
        RotationPhase::Probe { num } => 1 <= num <= max_files + 1,
        RotationPhase::Shift { i } => 1 <= i < max_files,
        RotationPhase::Prune { i } => max_files + 1 <= i <= max_files + 10,
        _ => true,
    }
}

/// What is left of a rotation: every step makes it smaller until it finishes.
pub open spec fn rotation_measure(p: RotationPhase, max_files: usize) -> nat {
    match p {
        RotationPhase::Finished => 0,
        RotationPhase::Reopen => 1,
        RotationPhase::Prune { i } => (2 + (max_files + 10 - i)) as nat,
        RotationPhase::Shift { i } => (13 + i) as nat,
        RotationPhase::CheckCurrent => (14 + max_files) as nat,
        RotationPhase::Probe { num } => (15 + max_files + (max_files + 1 - num)) as nat,
    }
}

/// The action `r` performs the operation `op` on the files of the log file
/// `file_path`.
pub open spec fn action_performs(file_path: Seq<char>, op: Option<RotationOp>, r: Option<RotationAction>) -> bool {
    match op {
        None => r is None,
        Some(o) => if o.rename {
            r matches Some(RotationAction::Rename { from, to }) && from@ == rotation_path(
                file_path,
                o.from as nat,
            ) && to@ == rotation_path(file_path, o.to as nat)
        } else {
            r matches Some(RotationAction::Remove(f)) && f@ == rotation_path(file_path, o.from as nat)
        },
    }
}

/// The rotation of the log file at `file_path`, keeping `max_files` backups,
/// driven by answers about which files exist.
#[derive(Debug)]
pub struct Rotation {
    file_path: String,
    max_files: usize,
    backup: usize,
    phase: RotationPhase,
}

impl Rotation {
    #[verifier::type_invariant]
    spec fn well_formed(self) -> bool {
        phase_ok(self.phase, self.backup, self.max_files)
    }

    /// The stage.
    pub closed spec fn spec_phase(&self) -> RotationPhase {
        self.phase
    }

    /// The chosen backup, by index (0 while none is chosen: the file itself).
    pub closed spec fn spec_backup(&self) -> usize {
        self.backup
    }

    /// The number of kept backups.
    pub closed spec fn spec_max_files(&self) -> usize {
        self.max_files
    }

    /// The log file.
    pub closed spec fn spec_file_path(&self) -> Seq<char> {
        self.file_path@
    }

    /// Start rotating the log file at `file_path`; refused without a rotation
    /// configuration.
    pub fn start(file_path: &str, config: &Option<FileRotationConfig>) -> (r: Result<
        Rotation,
        LoquatError,
    >)
        requires
            config matches Some(c) ==> c.max_files + 11 <= usize::MAX,
        ensures
            config is None ==> (r matches Err(LoquatError::Logging(LoggingError::Configuration(m)))
                && m@ == "Rotation not configured"@),
            config matches Some(c) ==> (r matches Ok(rot) && rot.spec_phase()
                == (RotationPhase::Probe { num: 1 }) && rot.spec_backup() == 0
                && rot.spec_max_files() == c.max_files && rot.spec_file_path() == file_path@),
    {
        match config {
            None => Err(
                LoquatError::Logging(
                    LoggingError::Configuration(String::from_str("Rotation not configured")),
                ),
            ),
            Some(c) => Ok(
                Rotation {
                    file_path: String::from_str(file_path),
                    max_files: c.max_files,
                    backup: 0,
                    phase: RotationPhase::Probe { num: 1 },
                },
            ),
        }
    }

    /// The file at rotation index `n`.
    fn path_at(&self, n: usize) -> (r: String)
        ensures
            r@ == rotation_path(self.file_path@, n as nat),
    {
        if n == 0 {
            return self.file_path.clone();
        }
        let mut ext = String::from_str("log.");
        push_digits(n as u64, &mut ext);
        assert(ext@ =~= "log."@ + int_decimal(n as int));
        proof {
            reveal_strlit("log.");
            lemma_digits_no_separator(n as nat);
            let d = nat_digits(n as nat);
            assert forall|c: char| ext@.contains(c) implies c != '/' && c != '\\' by {
                let i = choose|i: int| 0 <= i < ext@.len() && ext@[i] == c;
                if i >= 4 {
                    assert(d[i - 4] == c);
                    assert(d.contains(c));
                }
            }
        }
        with_extension(self.file_path.as_str(), ext.as_str())
    }

    /// What to do now: a check of which the answer drives `answer`, or the
    /// reopening, or nothing.
    pub fn current_action(&self) -> (r: RotationAction)
        ensures
            self.spec_phase() matches RotationPhase::Probe { .. } ==> (r matches RotationAction::CheckExists(p) && p@ == rotation_path(self.spec_file_path(), self.spec_backup() as nat)),
            self.spec_phase() is CheckCurrent ==> (r matches RotationAction::CheckExists(p) && p@
                == self.spec_file_path()),
            self.spec_phase() matches RotationPhase::Shift { i } ==> (r matches RotationAction::CheckExists(p) && p@ == rotation_path(self.spec_file_path(), i as nat)),
            self.spec_phase() matches RotationPhase::Prune { i } ==> (r matches RotationAction::CheckExists(p) && p@ == rotation_path(self.spec_file_path(), i as nat)),
            self.spec_phase() is Reopen ==> r is Reopen,
            self.spec_phase() is Finished ==> r is Finished,
    {
        match self.phase {
            RotationPhase::Probe { num: _ } => RotationAction::CheckExists(self.path_at(self.backup)),
            RotationPhase::CheckCurrent => RotationAction::CheckExists(self.file_path.clone()),
            RotationPhase::Shift { i } => RotationAction::CheckExists(self.path_at(i)),
            RotationPhase::Prune { i } => RotationAction::CheckExists(self.path_at(i)),
            RotationPhase::Reopen => RotationAction::Reopen,
            RotationPhase::Finished => RotationAction::Finished,
        }
    }

    /// Take the answer `exists` to the current check (or the news that the
    /// reopening is done) and move on; the result is the file operation to
    /// perform before the next action, if any.
    pub fn answer(&mut self, exists: bool) -> (r: Option<RotationAction>)
        ensures
            ({
                let (p, b, op) = spec_rotation_step(
                    old(self).spec_phase(),
                    old(self).spec_backup(),
                    old(self).spec_max_files(),
                    exists,
                );
                &&& final(self).spec_phase() == p
                &&& final(self).spec_backup() == b
                &&& final(self).spec_max_files() == old(self).spec_max_files()
                &&& final(self).spec_file_path() == old(self).spec_file_path()
                &&& action_performs(old(self).spec_file_path(), op, r)
            }),
    {
        proof {
            use_type_invariant(&*self);
        }
        let max = self.max_files;
        match self.phase {
            RotationPhase::Probe { num } => {
                if exists {
                    if num + 1 > max {
                        self.backup = num;
                        self.phase = RotationPhase::CheckCurrent;
                    } else {
                        self.backup = num;
                        self.phase = RotationPhase::Probe { num: num + 1 };
                    }
                } else {
                    self.phase = RotationPhase::CheckCurrent;
                }
                None
            },
            RotationPhase::CheckCurrent => {
                let next = if max >= 2 {
                    RotationPhase::Shift { i: max - 1 }
                } else if max > 0 {
                    RotationPhase::Prune { i: max + 1 }
                } else {
                    RotationPhase::Reopen
                };
                let op = if exists {
                    let from = self.file_path.clone();
                    let to = self.path_at(self.backup);
                    Some(RotationAction::Rename { from, to })
                } else {
                    None
                };
                self.phase = next;
                op
            },
            RotationPhase::Shift { i } => {
                let op = if exists {
                    let from = self.path_at(i);
                    let to = self.path_at(i + 1);
                    Some(RotationAction::Rename { from, to })
                } else {
                    None
                };
                self.phase = if i > 1 {
                    RotationPhase::Shift { i: i - 1 }
                } else if max > 0 {
                    RotationPhase::Prune { i: max + 1 }
                } else {
                    RotationPhase::Reopen
                };
                op
            },
            RotationPhase::Prune { i } => {
                let op = if exists {
                    Some(RotationAction::Remove(self.path_at(i)))
                } else {
                    None
                };
                self.phase = if i < max + 10 {
                    RotationPhase::Prune { i: i + 1 }
                } else {
                    RotationPhase::Reopen
                };
                op
            },
            RotationPhase::Reopen => {
                self.phase = RotationPhase::Finished;
                None
            },
            RotationPhase::Finished => None,
        }
    }
}

/// Every step of an unfinished rotation makes what is left smaller, so a
/// rotation always finishes; and its operations only move the log file to
/// the chosen backup, shift a kept backup up by one, or remove a backup
/// beyond the kept ones.
pub proof fn lemma_rotation_progress(p: RotationPhase, backup: usize, max_files: usize, exists: bool)
    requires
        phase_ok(p, backup, max_files),
        !(p is Finished),
    ensures
        ({
            let (q, b, op) = spec_rotation_step(p, backup, max_files, exists);
            &&& phase_ok(q, b, max_files)
            &&& rotation_measure(q, max_files) < rotation_measure(p, max_files)
            &&& (op matches Some(o) ==> (
                (o.rename && o.from == 0 && o.to == backup && p is CheckCurrent)
                || (o.rename && 1 <= o.from < max_files && o.to == o.from + 1)
                || (!o.rename && max_files < o.from <= max_files + 10)
            ))
        }),
{
}

} // verus!
