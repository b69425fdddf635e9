//! Boot-time save classification and the session rules of persistence.
//!
//! The flash-image format, validation and slot rotation belong to the save
//! store; this module owns the session-level rules: boot classification, save
//! lineage, overwrite consent, and protection against concurrent stale writes.
//!
//! An unreadable image maps to the no-flash status, not the corrupt one. The
//! game refuses to write after that status, so [`SaveSlot`] disables saving
//! for the rest of the session instead of risking an unreadable file.
use vstd::prelude::*;

verus! {

/// The status the save store reports for the newest readable slot.
#[derive(Debug, Clone, Copy, PartialEq, Eq, Structural)]
pub enum SaveStatus {
    /// No save has ever been written.
    Empty,
    /// The newest slot is intact.
    Intact,
    /// Every slot is damaged.
    Corrupt,
    /// A usable slot exists, but another is damaged.
    Error,
}

/// The save status used to choose the boot menu.
#[derive(Debug, Clone, Copy, PartialEq, Eq, Structural)]
pub enum SaveFileStatus {
    /// No save exists.
    Empty,
    /// The save loaded intact.
    Intact,
    /// The save is unusable.
    Corrupt,
    /// The save loaded, with damage elsewhere in the image.
    Error,
    /// The save medium could not be read at all.
    NoFlash,
}

/// The boot status a store status maps to.
pub open spec fn spec_from_store(status: SaveStatus) -> SaveFileStatus {
    match status {
        SaveStatus::Empty => SaveFileStatus::Empty,
        SaveStatus::Intact => SaveFileStatus::Intact,
        SaveStatus::Corrupt => SaveFileStatus::Corrupt,
        SaveStatus::Error => SaveFileStatus::Error,
    }
}

/// Whether the main menu offers `CONTINUE` for a status.
pub open spec fn shows_continue(status: SaveFileStatus) -> bool {
    status == SaveFileStatus::Intact || status == SaveFileStatus::Error
}

impl SaveFileStatus {
    /// The boot status for a status the save store reported.
    pub fn from_store(status: SaveStatus) -> (r: Self)
        ensures
            r == spec_from_store(status),
    {
        match status {
            SaveStatus::Empty => SaveFileStatus::Empty,
            SaveStatus::Intact => SaveFileStatus::Intact,
            SaveStatus::Corrupt => SaveFileStatus::Corrupt,
            SaveStatus::Error => SaveFileStatus::Error,
        }
    }

    /// Whether the main menu offers `CONTINUE` for this status.
    pub fn menu_shows_continue(self) -> (r: bool)
        ensures
            r == shows_continue(self),
    {
        match self {
            SaveFileStatus::Intact | SaveFileStatus::Error => true,
            SaveFileStatus::Empty | SaveFileStatus::Corrupt | SaveFileStatus::NoFlash => false,
        }
    }
}

/// The result of a write that can be refused without an I/O error.
#[derive(Debug, Clone, Copy, PartialEq, Eq, Structural)]
pub enum StoreOutcome {
    /// The blocks were written.
    Written,
    /// A continuable save appeared before the player consented to replacing
    /// it. The file is unchanged.
    RefusedExistingSave,
    /// Another process persisted newer progress after this session loaded.
    /// The file is unchanged.
    RefusedStaleSession,
}

/// The source of unmodelled bytes retained when serializing a save.
///
/// Unmodelled bytes are retained in the disk image rather than live RAM.
/// New-game writes must therefore clear that base on every attempt, while a
/// continued session carries its loaded base forward.
#[derive(Debug, Clone, Copy, PartialEq, Eq, Structural)]
pub enum SaveLineage {
    /// The session started a new adventure and retains no previous save data.
    NewGame,
    /// The session continued the loaded adventure and retains its deferred
    /// bytes.
    Continued,
}

impl SaveLineage {
    /// Whether a write of this lineage discards the retained base bytes.
    pub fn clears_base(self) -> (r: bool)
        ensures
            r == (self == SaveLineage::NewGame),
    {
        match self {
            SaveLineage::NewGame => true,
            SaveLineage::Continued => false,
        }
    }
}

/// Half the range of the 32-bit save counter.
pub const SERIAL_COUNTER_HALF_RANGE: u32 = 0x8000_0000;

/// How far `candidate` lies ahead of `baseline`, counting forward modulo 2^32.
pub open spec fn serial_distance(baseline: u32, candidate: u32) -> int {
    if candidate >= baseline {
        candidate - baseline
    } else {
        candidate - baseline + 0x1_0000_0000
    }
}

/// Whether `candidate` is unambiguously ahead of `baseline` in serial-number
/// arithmetic.
pub open spec fn spec_counter_is_ahead(baseline: u32, candidate: u32) -> bool {
    0 < serial_distance(baseline, candidate) < 0x8000_0000
}

/// Whether `candidate` is unambiguously ahead of `baseline` in serial-number
/// arithmetic. Equal and exactly antipodal counters are not ordered.
pub fn counter_is_ahead(baseline: u32, candidate: u32) -> (r: bool)
    ensures
        r == spec_counter_is_ahead(baseline, candidate),
{
    candidate != baseline && candidate.wrapping_sub(baseline) < SERIAL_COUNTER_HALF_RANGE
}

/// What the boot read of the save file produced.
pub enum BootRead<B> {
    /// Saving is disabled: there is no file to read.
    NoFile,
    /// The file could not be read.
    ReadFailed,
    /// The file was read (an absent file reads as a fresh, empty store) and
    /// its newest slot loaded with `status`; `counter` and `base` are the
    /// store's save counter and retained base bytes.
    Loaded { status: SaveStatus, counter: u32, base: B },
}

/// The on-disk state a write found under its lock.
#[derive(Debug, Clone, Copy, PartialEq, Eq, Structural)]
pub struct DiskState {
    /// The status of the disk's newest slot.
    pub status: SaveStatus,
    /// The disk's save counter.
    pub counter: u32,
}

/// What a write does once it has read the disk under its lock.
#[derive(Debug, Clone, Copy, PartialEq, Eq, Structural)]
pub enum StoreDecision {
    /// Leave the file unchanged and report this outcome.
    Refuse(StoreOutcome),
    /// Write the blocks.
    Write {
        /// Put this session's retained base bytes back into the store first.
        restore_session_base: bool,
        /// Discard the store's retained base bytes first.
        clear_base: bool,
    },
}

/// The per-user save location and what this session knows about it.
///
/// `F` is the save file handle and `B` the retained base bytes of a store.
pub struct SaveSlot<F, B> {
    file: Option<F>,
    session_counter: Option<u32>,
    session_base: Option<B>,
    session_status: Option<SaveFileStatus>,
}

/// The decision a write makes, given what this session loaded and what the
/// disk holds now.
pub open spec fn spec_store_decision(
    session_counter: Option<u32>,
    has_session_base: bool,
    disk: DiskState,
    refuse_foreign: bool,
    lineage: SaveLineage,
) -> StoreDecision {
    let disk_continues = shows_continue(spec_from_store(disk.status));
    let clear_base = lineage == SaveLineage::NewGame;
    if session_counter is Some && spec_counter_is_ahead(session_counter->0, disk.counter)
        && disk_continues {
        StoreDecision::Refuse(StoreOutcome::RefusedStaleSession)
    } else if refuse_foreign && disk_continues {
        StoreDecision::Refuse(StoreOutcome::RefusedExistingSave)
    } else {
        StoreDecision::Write {
            restore_session_base: !clear_base && session_counter is Some && has_session_base
                && spec_counter_is_ahead(disk.counter, session_counter->0),
            clear_base,
        }
    }
}

/// Why a write could not be attempted at all.
#[derive(Debug, Clone, Copy, PartialEq, Eq, Structural)]
pub enum SaveSlotError {
    /// Saving is disabled: there is no data directory, or the boot read
    /// failed and the file must not be overwritten.
    NoDataDirectory,
}

impl<F, B> SaveSlot<F, B> {
    /// The file handle, if saving is enabled.
    pub closed spec fn spec_file(&self) -> Option<F> {
        self.file
    }

    /// The save counter this session last loaded or wrote.
    pub closed spec fn spec_session_counter(&self) -> Option<u32> {
        self.session_counter
    }

    /// The retained base bytes this session last loaded or wrote.
    pub closed spec fn spec_session_base(&self) -> Option<B> {
        self.session_base
    }

    /// The boot load's status, once there has been one.
    pub closed spec fn spec_session_status(&self) -> Option<SaveFileStatus> {
        self.session_status
    }

    /// A slot with saving disabled.
    pub fn disabled() -> (r: Self)
        ensures
            r.spec_file() is None,
            r.spec_session_counter() is None,
            r.spec_session_base() is None,
            r.spec_session_status() is None,
    {
        SaveSlot { file: None, session_counter: None, session_base: None, session_status: None }
    }

    /// A slot saving to `file`, with nothing loaded yet.
    pub fn at(file: F) -> (r: Self)
        ensures
            r.spec_file() == Some(file),
            r.spec_session_counter() is None,
            r.spec_session_base() is None,
            r.spec_session_status() is None,
    {
        SaveSlot {
            file: Some(file),
            session_counter: None,
            session_base: None,
            session_status: None,
        }
    }

    /// The file handle, if saving is enabled.
    pub fn file(&self) -> (r: Option<&F>)
        ensures
            r matches Some(f) ==> self.spec_file() == Some(*f),
            r is None <==> self.spec_file() is None,
    {
        match &self.file {
            Some(f) => Some(f),
            None => None,
        }
    }

    /// The file a write goes to.
    ///
    /// # Errors
    ///
    /// [`SaveSlotError::NoDataDirectory`] exactly when saving is disabled,
    /// before anything is locked, read or written.
    pub fn store_file(&self) -> (r: Result<&F, SaveSlotError>)
        ensures
            r matches Ok(f) ==> self.spec_file() == Some(*f),
            r matches Err(e) ==> e == SaveSlotError::NoDataDirectory,
            r is Err <==> self.spec_file() is None,
    {
        match &self.file {
            Some(f) => Ok(f),
            None => Err(SaveSlotError::NoDataDirectory),
        }
    }

    /// The retained base bytes this session carries.
    pub fn session_base(&self) -> (r: Option<&B>)
        ensures
            r matches Some(b) ==> self.spec_session_base() == Some(*b),
            r is None <==> self.spec_session_base() is None,
    {
        match &self.session_base {
            Some(b) => Some(b),
            None => None,
        }
    }

    /// Returns the boot load's status, or [`SaveFileStatus::Empty`] before the
    /// first load.
    pub fn boot_status(&self) -> (r: SaveFileStatus)
        ensures
            r == match self.spec_session_status() {
                Some(s) => s,
                None => SaveFileStatus::Empty,
            },
    {
        match self.session_status {
            Some(s) => s,
            None => SaveFileStatus::Empty,
        }
    }

    /// Records the boot read of the save and returns the boot status.
    ///
    /// A slot with no file, or whose read fails, loads as
    /// [`SaveFileStatus::NoFlash`]; a failed read also disables saving for
    /// the rest of the session, since boot must not overwrite a file it could
    /// not read.
    pub fn load(&mut self, read: BootRead<B>) -> (r: SaveFileStatus)
        ensures
            final(self).spec_session_status() == Some(r),
            match read {
                BootRead::NoFile => {
                    &&& r == SaveFileStatus::NoFlash
                    &&& final(self).spec_file() == old(self).spec_file()
                    &&& final(self).spec_session_counter() == old(self).spec_session_counter()
                    &&& final(self).spec_session_base() == old(self).spec_session_base()
                },
                BootRead::ReadFailed => {
                    &&& r == SaveFileStatus::NoFlash
                    &&& final(self).spec_file() is None
                    &&& final(self).spec_session_counter() == old(self).spec_session_counter()
                    &&& final(self).spec_session_base() == old(self).spec_session_base()
                },
                BootRead::Loaded { status, counter, base } => {
                    &&& r == spec_from_store(status)
                    &&& final(self).spec_file() == old(self).spec_file()
                    &&& final(self).spec_session_counter() == Some(counter)
                    &&& final(self).spec_session_base() == Some(base)
                },
            },
    {
        match read {
            BootRead::NoFile => {
                self.session_status = Some(SaveFileStatus::NoFlash);
                SaveFileStatus::NoFlash
            },
            BootRead::ReadFailed => {
                self.file = None;
                self.session_status = Some(SaveFileStatus::NoFlash);
                SaveFileStatus::NoFlash
            },
            BootRead::Loaded { status, counter, base } => {
                self.session_counter = Some(counter);
                self.session_base = Some(base);
                let status = SaveFileStatus::from_store(status);
                self.session_status = Some(status);
                status
            },
        }
    }

    /// Decides a write against the disk state read under the write's lock.
    ///
    /// The write is refused when the disk holds continuable progress newer
    /// than this session loaded, and, for `refuse_foreign`, when the disk
    /// holds any continuable save. A continued session puts its own retained
    /// bytes back when the disk is behind it; a new game clears them.
    pub fn store_decision(&self, disk: DiskState, refuse_foreign: bool, lineage: SaveLineage) -> (r:
        StoreDecision)
        ensures
            r == spec_store_decision(
                self.spec_session_counter(),
                self.spec_session_base() is Some,
                disk,
                refuse_foreign,
                lineage,
            ),
    {
        let clear_base = lineage.clears_base();
        let disk_continues = SaveFileStatus::from_store(disk.status).menu_shows_continue();
        if let Some(session_counter) = self.session_counter {
            if counter_is_ahead(session_counter, disk.counter) && disk_continues {
                return StoreDecision::Refuse(StoreOutcome::RefusedStaleSession);
            }
        }
        let mut restore_session_base = false;
        if !clear_base {
            if let Some(session_counter) = self.session_counter {
                if self.session_base.is_some() && counter_is_ahead(disk.counter, session_counter) {
                    restore_session_base = true;
                }
            }
        }
        if refuse_foreign && disk_continues {
            return StoreDecision::Refuse(StoreOutcome::RefusedExistingSave);
        }
        StoreDecision::Write { restore_session_base, clear_base }
    }

    /// Records a completed write: the session now carries the written
    /// store's counter and base bytes.
    pub fn record_written(&mut self, counter: u32, base: B)
        ensures
            final(self).spec_file() == old(self).spec_file(),
            final(self).spec_session_counter() == Some(counter),
            final(self).spec_session_base() == Some(base),
            final(self).spec_session_status() == old(self).spec_session_status(),
    {
        self.session_counter = Some(counter);
        self.session_base = Some(base);
    }
}

/// A session never writes over continuable progress saved after its own
/// load: when the disk's counter is ahead of the session's and the disk
/// offers `CONTINUE`, every write is refused as stale.
pub proof fn lemma_stale_session_never_writes(
    session_counter: u32,
    has_session_base: bool,
    disk: DiskState,
    refuse_foreign: bool,
    lineage: SaveLineage,
)
    requires
        spec_counter_is_ahead(session_counter, disk.counter),
        shows_continue(spec_from_store(disk.status)),
    ensures
        spec_store_decision(Some(session_counter), has_session_base, disk, refuse_foreign, lineage)
            == StoreDecision::Refuse(StoreOutcome::RefusedStaleSession),
{
}

/// A write that needs the player's consent never replaces a continuable save.
pub proof fn lemma_consent_protects_a_continuable_save(
    session_counter: Option<u32>,
    has_session_base: bool,
    disk: DiskState,
    lineage: SaveLineage,
)
    requires
        shows_continue(spec_from_store(disk.status)),
    ensures
        spec_store_decision(session_counter, has_session_base, disk, true, lineage) is Refuse,
{
}

/// A new game's write always clears the retained base and never restores the
/// session's; a continued session's write never clears it.
pub proof fn lemma_lineage_decides_the_base(
    session_counter: Option<u32>,
    has_session_base: bool,
    disk: DiskState,
    refuse_foreign: bool,
    lineage: SaveLineage,
)
    ensures
        ({
            let d = spec_store_decision(session_counter, has_session_base, disk, refuse_foreign, lineage);
            &&& (d matches StoreDecision::Write { restore_session_base, clear_base }
                ==> clear_base == (lineage == SaveLineage::NewGame)
                    && (clear_base ==> !restore_session_base))
        }),
{
}

/// A counter is never ahead of itself, two counters are never each ahead of
/// the other, and antipodal counters are ordered in neither direction; any
/// other pair of distinct counters is ordered one way or the other.
pub proof fn lemma_counter_order(a: u32, b: u32)
    ensures
        !spec_counter_is_ahead(a, a),
        spec_counter_is_ahead(a, b) ==> !spec_counter_is_ahead(b, a),
        serial_distance(a, b) == 0x8000_0000 ==> !spec_counter_is_ahead(a, b)
            && !spec_counter_is_ahead(b, a),
        a != b && serial_distance(a, b) != 0x8000_0000 ==> spec_counter_is_ahead(a, b)
            || spec_counter_is_ahead(b, a),
{
}

/// Shifting both counters by the same amount, wrapping, keeps their order.
pub proof fn lemma_counter_order_is_shift_invariant(a: u32, b: u32, k: u32)
    ensures
        spec_counter_is_ahead(
            vstd::wrapping::u32_specs::wrapping_add(a, k),
            vstd::wrapping::u32_specs::wrapping_add(b, k),
        ) == spec_counter_is_ahead(a, b),
{
}

/// A counter is ahead of another exactly when it is reached from it by
/// counting forward fewer than half the counter's range of saves, wrapping:
/// `k` saves after `a` (for `0 < k < 2^31`) is ahead of `a`, and nothing
/// else is.
pub proof fn lemma_counter_ahead_is_a_short_forward_count(a: u32, k: u32)
    ensures
        spec_counter_is_ahead(a, vstd::wrapping::u32_specs::wrapping_add(a, k)) <==> 0 < k
            < 0x8000_0000,
{
}

/// Being ahead chains over a short span: if `b` is ahead of `a`, `c` ahead
/// of `b`, and `c` is fewer than half the range of saves after `a`, then `c`
/// is ahead of `a`.
pub proof fn lemma_counter_ahead_chains(a: u32, b: u32, c: u32)
    requires
        spec_counter_is_ahead(a, b),
        spec_counter_is_ahead(b, c),
        serial_distance(a, c) < 0x8000_0000,
    ensures
        spec_counter_is_ahead(a, c),
{
}

} // verus!
