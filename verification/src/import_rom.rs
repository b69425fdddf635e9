//! `--import-rom`: the decisions that turn the player's own ROM into the
//! runtime asset pack without a half-written file ever being visible.
//!
//! The importer reads the cartridge and assembles the pack. This module
//! decides *where* the pack goes and drives how it gets there, one file
//! operation at a time: [`ImportRun::step`] takes what the last operation
//! did and answers with the next one, so the filesystem work itself stays
//! with the caller while every ordering, refusal and clean-up rule is here.
//!
//! # The order of operations
//!
//! The ROM is opened once, before anything else looks at it. The destination
//! is split into its directory and the file name published inside it; a
//! destination that names no file is refused before anything is created.
//! The directory is created if missing and then pinned open, and the pinned
//! name is compared with the open ROM, so a destination that *is* the ROM is
//! refused before a pack is built. The pack is built in a temporary file
//! created exclusively beside it, written and synced, and only then renamed
//! onto the destination.
//!
//! Every path and name here is the platform's own encoded bytes, end to end:
//! the file published is the one the player's path spells, byte for byte,
//! even when that path is not UTF-8. Only messages show a path as text.
//!
//! # Failing without litter
//!
//! A failure after the temporary file exists removes it; a failure after
//! this run created the destination directory removes that directory again
//! (non-recursively, so only an empty one this run made). A failed import
//! therefore leaves the previous pack intact and no temporary file behind.
use vstd::prelude::*;
use crate::import_error::{copy_bytes, utf8_lossy, std_utf8_lossy, ImportRomError, ImportRomErrorView};
use crate::pack_path::{
    opt_bytes, pack_directory, pack_name, spec_pack_directory, spec_pack_name, PackPath,
};

verus! {

/// What a successful import produced.
#[derive(Debug, PartialEq, Eq)]
pub struct ImportOutcome {
    /// Where the pack was written, in the platform's encoding.
    pack_path: Vec<u8>,
    /// How many entries it holds.
    entry_count: usize,
    /// How large it is, in bytes.
    pack_bytes: usize,
}

/// What an [`ImportOutcome`] says.
pub struct ImportOutcomeView {
    pub pack_path: Seq<u8>,
    pub entry_count: usize,
    pub pack_bytes: usize,
}

impl View for ImportOutcome {
    type V = ImportOutcomeView;

    closed spec fn view(&self) -> ImportOutcomeView {
        ImportOutcomeView {
            pack_path: self.pack_path@,
            entry_count: self.entry_count,
            pack_bytes: self.pack_bytes,
        }
    }
}

/// The decimal digits of `n`, most significant first.
pub open spec fn spec_decimal(n: nat) -> Seq<char>
    decreases n,
{
    if n < 10 {
        seq![(48 + n) as char]
    } else {
        spec_decimal(n / 10) + seq![(48 + n % 10) as char]
    }
}

/// The one decimal digit `d`.
fn digit(d: usize) -> (r: &'static str)
    requires
        d < 10,
    ensures
        r@ == seq![(48 + d) as char],
{
    proof {
        reveal_strlit("0");
        reveal_strlit("1");
        reveal_strlit("2");
        reveal_strlit("3");
        reveal_strlit("4");
        reveal_strlit("5");
        reveal_strlit("6");
        reveal_strlit("7");
        reveal_strlit("8");
        reveal_strlit("9");
    }
    match d {
        0 => "0",
        1 => "1",
        2 => "2",
        3 => "3",
        4 => "4",
        5 => "5",
        6 => "6",
        7 => "7",
        8 => "8",
        _ => "9",
    }
}

/// `n` in decimal, with no sign or padding, as `usize`'s `Display` writes it.
fn decimal(n: usize) -> (r: String)
    ensures
        r@ == spec_decimal(n as nat),
    decreases n,
{
    if n < 10 {
        String::from_str(digit(n))
    } else {
        let mut r = decimal(n / 10);
        r.append(digit(n % 10));
        r
    }
}

/// The lower-case hexadecimal digits of `n`, most significant first.
pub open spec fn spec_hex(n: nat) -> Seq<char>
    decreases n,
{
    if n < 16 {
        seq![hex_digit(n)]
    } else {
        spec_hex(n / 16) + seq![hex_digit(n % 16)]
    }
}

/// The lower-case hexadecimal digit for `d` below 16.
pub open spec fn hex_digit(d: nat) -> char {
    if d < 10 {
        (48 + d) as char
    } else {
        (87 + d) as char
    }
}

/// The one hexadecimal digit `d`.
fn hex_digit_str(d: u128) -> (r: &'static str)
    requires
        d < 16,
    ensures
        r@ == seq![hex_digit(d as nat)],
{
    if d < 10 {
        return digit(d as usize);
    }
    proof {
        reveal_strlit("a");
        reveal_strlit("b");
        reveal_strlit("c");
        reveal_strlit("d");
        reveal_strlit("e");
        reveal_strlit("f");
    }
    match d {
        10 => "a",
        11 => "b",
        12 => "c",
        13 => "d",
        14 => "e",
        _ => "f",
    }
}

/// `n` in lower-case hexadecimal, with no prefix or padding, as the `{:x}`
/// format writes it.
fn hex(n: u128) -> (r: String)
    ensures
        r@ == spec_hex(n as nat),
    decreases n,
{
    if n < 16 {
        String::from_str(hex_digit_str(n))
    } else {
        let mut r = hex(n / 16);
        r.append(hex_digit_str(n % 16));
        r
    }
}

/// The fixed leading part of every temporary pack name. The dot keeps the
/// file out of a casual directory listing while it exists; the rest says
/// who left it there.
pub const TEMP_PREFIX: &'static str = ".pokeemerald-rs-import";

/// The temporary pack name made of a process id, the clock's nanoseconds, a
/// per-destination counter and a random salt.
pub open spec fn spec_temp_name(pid: u32, nanos: u128, sequence: u64, salt: u64) -> Seq<char> {
    TEMP_PREFIX@ + "."@ + spec_decimal(pid as nat) + "."@ + spec_hex(nanos as nat) + "."@
        + spec_hex(sequence as nat) + "."@ + spec_hex(salt as nat) + ".tmp"@
}

/// Whether a character is a decimal or lower-case hexadecimal digit.
pub open spec fn is_digit_char(c: char) -> bool {
    ('0' <= c <= '9') || ('a' <= c <= 'f')
}

proof fn lemma_decimal_is_digits(n: nat)
    ensures
        forall|i: int| 0 <= i < spec_decimal(n).len() ==> is_digit_char(#[trigger] spec_decimal(n)[i]),
    decreases n,
{
    if n >= 10 {
        lemma_decimal_is_digits(n / 10);
        let s = spec_decimal(n);
        let head = spec_decimal(n / 10);
        assert forall|i: int| 0 <= i < s.len() implies is_digit_char(#[trigger] s[i]) by {
            if i < head.len() {
                assert(s[i] == head[i]);
            }
        }
    }
}

proof fn lemma_hex_is_digits(n: nat)
    ensures
        forall|i: int| 0 <= i < spec_hex(n).len() ==> is_digit_char(#[trigger] spec_hex(n)[i]),
    decreases n,
{
    if n >= 16 {
        lemma_hex_is_digits(n / 16);
        let s = spec_hex(n);
        let head = spec_hex(n / 16);
        assert forall|i: int| 0 <= i < s.len() implies is_digit_char(#[trigger] s[i]) by {
            if i < head.len() {
                assert(s[i] == head[i]);
            }
        }
    }
}

/// `base` raised to the power `k`.
pub open spec fn power(base: nat, k: nat) -> nat
    decreases k,
{
    if k == 0 {
        1
    } else {
        base * power(base, (k - 1) as nat)
    }
}

/// A number below `10^k` has at most `k` decimal digits.
proof fn lemma_decimal_len(n: nat, k: nat)
    requires
        k >= 1,
        n < power(10, k),
    ensures
        spec_decimal(n).len() <= k,
    decreases n,
{
    if n >= 10 {
        if k == 1 {
            assert(power(10, 1) == 10 * power(10, 0));
        } else {
            let p = power(10, (k - 1) as nat);
            assert(n / 10 < p) by (nonlinear_arith)
                requires
                    n < 10 * p,
            ;
            lemma_decimal_len(n / 10, (k - 1) as nat);
        }
    }
}

/// A number below `16^k` has at most `k` hexadecimal digits.
proof fn lemma_hex_len(n: nat, k: nat)
    requires
        k >= 1,
        n < power(16, k),
    ensures
        spec_hex(n).len() <= k,
    decreases n,
{
    if n >= 16 {
        if k == 1 {
            assert(power(16, 1) == 16 * power(16, 0));
        } else {
            let p = power(16, (k - 1) as nat);
            assert(n / 16 < p) by (nonlinear_arith)
                requires
                    n < 16 * p,
            ;
            lemma_hex_len(n / 16, (k - 1) as nat);
        }
    }
}

/// The longest a temporary pack name can be: the prefix, five dots, the
/// `tmp` suffix, ten decimal digits of a process id, and 32, 16 and 16
/// hexadecimal digits of the clock, the counter and the salt.
pub const TEMP_NAME_MAX_LEN: usize = 104;

/// The name of the temporary file a pack is built in, beside the pack.
///
/// The file is created exclusively, so the name only has to be one nothing
/// else already holds: no pre-created name matches the clock's nanoseconds,
/// the counter and the salt together. The pack's own name is deliberately
/// not in it, which keeps the name bounded whatever the pack is called, and
/// it never holds a separator, so it is a basename inside the pinned
/// directory.
pub fn temp_name(pid: u32, nanos: u128, sequence: u64, salt: u64) -> (r: String)
    ensures
        r@ == spec_temp_name(pid, nanos, sequence, salt),
        forall|i: int| 0 <= i < r@.len() ==> #[trigger] r@[i] != '/' && r@[i] != '\\',
        r@.len() <= TEMP_NAME_MAX_LEN,
{
    proof {
        reveal_with_fuel(power, 33);
        assert(power(10, 10) == 10_000_000_000nat);
        assert(power(16, 16) == 0x1_0000_0000_0000_0000nat);
        assert(power(16, 32) == 0x1_0000_0000_0000_0000_0000_0000_0000_0000nat);
        lemma_decimal_len(pid as nat, 10);
        lemma_hex_len(nanos as nat, 32);
        lemma_hex_len(sequence as nat, 16);
        lemma_hex_len(salt as nat, 16);
        reveal_strlit(".pokeemerald-rs-import");
        reveal_strlit(".");
        reveal_strlit(".tmp");
        lemma_decimal_is_digits(pid as nat);
        lemma_hex_is_digits(nanos as nat);
        lemma_hex_is_digits(sequence as nat);
        lemma_hex_is_digits(salt as nat);
    }
    let mut name = String::from_str(TEMP_PREFIX);
    name.append(".");
    name.append(decimal(pid as usize).as_str());
    name.append(".");
    name.append(hex(nanos).as_str());
    name.append(".");
    name.append(hex(sequence as u128).as_str());
    name.append(".");
    name.append(hex(salt as u128).as_str());
    name.append(".tmp");
    name
}

impl Clone for ImportOutcome {
    fn clone(&self) -> (r: Self)
        ensures
            r@ == self@,
    {
        ImportOutcome {
            pack_path: copy_bytes(&self.pack_path),
            entry_count: self.entry_count,
            pack_bytes: self.pack_bytes,
        }
    }
}

impl ImportOutcome {
    /// The outcome of a pack of `entry_count` entries and `pack_bytes` bytes
    /// published at `pack_path`.
    pub fn new(pack_path: Vec<u8>, entry_count: usize, pack_bytes: usize) -> (r: Self)
        ensures
            r@ == (ImportOutcomeView { pack_path: pack_path@, entry_count, pack_bytes }),
    {
        ImportOutcome { pack_path, entry_count, pack_bytes }
    }

    /// Where the pack was written, in the platform's encoding.
    pub fn pack_path(&self) -> (r: &[u8])
        ensures
            r@ == self@.pack_path,
    {
        self.pack_path.as_slice()
    }

    /// How many entries the pack holds.
    pub fn entry_count(&self) -> (r: usize)
        ensures
            r == self@.entry_count,
    {
        self.entry_count
    }

    /// How large the pack is, in bytes.
    pub fn pack_bytes(&self) -> (r: usize)
        ensures
            r == self@.pack_bytes,
    {
        self.pack_bytes
    }

    /// The exact one-line summary the binary prints on success.
    pub fn summary(&self) -> (r: String)
        ensures
            r@ == "imported "@ + spec_decimal(self@.entry_count as nat) + " entries ("@
                + spec_decimal(self@.pack_bytes as nat) + " bytes) to "@ + std_utf8_lossy(
                self@.pack_path,
            ),
    {
        let mut m = String::from_str("imported ");
        let entries = decimal(self.entry_count);
        m.append(entries.as_str());
        m.append(" entries (");
        let bytes = decimal(self.pack_bytes);
        m.append(bytes.as_str());
        m.append(" bytes) to ");
        let shown = utf8_lossy(self.pack_path.as_slice());
        m.append(shown.as_str());
        m
    }
}

/// The view of an import's result.
pub open spec fn result_view(r: Result<ImportOutcome, ImportRomError>) -> Result<
    ImportOutcomeView,
    ImportRomErrorView,
> {
    match r {
        Ok(o) => Ok(o@),
        Err(e) => Err(e@),
    }
}

/// The pack's destination for this run: an explicit, non-empty
/// `$POKEEMERALD_PACK` wins outright, otherwise the OS user-data pack path.
pub open spec fn spec_destination(env_pack_path: Option<PackPath>, user_pack_path: Option<
    PackPath,
>) -> Option<PackPath> {
    match env_pack_path {
        Some(p) if p.bytes@.len() > 0 => Some(p),
        _ => user_pack_path,
    }
}

/// Whether an explicit pack path is set and non-empty.
pub open spec fn names_a_pack(pack_path: Option<PackPath>) -> bool {
    pack_path is Some && pack_path->0.bytes@.len() > 0
}

/// A non-empty explicit pack path is the destination whatever the user-data
/// path is; an unset or empty one leaves the user-data path, and there is no
/// destination only when both are missing.
pub proof fn lemma_an_explicit_pack_path_wins(
    env_pack_path: Option<PackPath>,
    user_pack_path: Option<PackPath>,
)
    ensures
        names_a_pack(env_pack_path) ==> spec_destination(env_pack_path, user_pack_path)
            == env_pack_path,
        !names_a_pack(env_pack_path) ==> spec_destination(env_pack_path, user_pack_path)
            == user_pack_path,
        spec_destination(env_pack_path, user_pack_path) is None <==> user_pack_path is None
            && !names_a_pack(env_pack_path),
{
}

/// The pack's destination, from the value of `$POKEEMERALD_PACK` and the OS
/// user-data pack path, either of which may be unavailable.
///
/// # Errors
///
/// [`ImportRomError::NoDestination`] when neither names a path.
pub fn destination(env_pack_path: Option<PackPath>, user_pack_path: Option<PackPath>) -> (r:
    Result<PackPath, ImportRomError>)
    ensures
        names_a_pack(env_pack_path) ==> r == Ok::<PackPath, ImportRomError>(env_pack_path->0),
        !names_a_pack(env_pack_path) ==> match user_pack_path {
            Some(u) => r == Ok::<PackPath, ImportRomError>(u),
            None => r matches Err(e) && e@ == ImportRomErrorView::NoDestination,
        },
        match r {
            Ok(p) => spec_destination(env_pack_path, user_pack_path) == Some(p),
            Err(e) => e@ == ImportRomErrorView::NoDestination && spec_destination(
                env_pack_path,
                user_pack_path,
            ) is None,
        },
{
    if let Some(value) = env_pack_path {
        if value.bytes.len() > 0 {
            return Ok(value);
        }
    }
    match user_pack_path {
        Some(p) => Ok(p),
        None => Err(ImportRomError::NoDestination),
    }
}

/// The next file operation an import asks its caller to perform. Every path
/// and name is in the platform's encoding.
#[derive(Debug, PartialEq, Eq)]
pub enum ImportAction {
    /// Open the ROM at `path` for reading; answer [`ImportEvent::Done`] or
    /// [`ImportEvent::RomOpenFailed`].
    OpenRom { path: Vec<u8> },
    /// Note whether `dir` already is a directory, then create it and its
    /// parents; answer [`ImportEvent::DirectoryReady`] or
    /// [`ImportEvent::Failed`].
    CreateDirectory { dir: Vec<u8> },
    /// Open `dir` and hold it for the rest of the import; answer
    /// [`ImportEvent::Done`] or [`ImportEvent::Failed`].
    OpenDirectory { dir: Vec<u8> },
    /// Ask whether `name` inside the pinned directory is the open ROM;
    /// answer [`ImportEvent::SameFile`].
    CheckSameFile { name: Vec<u8> },
    /// Pick a fresh temporary name and create it exclusively inside the
    /// pinned directory; answer [`ImportEvent::TempCreated`] or
    /// [`ImportEvent::TempFailed`].
    CreateTemp,
    /// Build the pack from the open ROM; answer [`ImportEvent::Imported`] or
    /// [`ImportEvent::ImportFailed`].
    RunImport,
    /// Write the built pack into the temporary file, flush and sync it;
    /// answer [`ImportEvent::Done`] or [`ImportEvent::Failed`].
    WriteTemp,
    /// Close the temporary file, then rename `from` onto `to` inside the
    /// pinned directory and sync the directory; answer [`ImportEvent::Done`]
    /// or [`ImportEvent::Failed`].
    Publish { from: Vec<u8>, to: Vec<u8> },
    /// Close and remove the temporary file `name`; any answer.
    DiscardTemp { name: Vec<u8> },
    /// Remove the directory `dir` if it is empty; any answer.
    RemoveDirectory { dir: Vec<u8> },
    /// The import is over.
    Finish(Result<ImportOutcome, ImportRomError>),
}

/// What an [`ImportAction`] asks for.
pub enum ImportActionView {
    OpenRom { path: Seq<u8> },
    CreateDirectory { dir: Seq<u8> },
    OpenDirectory { dir: Seq<u8> },
    CheckSameFile { name: Seq<u8> },
    CreateTemp,
    RunImport,
    WriteTemp,
    Publish { from: Seq<u8>, to: Seq<u8> },
    DiscardTemp { name: Seq<u8> },
    RemoveDirectory { dir: Seq<u8> },
    Finish(Result<ImportOutcomeView, ImportRomErrorView>),
}

impl View for ImportAction {
    type V = ImportActionView;

    open spec fn view(&self) -> ImportActionView {
        match self {
            ImportAction::OpenRom { path } => ImportActionView::OpenRom { path: path@ },
            ImportAction::CreateDirectory { dir } => ImportActionView::CreateDirectory { dir: dir@ },
            ImportAction::OpenDirectory { dir } => ImportActionView::OpenDirectory { dir: dir@ },
            ImportAction::CheckSameFile { name } => ImportActionView::CheckSameFile { name: name@ },
            ImportAction::CreateTemp => ImportActionView::CreateTemp,
            ImportAction::RunImport => ImportActionView::RunImport,
            ImportAction::WriteTemp => ImportActionView::WriteTemp,
            ImportAction::Publish { from, to } => ImportActionView::Publish { from: from@, to: to@ },
            ImportAction::DiscardTemp { name } => ImportActionView::DiscardTemp { name: name@ },
            ImportAction::RemoveDirectory { dir } => ImportActionView::RemoveDirectory { dir: dir@ },
            ImportAction::Finish(result) => ImportActionView::Finish(result_view(*result)),
        }
    }
}

/// What the last requested file operation did.
#[derive(Debug, PartialEq, Eq)]
pub enum ImportEvent {
    /// The operation succeeded.
    Done,
    /// The operation failed with this I/O error.
    Failed(String),
    /// The ROM could not be opened; the importer's own rendering of its
    /// read failure.
    RomOpenFailed(String),
    /// The destination directory exists now; `existed` says whether it did
    /// before this run.
    DirectoryReady { existed: bool },
    /// Whether the destination name is the open ROM.
    SameFile(bool),
    /// The temporary file `name` was created; `path` is the directory
    /// joined with it.
    TempCreated { name: Vec<u8>, path: Vec<u8> },
    /// The temporary file at `path`, the directory joined with the name
    /// picked for it, could not be created.
    TempFailed { path: Vec<u8>, source: String },
    /// The importer built a pack of `entry_count` entries and `pack_bytes`
    /// bytes.
    Imported { entry_count: usize, pack_bytes: usize },
    /// The importer failed, with its own diagnosis.
    ImportFailed(String),
}

/// Where an import stands.
#[derive(Debug, PartialEq, Eq)]
pub enum ImportStage {
    /// Waiting for the ROM to open.
    OpeningRom,
    /// Waiting for the destination directory to exist.
    CreatingDirectory,
    /// Waiting for the destination directory to be pinned.
    OpeningDirectory,
    /// Waiting for the same-file comparison.
    CheckingSameFile,
    /// Waiting for the temporary file.
    CreatingTemp,
    /// Waiting for the importer.
    Importing,
    /// Waiting for the pack to reach the temporary file.
    Writing { entry_count: usize, pack_bytes: usize },
    /// Waiting for the rename onto the destination.
    Publishing { entry_count: usize, pack_bytes: usize },
    /// Removing the temporary file after `error`.
    DiscardingTemp { error: ImportRomError },
    /// Removing the directory this run created, after `error`.
    RemovingDirectory { error: ImportRomError },
    /// Over.
    Finished(Result<ImportOutcome, ImportRomError>),
}

/// Where an [`ImportStage`] stands.
pub enum ImportStageView {
    OpeningRom,
    CreatingDirectory,
    OpeningDirectory,
    CheckingSameFile,
    CreatingTemp,
    Importing,
    Writing { entry_count: usize, pack_bytes: usize },
    Publishing { entry_count: usize, pack_bytes: usize },
    DiscardingTemp { error: ImportRomErrorView },
    RemovingDirectory { error: ImportRomErrorView },
    Finished(Result<ImportOutcomeView, ImportRomErrorView>),
}

impl View for ImportStage {
    type V = ImportStageView;

    open spec fn view(&self) -> ImportStageView {
        match self {
            ImportStage::OpeningRom => ImportStageView::OpeningRom,
            ImportStage::CreatingDirectory => ImportStageView::CreatingDirectory,
            ImportStage::OpeningDirectory => ImportStageView::OpeningDirectory,
            ImportStage::CheckingSameFile => ImportStageView::CheckingSameFile,
            ImportStage::CreatingTemp => ImportStageView::CreatingTemp,
            ImportStage::Importing => ImportStageView::Importing,
            ImportStage::Writing { entry_count, pack_bytes } => ImportStageView::Writing {
                entry_count: *entry_count,
                pack_bytes: *pack_bytes,
            },
            ImportStage::Publishing { entry_count, pack_bytes } => ImportStageView::Publishing {
                entry_count: *entry_count,
                pack_bytes: *pack_bytes,
            },
            ImportStage::DiscardingTemp { error } => ImportStageView::DiscardingTemp { error: error@ },
            ImportStage::RemovingDirectory { error } => ImportStageView::RemovingDirectory {
                error: error@,
            },
            ImportStage::Finished(result) => ImportStageView::Finished(result_view(*result)),
        }
    }
}

/// One ROM import, from the open of the ROM to the publication of its pack.
pub struct ImportRun {
    rom_path: Vec<u8>,
    pack_path: PackPath,
    dir: Vec<u8>,
    name: Vec<u8>,
    existed: bool,
    temp: Vec<u8>,
    temp_path: Vec<u8>,
    stage: ImportStage,
}

/// The event each stage waits for.
pub open spec fn expects(stage: ImportStageView, event: ImportEvent) -> bool {
    match stage {
        ImportStageView::OpeningRom => event is Done || event is RomOpenFailed,
        ImportStageView::CreatingDirectory => event is DirectoryReady || event is Failed,
        ImportStageView::OpeningDirectory => event is Done || event is Failed,
        ImportStageView::CheckingSameFile => event is SameFile,
        ImportStageView::CreatingTemp => event is TempCreated || event is TempFailed,
        ImportStageView::Importing => event is Imported || event is ImportFailed,
        ImportStageView::Writing { .. } => event is Done || event is Failed,
        ImportStageView::Publishing { .. } => event is Done || event is Failed,
        _ => true,
    }
}

/// Whether the temporary file exists in a stage.
pub open spec fn temp_exists(stage: ImportStageView) -> bool {
    stage is Importing || stage is Writing || stage is Publishing
}

/// Whether the destination directory exists, possibly made by this run.
pub open spec fn directory_made(stage: ImportStageView) -> bool {
    stage is OpeningDirectory || stage is CheckingSameFile || stage is CreatingTemp
        || temp_exists(stage)
}

impl ImportRun {
    /// The ROM being imported.
    pub closed spec fn spec_rom_path(&self) -> Seq<u8> {
        self.rom_path@
    }

    /// The destination the pack is published at.
    pub closed spec fn spec_pack_path(&self) -> PackPath {
        self.pack_path
    }

    /// The destination's directory.
    pub closed spec fn spec_dir(&self) -> Seq<u8> {
        self.dir@
    }

    /// The name published inside the destination's directory.
    pub closed spec fn spec_name(&self) -> Seq<u8> {
        self.name@
    }

    /// Whether the destination directory existed before this run.
    pub closed spec fn spec_existed(&self) -> bool {
        self.existed
    }

    /// The temporary file's name, once it exists.
    pub closed spec fn spec_temp(&self) -> Seq<u8> {
        self.temp@
    }

    /// The temporary file's path, once it exists.
    pub closed spec fn spec_temp_path(&self) -> Seq<u8> {
        self.temp_path@
    }

    /// Where the import stands.
    pub closed spec fn spec_stage(&self) -> ImportStageView {
        self.stage@
    }

    /// The clean-up after `error`: remove the directory if this run made it,
    /// then finish with the error.
    pub open spec fn spec_after_cleanup(&self, error: ImportRomErrorView) -> (
        ImportStageView,
        ImportActionView,
    ) {
        if self.spec_existed() {
            (ImportStageView::Finished(Err(error)), ImportActionView::Finish(Err(error)))
        } else {
            (
                ImportStageView::RemovingDirectory { error },
                ImportActionView::RemoveDirectory { dir: self.spec_dir() },
            )
        }
    }

    /// An import of the ROM at `rom_path` into `pack_path`, with the first
    /// operation it asks for: opening the ROM.
    pub fn new(rom_path: Vec<u8>, pack_path: PackPath) -> (r: (Self, ImportAction))
        ensures
            r.0.spec_rom_path() == rom_path@,
            r.0.spec_pack_path() == pack_path,
            r.0.spec_stage() == ImportStageView::OpeningRom,
            r.1@ == (ImportActionView::OpenRom { path: rom_path@ }),
    {
        let action = ImportAction::OpenRom { path: copy_bytes(&rom_path) };
        (
            ImportRun {
                rom_path,
                pack_path,
                dir: Vec::new(),
                name: Vec::new(),
                existed: true,
                temp: Vec::new(),
                temp_path: Vec::new(),
                stage: ImportStage::OpeningRom,
            },
            action,
        )
    }

    /// Where the import stands.
    pub fn stage(&self) -> (r: &ImportStage)
        ensures
            r@ == self.spec_stage(),
    {
        &self.stage
    }

    fn cleanup(&mut self, error: ImportRomError) -> (r: ImportAction)
        ensures
            (final(self).spec_stage(), r@) == old(self).spec_after_cleanup(error@),
            final(self).spec_rom_path() == old(self).spec_rom_path(),
            final(self).spec_pack_path() == old(self).spec_pack_path(),
            final(self).spec_dir() == old(self).spec_dir(),
            final(self).spec_name() == old(self).spec_name(),
            final(self).spec_existed() == old(self).spec_existed(),
            final(self).spec_temp() == old(self).spec_temp(),
            final(self).spec_temp_path() == old(self).spec_temp_path(),
    {
        if self.existed {
            self.stage = ImportStage::Finished(Err(error.clone()));
            ImportAction::Finish(Err(error))
        } else {
            self.stage = ImportStage::RemovingDirectory { error };
            ImportAction::RemoveDirectory { dir: copy_bytes(&self.dir) }
        }
    }

    fn discard_then_cleanup(&mut self, error: ImportRomError) -> (r: ImportAction)
        ensures
            final(self).spec_stage() == (ImportStageView::DiscardingTemp { error: error@ }),
            r@ == (ImportActionView::DiscardTemp { name: old(self).spec_temp() }),
            final(self).spec_rom_path() == old(self).spec_rom_path(),
            final(self).spec_pack_path() == old(self).spec_pack_path(),
            final(self).spec_dir() == old(self).spec_dir(),
            final(self).spec_name() == old(self).spec_name(),
            final(self).spec_existed() == old(self).spec_existed(),
            final(self).spec_temp() == old(self).spec_temp(),
            final(self).spec_temp_path() == old(self).spec_temp_path(),
    {
        self.stage = ImportStage::DiscardingTemp { error };
        ImportAction::DiscardTemp { name: copy_bytes(&self.temp) }
    }
}

/// A copy of a finished import's result.
fn copy_result(r: &Result<ImportOutcome, ImportRomError>) -> (c: Result<ImportOutcome, ImportRomError>)
    ensures
        result_view(c) == result_view(*r),
{
    match r {
        Ok(o) => Ok(o.clone()),
        Err(e) => Err(e.clone()),
    }
}

/// One step of an import: from `pre`, on `event`, the import moves to
/// `post` and asks for `action`.
pub open spec fn step_relation(
    pre: ImportRun,
    post: ImportRun,
    event: ImportEvent,
    action: ImportActionView,
) -> bool {
    &&& post.spec_rom_path() == pre.spec_rom_path()
    &&& post.spec_pack_path() == pre.spec_pack_path()
    &&& match pre.spec_stage() {
        ImportStageView::OpeningRom => match event {
            ImportEvent::RomOpenFailed(message) => {
                let e = ImportRomErrorView::Import { message: message@ };
                &&& post.spec_stage() == ImportStageView::Finished(Err(e))
                &&& action == ImportActionView::Finish(Err(e))
            },
            _ => match spec_pack_name(
                pre.spec_pack_path().bytes@,
                opt_bytes(pre.spec_pack_path().file_name),
            ) {
                None => {
                    let e = ImportRomErrorView::DestinationNamesNoFile {
                        pack_path: pre.spec_pack_path().bytes@,
                    };
                    &&& post.spec_stage() == ImportStageView::Finished(Err(e))
                    &&& action == ImportActionView::Finish(Err(e))
                },
                Some(name) => {
                    &&& post.spec_dir() == spec_pack_directory(
                        opt_bytes(pre.spec_pack_path().parent),
                    )
                    &&& post.spec_name() == name
                    &&& post.spec_stage() == ImportStageView::CreatingDirectory
                    &&& action == ImportActionView::CreateDirectory { dir: post.spec_dir() }
                },
            },
        },
        ImportStageView::CreatingDirectory => {
            &&& post.spec_dir() == pre.spec_dir()
            &&& post.spec_name() == pre.spec_name()
            &&& match event {
                ImportEvent::DirectoryReady { existed } => {
                    &&& post.spec_existed() == existed
                    &&& post.spec_stage() == ImportStageView::OpeningDirectory
                    &&& action == ImportActionView::OpenDirectory { dir: pre.spec_dir() }
                },
                ImportEvent::Failed(source) => {
                    let e = ImportRomErrorView::CreateDirFailed {
                        path: pre.spec_dir(),
                        source: source@,
                    };
                    &&& post.spec_stage() == ImportStageView::Finished(Err(e))
                    &&& action == ImportActionView::Finish(Err(e))
                },
                _ => false,
            }
        },
        ImportStageView::OpeningDirectory => {
            &&& post.spec_dir() == pre.spec_dir()
            &&& post.spec_name() == pre.spec_name()
            &&& post.spec_existed() == pre.spec_existed()
            &&& match event {
                ImportEvent::Failed(source) => (post.spec_stage(), action)
                    == pre.spec_after_cleanup(
                    ImportRomErrorView::OpenDirFailed { path: pre.spec_dir(), source: source@ },
                ),
                _ => {
                    &&& post.spec_stage() == ImportStageView::CheckingSameFile
                    &&& action == ImportActionView::CheckSameFile { name: pre.spec_name() }
                },
            }
        },
        ImportStageView::CheckingSameFile => {
            &&& post.spec_dir() == pre.spec_dir()
            &&& post.spec_name() == pre.spec_name()
            &&& post.spec_existed() == pre.spec_existed()
            &&& if event == ImportEvent::SameFile(true) {
                (post.spec_stage(), action) == pre.spec_after_cleanup(
                    ImportRomErrorView::DestinationIsSource { rom_path: pre.spec_rom_path() },
                )
            } else {
                &&& post.spec_stage() == ImportStageView::CreatingTemp
                &&& action == ImportActionView::CreateTemp
            }
        },
        ImportStageView::CreatingTemp => {
            &&& post.spec_dir() == pre.spec_dir()
            &&& post.spec_name() == pre.spec_name()
            &&& post.spec_existed() == pre.spec_existed()
            &&& match event {
                ImportEvent::TempCreated { name, path } => {
                    &&& post.spec_temp() == name@
                    &&& post.spec_temp_path() == path@
                    &&& post.spec_stage() == ImportStageView::Importing
                    &&& action == ImportActionView::RunImport
                },
                ImportEvent::TempFailed { path, source } => {
                    &&& post.spec_temp_path() == path@
                    &&& (post.spec_stage(), action) == pre.spec_after_cleanup(
                        ImportRomErrorView::TempFileFailed { temp_path: path@, source: source@ },
                    )
                },
                _ => false,
            }
        },
        ImportStageView::Importing => {
            &&& post.spec_dir() == pre.spec_dir()
            &&& post.spec_name() == pre.spec_name()
            &&& post.spec_existed() == pre.spec_existed()
            &&& post.spec_temp() == pre.spec_temp()
            &&& post.spec_temp_path() == pre.spec_temp_path()
            &&& match event {
                ImportEvent::Imported { entry_count, pack_bytes } => {
                    &&& post.spec_stage() == ImportStageView::Writing { entry_count, pack_bytes }
                    &&& action == ImportActionView::WriteTemp
                },
                ImportEvent::ImportFailed(message) => {
                    &&& post.spec_stage() == ImportStageView::DiscardingTemp {
                        error: ImportRomErrorView::Import { message: message@ },
                    }
                    &&& action == ImportActionView::DiscardTemp { name: pre.spec_temp() }
                },
                _ => false,
            }
        },
        ImportStageView::Writing { entry_count, pack_bytes } => {
            &&& post.spec_dir() == pre.spec_dir()
            &&& post.spec_name() == pre.spec_name()
            &&& post.spec_existed() == pre.spec_existed()
            &&& post.spec_temp() == pre.spec_temp()
            &&& post.spec_temp_path() == pre.spec_temp_path()
            &&& match event {
                ImportEvent::Failed(source) => {
                    &&& post.spec_stage() == ImportStageView::DiscardingTemp {
                        error: ImportRomErrorView::TempFileFailed {
                            temp_path: pre.spec_temp_path(),
                            source: source@,
                        },
                    }
                    &&& action == ImportActionView::DiscardTemp { name: pre.spec_temp() }
                },
                _ => {
                    &&& post.spec_stage() == ImportStageView::Publishing { entry_count, pack_bytes }
                    &&& action == ImportActionView::Publish {
                        from: pre.spec_temp(),
                        to: pre.spec_name(),
                    }
                },
            }
        },
        ImportStageView::Publishing { entry_count, pack_bytes } => {
            &&& post.spec_dir() == pre.spec_dir()
            &&& post.spec_name() == pre.spec_name()
            &&& post.spec_existed() == pre.spec_existed()
            &&& post.spec_temp() == pre.spec_temp()
            &&& post.spec_temp_path() == pre.spec_temp_path()
            &&& match event {
                ImportEvent::Failed(source) => {
                    &&& post.spec_stage() == ImportStageView::DiscardingTemp {
                        error: ImportRomErrorView::PublishFailed {
                            temp_path: pre.spec_temp_path(),
                            pack_path: pre.spec_pack_path().bytes@,
                            source: source@,
                        },
                    }
                    &&& action == ImportActionView::DiscardTemp { name: pre.spec_temp() }
                },
                _ => {
                    let outcome = ImportOutcomeView {
                        pack_path: pre.spec_pack_path().bytes@,
                        entry_count,
                        pack_bytes,
                    };
                    &&& post.spec_stage() == ImportStageView::Finished(Ok(outcome))
                    &&& action == ImportActionView::Finish(Ok(outcome))
                },
            }
        },
        ImportStageView::DiscardingTemp { error } => {
            &&& post.spec_existed() == pre.spec_existed()
            &&& post.spec_dir() == pre.spec_dir()
            &&& (post.spec_stage(), action) == pre.spec_after_cleanup(error)
        },
        ImportStageView::RemovingDirectory { error } => {
            &&& post.spec_stage() == ImportStageView::Finished(Err(error))
            &&& action == ImportActionView::Finish(Err(error))
        },
        ImportStageView::Finished(result) => {
            &&& post.spec_stage() == pre.spec_stage()
            &&& action == ImportActionView::Finish(result)
        },
    }
}

impl ImportRun {
    /// Takes what the last requested operation did and answers with the
    /// next one.
    ///
    /// A ROM that cannot be opened, a destination naming no file, and a
    /// directory that cannot be created end the import at once: nothing of
    /// this run exists yet. From the directory's creation on, every failure
    /// first removes what this run made: the temporary file once it exists,
    /// then the directory if it did not exist before. A destination that is
    /// the open ROM is refused before the temporary file is created. The
    /// pack is published only once the importer built it and it reached the
    /// temporary file, and the outcome is reported only once it is published.
    pub fn step(&mut self, event: ImportEvent) -> (r: ImportAction)
        requires
            expects(old(self).spec_stage(), event),
        ensures
            step_relation(*old(self), *final(self), event, r@),
    {
        let mut stage = ImportStage::OpeningRom;
        std::mem::swap(&mut stage, &mut self.stage);
        match stage {
            ImportStage::OpeningRom => {
                match event {
                    ImportEvent::RomOpenFailed(message) => {
                        let e = ImportRomError::Import { message };
                        self.stage = ImportStage::Finished(Err(e.clone()));
                        ImportAction::Finish(Err(e))
                    },
                    _ => {
                        match pack_name(&self.pack_path) {
                            None => {
                                let e = ImportRomError::DestinationNamesNoFile {
                                    pack_path: copy_bytes(&self.pack_path.bytes),
                                };
                                self.stage = ImportStage::Finished(Err(e.clone()));
                                ImportAction::Finish(Err(e))
                            },
                            Some(name) => {
                                self.dir = pack_directory(&self.pack_path);
                                self.name = name;
                                self.stage = ImportStage::CreatingDirectory;
                                ImportAction::CreateDirectory { dir: copy_bytes(&self.dir) }
                            },
                        }
                    },
                }
            },
            ImportStage::CreatingDirectory => {
                match event {
                    ImportEvent::DirectoryReady { existed } => {
                        self.existed = existed;
                        self.stage = ImportStage::OpeningDirectory;
                        ImportAction::OpenDirectory { dir: copy_bytes(&self.dir) }
                    },
                    ImportEvent::Failed(source) => {
                        let e = ImportRomError::CreateDirFailed {
                            path: copy_bytes(&self.dir),
                            source,
                        };
                        self.stage = ImportStage::Finished(Err(e.clone()));
                        ImportAction::Finish(Err(e))
                    },
                    _ => {
                        proof {
                            assert(false);
                        }
                        ImportAction::CreateTemp
                    },
                }
            },
            ImportStage::OpeningDirectory => {
                match event {
                    ImportEvent::Failed(source) => {
                        let e = ImportRomError::OpenDirFailed { path: copy_bytes(&self.dir), source };
                        self.cleanup(e)
                    },
                    _ => {
                        self.stage = ImportStage::CheckingSameFile;
                        ImportAction::CheckSameFile { name: copy_bytes(&self.name) }
                    },
                }
            },
            ImportStage::CheckingSameFile => {
                match event {
                    ImportEvent::SameFile(true) => {
                        let e = ImportRomError::DestinationIsSource {
                            rom_path: copy_bytes(&self.rom_path),
                        };
                        self.cleanup(e)
                    },
                    _ => {
                        self.stage = ImportStage::CreatingTemp;
                        ImportAction::CreateTemp
                    },
                }
            },
            ImportStage::CreatingTemp => {
                match event {
                    ImportEvent::TempCreated { name, path } => {
                        self.temp_path = path;
                        self.temp = name;
                        self.stage = ImportStage::Importing;
                        ImportAction::RunImport
                    },
                    ImportEvent::TempFailed { path, source } => {
                        let e = ImportRomError::TempFileFailed {
                            temp_path: copy_bytes(&path),
                            source,
                        };
                        self.temp_path = path;
                        self.cleanup(e)
                    },
                    _ => {
                        proof {
                            assert(false);
                        }
                        ImportAction::CreateTemp
                    },
                }
            },
            ImportStage::Importing => {
                match event {
                    ImportEvent::Imported { entry_count, pack_bytes } => {
                        self.stage = ImportStage::Writing { entry_count, pack_bytes };
                        ImportAction::WriteTemp
                    },
                    ImportEvent::ImportFailed(message) => {
                        self.discard_then_cleanup(ImportRomError::Import { message })
                    },
                    _ => {
                        proof {
                            assert(false);
                        }
                        ImportAction::CreateTemp
                    },
                }
            },
            ImportStage::Writing { entry_count, pack_bytes } => {
                match event {
                    ImportEvent::Failed(source) => {
                        let e = ImportRomError::TempFileFailed {
                            temp_path: copy_bytes(&self.temp_path),
                            source,
                        };
                        self.discard_then_cleanup(e)
                    },
                    _ => {
                        self.stage = ImportStage::Publishing { entry_count, pack_bytes };
                        ImportAction::Publish {
                            from: copy_bytes(&self.temp),
                            to: copy_bytes(&self.name),
                        }
                    },
                }
            },
            ImportStage::Publishing { entry_count, pack_bytes } => {
                match event {
                    ImportEvent::Failed(source) => {
                        let e = ImportRomError::PublishFailed {
                            temp_path: copy_bytes(&self.temp_path),
                            pack_path: copy_bytes(&self.pack_path.bytes),
                            source,
                        };
                        self.discard_then_cleanup(e)
                    },
                    _ => {
                        let outcome = ImportOutcome::new(
                            copy_bytes(&self.pack_path.bytes),
                            entry_count,
                            pack_bytes,
                        );
                        self.stage = ImportStage::Finished(Ok(outcome.clone()));
                        ImportAction::Finish(Ok(outcome))
                    },
                }
            },
            ImportStage::DiscardingTemp { error } => self.cleanup(error),
            ImportStage::RemovingDirectory { error } => {
                self.stage = ImportStage::Finished(Err(error.clone()));
                ImportAction::Finish(Err(error))
            },
            ImportStage::Finished(result) => {
                let copy = copy_result(&result);
                self.stage = ImportStage::Finished(result);
                ImportAction::Finish(copy)
            },
        }
    }
}

/// Starts an import of the ROM at `rom_path` into the run's destination:
/// an explicit, non-empty `$POKEEMERALD_PACK` (`env_pack_path`) if there is
/// one, otherwise the OS user-data pack path (`user_pack_path`). The first
/// operation the import asks for is opening the ROM.
///
/// # Errors
///
/// [`ImportRomError::NoDestination`] if neither names a pack location; every
/// later failure is the [`ImportAction::Finish`] the run ends with.
pub fn import_rom(
    rom_path: Vec<u8>,
    env_pack_path: Option<PackPath>,
    user_pack_path: Option<PackPath>,
) -> (r: Result<(ImportRun, ImportAction), ImportRomError>)
    ensures
        match spec_destination(env_pack_path, user_pack_path) {
            None => r matches Err(e) && e@ == ImportRomErrorView::NoDestination,
            Some(pack_path) => r matches Ok((run, action)) && {
                &&& run.spec_rom_path() == rom_path@
                &&& run.spec_pack_path() == pack_path
                &&& run.spec_stage() == ImportStageView::OpeningRom
                &&& action@ == ImportActionView::OpenRom { path: rom_path@ }
            },
        },
{
    let pack_path = destination(env_pack_path, user_pack_path)?;
    Ok(ImportRun::new(rom_path, pack_path))
}

/// Whether `event` is the failure of the operation `stage` waits for, for
/// the stages in which the temporary file does not exist yet but the
/// destination directory might have been made by this run.
pub open spec fn fails_before_temp(stage: ImportStageView, event: ImportEvent) -> bool {
    ||| stage is OpeningDirectory && event is Failed
    ||| stage is CheckingSameFile && event == ImportEvent::SameFile(true)
    ||| stage is CreatingTemp && event is TempFailed
}

/// The pack is published only once it was built and written: a publish is
/// asked for only after the write succeeded, and the write only after the
/// importer built the pack.
pub proof fn lemma_publish_follows_a_written_pack(
    pre: ImportRun,
    post: ImportRun,
    event: ImportEvent,
    action: ImportActionView,
)
    requires
        expects(pre.spec_stage(), event),
        step_relation(pre, post, event, action),
    ensures
        action is Publish ==> pre.spec_stage() is Writing && event == ImportEvent::Done,
        post.spec_stage() is Writing ==> pre.spec_stage() is Importing && event is Imported,
        action is WriteTemp ==> pre.spec_stage() is Importing && event is Imported,
{
}

/// A successful outcome is reported only once the pack has been published.
pub proof fn lemma_outcome_follows_publication(
    pre: ImportRun,
    post: ImportRun,
    event: ImportEvent,
    action: ImportActionView,
)
    requires
        expects(pre.spec_stage(), event),
        step_relation(pre, post, event, action),
        action matches ImportActionView::Finish(Ok(_)),
    ensures
        (pre.spec_stage() is Publishing && event == ImportEvent::Done)
            || pre.spec_stage() matches ImportStageView::Finished(Ok(_)),
{
}

/// Once the temporary file exists, every failure first removes it.
pub proof fn lemma_failure_after_the_temp_file_discards_it(
    pre: ImportRun,
    post: ImportRun,
    event: ImportEvent,
    action: ImportActionView,
)
    requires
        expects(pre.spec_stage(), event),
        step_relation(pre, post, event, action),
        temp_exists(pre.spec_stage()),
        event is Failed || event is ImportFailed,
    ensures
        action == (ImportActionView::DiscardTemp { name: pre.spec_temp() }),
        post.spec_stage() is DiscardingTemp,
        post.spec_existed() == pre.spec_existed(),
        post.spec_dir() == pre.spec_dir(),
{
}

/// A failure after the destination directory was made removes the directory
/// again when this run created it, and only then; the removal comes after
/// any temporary file is gone, and the error is reported last.
pub proof fn lemma_failure_removes_a_directory_this_run_created(
    pre: ImportRun,
    post: ImportRun,
    event: ImportEvent,
    action: ImportActionView,
)
    requires
        expects(pre.spec_stage(), event),
        step_relation(pre, post, event, action),
        pre.spec_stage() is DiscardingTemp || fails_before_temp(pre.spec_stage(), event),
    ensures
        !pre.spec_existed() ==> action == (ImportActionView::RemoveDirectory { dir: pre.spec_dir() })
            && post.spec_stage() is RemovingDirectory,
        pre.spec_existed() ==> action is Finish && post.spec_stage() matches ImportStageView::Finished(
            Err(_),
        ),
{
}

/// A destination that names no file, or that is the ROM itself, is refused
/// before a temporary file is created: the temporary file is asked for only
/// once the same-file check passed, and the directory only once the
/// destination named a file.
pub proof fn lemma_refusals_come_before_anything_is_written(
    pre: ImportRun,
    post: ImportRun,
    event: ImportEvent,
    action: ImportActionView,
)
    requires
        expects(pre.spec_stage(), event),
        step_relation(pre, post, event, action),
    ensures
        action is CreateTemp ==> pre.spec_stage() is CheckingSameFile && event
            == ImportEvent::SameFile(false),
        action is CreateDirectory ==> pre.spec_stage() is OpeningRom && spec_pack_name(
            pre.spec_pack_path().bytes@,
            opt_bytes(pre.spec_pack_path().file_name),
        ) is Some,
        (pre.spec_stage() is OpeningRom && event == ImportEvent::Done && spec_pack_name(
            pre.spec_pack_path().bytes@,
            opt_bytes(pre.spec_pack_path().file_name),
        ) is None) ==> action == ImportActionView::Finish(
            Err(
                ImportRomErrorView::DestinationNamesNoFile {
                    pack_path: pre.spec_pack_path().bytes@,
                },
            ),
        ),
{
}

/// A finished import stays finished with the same result.
pub proof fn lemma_finished_is_final(
    pre: ImportRun,
    post: ImportRun,
    event: ImportEvent,
    action: ImportActionView,
)
    requires
        step_relation(pre, post, event, action),
        pre.spec_stage() is Finished,
    ensures
        post.spec_stage() == pre.spec_stage(),
        pre.spec_stage() matches ImportStageView::Finished(result) && action
            == ImportActionView::Finish(result),
{
}

/// A run of an import: `runs[i]` answers `events[i]` by becoming
/// `runs[i + 1]` and asking for `actions[i]`, each event one its stage
/// waits for.
pub open spec fn is_trace(
    runs: Seq<ImportRun>,
    events: Seq<ImportEvent>,
    actions: Seq<ImportActionView>,
) -> bool {
    &&& runs.len() == events.len() + 1
    &&& actions.len() == events.len()
    &&& forall|i: int|
        0 <= i < events.len() ==> expects(#[trigger] runs[i].spec_stage(), events[i])
            && step_relation(runs[i], runs[i + 1], events[i], actions[i])
}

/// Whether an import run ended in failure.
pub open spec fn ends_in_failure(runs: Seq<ImportRun>) -> bool {
    runs.len() > 0 && runs.last().spec_stage() matches ImportStageView::Finished(Err(_))
}

proof fn lemma_finished_stays(
    runs: Seq<ImportRun>,
    events: Seq<ImportEvent>,
    actions: Seq<ImportActionView>,
    i: int,
    j: int,
)
    requires
        is_trace(runs, events, actions),
        0 <= i <= j < runs.len(),
        runs[i].spec_stage() is Finished,
    ensures
        runs[j].spec_stage() == runs[i].spec_stage(),
    decreases j - i,
{
    if i < j {
        assert(expects(runs[i].spec_stage(), events[i]));
        lemma_finished_stays(runs, events, actions, i + 1, j);
    }
}

/// A failed import never publishes: in a run that ends in failure, the
/// rename onto the destination was never answered as done, so whatever
/// the destination held before is still there.
pub proof fn lemma_failed_import_never_publishes(
    runs: Seq<ImportRun>,
    events: Seq<ImportEvent>,
    actions: Seq<ImportActionView>,
    i: int,
)
    requires
        is_trace(runs, events, actions),
        ends_in_failure(runs),
        0 <= i < events.len(),
        runs[i].spec_stage() is Publishing,
    ensures
        events[i] != ImportEvent::Done,
{
    assert(expects(runs[i].spec_stage(), events[i]));
    if events[i] == ImportEvent::Done {
        assert(runs[i + 1].spec_stage() matches ImportStageView::Finished(Ok(_)));
        lemma_finished_stays(runs, events, actions, i + 1, runs.len() - 1);
    }
}

/// A failed import leaves no temporary file: once the temporary file exists,
/// a run that ends in failure asks for that very file to be removed.
pub proof fn lemma_failed_import_discards_its_temp_file(
    runs: Seq<ImportRun>,
    events: Seq<ImportEvent>,
    actions: Seq<ImportActionView>,
    i: int,
)
    requires
        is_trace(runs, events, actions),
        ends_in_failure(runs),
        0 <= i < runs.len(),
        temp_exists(runs[i].spec_stage()),
    ensures
        exists|j: int|
            i <= j < actions.len() && #[trigger] actions[j] == (ImportActionView::DiscardTemp {
                name: runs[i].spec_temp(),
            }),
    decreases runs.len() - i,
{
    if i == runs.len() - 1 {
        assert(false);
    }
    assert(expects(runs[i].spec_stage(), events[i]));
    let next = runs[i + 1].spec_stage();
    if next is DiscardingTemp {
        assert(actions[i] == (ImportActionView::DiscardTemp { name: runs[i].spec_temp() }));
    } else if next is Finished {
        lemma_finished_stays(runs, events, actions, i + 1, runs.len() - 1);
    } else {
        lemma_failed_import_discards_its_temp_file(runs, events, actions, i + 1);
        let j = choose|j: int|
            i + 1 <= j < actions.len() && #[trigger] actions[j] == (ImportActionView::DiscardTemp {
                name: runs[i + 1].spec_temp(),
            });
        assert(actions[j] == (ImportActionView::DiscardTemp { name: runs[i].spec_temp() }));
    }
}

/// Whether a failure in `stage` still has the directory this run made to
/// remove: the directory exists, or the temporary file in it is being
/// removed.
pub open spec fn directory_to_remove(stage: ImportStageView) -> bool {
    directory_made(stage) || stage is DiscardingTemp
}

/// A failed import removes a destination directory it created: once the
/// directory exists, a run that ends in failure asks for that directory to
/// be removed when it did not exist before the run.
pub proof fn lemma_failed_import_removes_the_directory_it_created(
    runs: Seq<ImportRun>,
    events: Seq<ImportEvent>,
    actions: Seq<ImportActionView>,
    i: int,
)
    requires
        is_trace(runs, events, actions),
        ends_in_failure(runs),
        0 <= i < runs.len(),
        directory_to_remove(runs[i].spec_stage()),
        !runs[i].spec_existed(),
    ensures
        exists|j: int|
            i <= j < actions.len() && #[trigger] actions[j] == (ImportActionView::RemoveDirectory {
                dir: runs[i].spec_dir(),
            }),
    decreases runs.len() - i,
{
    if i == runs.len() - 1 {
        assert(false);
    }
    assert(expects(runs[i].spec_stage(), events[i]));
    let next = runs[i + 1].spec_stage();
    if next is RemovingDirectory {
        assert(actions[i] == (ImportActionView::RemoveDirectory { dir: runs[i].spec_dir() }));
    } else if next is Finished {
        lemma_finished_stays(runs, events, actions, i + 1, runs.len() - 1);
    } else {
        lemma_failed_import_removes_the_directory_it_created(runs, events, actions, i + 1);
        let j = choose|j: int|
            i + 1 <= j < actions.len() && #[trigger] actions[j]
                == (ImportActionView::RemoveDirectory { dir: runs[i + 1].spec_dir() });
        assert(actions[j] == (ImportActionView::RemoveDirectory { dir: runs[i].spec_dir() }));
    }
}

} // verus!
