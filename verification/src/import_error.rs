//! Why a ROM import failed, and the one-line message the binary prints.
use vstd::prelude::*;
use vstd::utf8::{decode_utf8, valid_utf8};

verus! {

/// A path's bytes as text, with each invalid sequence replaced by U+FFFD
/// (`String::from_utf8_lossy`).
pub uninterp spec fn std_utf8_lossy(bytes: Seq<u8>) -> Seq<char>;

/// `String::from_utf8_lossy`: how a path is shown in a message, the same
/// way `Path::display` shows it on Unix. On Windows, where the encoded bytes
/// are WTF-8, `Path::display` shows an unpaired surrogate as one U+FFFD and
/// this shows one per byte of it; every other path reads the same.
///
/// The contract names the result [`std_utf8_lossy`] and states what the
/// documentation promises of valid input: it comes back decoded unchanged.
#[verifier::external_body]
pub(crate) fn utf8_lossy(bytes: &[u8]) -> (r: String)
    ensures
        r@ == std_utf8_lossy(bytes@),
        valid_utf8(bytes@) ==> r@ == decode_utf8(bytes@),
{
    String::from_utf8_lossy(bytes).into_owned()
}

/// Why `--import-rom` failed.
///
/// Every message is one line, because the binary prints it on one terminal
/// row. I/O failures carry the operating system's own rendering of the error.
#[derive(Debug, PartialEq, Eq)]
pub enum ImportRomError {
    /// No destination could be resolved: `$POKEEMERALD_PACK` is unset and
    /// the OS user-data directory could not be determined either.
    NoDestination,
    /// The destination directory could not be created.
    CreateDirFailed {
        /// The directory that could not be created.
        path: Vec<u8>,
        /// The underlying I/O failure.
        source: String,
    },
    /// The destination directory could not be opened.
    OpenDirFailed {
        /// The directory that could not be opened.
        path: Vec<u8>,
        /// The underlying I/O failure.
        source: String,
    },
    /// The importer itself failed, with its own typed diagnosis rendered:
    /// an unreadable ROM, the wrong ROM, a truncated file, or an asset the
    /// profile's addresses do not reach.
    Import {
        /// The importer's diagnosis.
        message: String,
    },
    /// The resolved destination names no file to publish.
    DestinationNamesNoFile {
        /// The destination that names no file.
        pack_path: Vec<u8>,
    },
    /// The resolved destination *is* the ROM being imported.
    DestinationIsSource {
        /// The ROM that would have been replaced.
        rom_path: Vec<u8>,
    },
    /// The temporary file the pack is built in could not be created, or the
    /// finished pack could not be written into it.
    TempFileFailed {
        /// The temporary file that could not be written.
        temp_path: Vec<u8>,
        /// The underlying I/O failure.
        source: String,
    },
    /// The pack was built, but moving it from its temporary file to the
    /// destination failed.
    PublishFailed {
        /// The temporary file that holds the finished pack.
        temp_path: Vec<u8>,
        /// The destination it could not be moved to.
        pack_path: Vec<u8>,
        /// The underlying I/O failure.
        source: String,
    },
}

/// What an [`ImportRomError`] says: each path as its bytes, each cause as
/// its text.
pub enum ImportRomErrorView {
    NoDestination,
    CreateDirFailed { path: Seq<u8>, source: Seq<char> },
    OpenDirFailed { path: Seq<u8>, source: Seq<char> },
    Import { message: Seq<char> },
    DestinationNamesNoFile { pack_path: Seq<u8> },
    DestinationIsSource { rom_path: Seq<u8> },
    TempFileFailed { temp_path: Seq<u8>, source: Seq<char> },
    PublishFailed { temp_path: Seq<u8>, pack_path: Seq<u8>, source: Seq<char> },
}

impl View for ImportRomError {
    type V = ImportRomErrorView;

    open spec fn view(&self) -> ImportRomErrorView {
        match self {
            ImportRomError::NoDestination => ImportRomErrorView::NoDestination,
            ImportRomError::CreateDirFailed { path, source } => ImportRomErrorView::CreateDirFailed {
                path: path@,
                source: source@,
            },
            ImportRomError::OpenDirFailed { path, source } => ImportRomErrorView::OpenDirFailed {
                path: path@,
                source: source@,
            },
            ImportRomError::Import { message } => ImportRomErrorView::Import { message: message@ },
            ImportRomError::DestinationNamesNoFile { pack_path } =>
                ImportRomErrorView::DestinationNamesNoFile { pack_path: pack_path@ },
            ImportRomError::DestinationIsSource { rom_path } =>
                ImportRomErrorView::DestinationIsSource { rom_path: rom_path@ },
            ImportRomError::TempFileFailed { temp_path, source } =>
                ImportRomErrorView::TempFileFailed { temp_path: temp_path@, source: source@ },
            ImportRomError::PublishFailed { temp_path, pack_path, source } =>
                ImportRomErrorView::PublishFailed {
                temp_path: temp_path@,
                pack_path: pack_path@,
                source: source@,
            },
        }
    }
}

/// The one-line message for each failure; a path is shown as
/// [`std_utf8_lossy`] shows its bytes.
pub open spec fn spec_message(error: ImportRomErrorView) -> Seq<char> {
    match error {
        ImportRomErrorView::NoDestination => "cannot tell where to write the asset pack: no user data directory, and `"@
            + "POKEEMERALD_PACK"@ + "` is not set"@,
        ImportRomErrorView::CreateDirFailed { path, source } => "could not create `"@
            + std_utf8_lossy(path) + "`: "@ + source,
        ImportRomErrorView::OpenDirFailed { path, source } => "could not open `"@ + std_utf8_lossy(
            path,
        ) + "`: "@ + source,
        ImportRomErrorView::Import { message } => message,
        ImportRomErrorView::DestinationNamesNoFile { pack_path } =>
            "cannot write the asset pack to `"@ + std_utf8_lossy(pack_path)
            + "`: the path names no file — point `"@ + "POKEEMERALD_PACK"@ + "` at a file"@,
        ImportRomErrorView::DestinationIsSource { rom_path } =>
            "refusing to write the asset pack over the source ROM `"@ + std_utf8_lossy(rom_path)
            + "`: point `"@ + "POKEEMERALD_PACK"@
            + "` at a different file, or unset it to use the default location"@,
        ImportRomErrorView::TempFileFailed { temp_path, source } =>
            "could not build the asset pack in `"@ + std_utf8_lossy(temp_path) + "`: "@ + source,
        ImportRomErrorView::PublishFailed { temp_path, pack_path, source } =>
            "could not publish the finished pack to `"@ + std_utf8_lossy(pack_path) + "`: "@
            + source + " (the temporary file `"@ + std_utf8_lossy(temp_path)
            + "` was removed)"@,
    }
}

/// A copy of a path's bytes.
pub(crate) fn copy_bytes(v: &Vec<u8>) -> (r: Vec<u8>)
    ensures
        r@ == v@,
{
    let r = v.clone();
    proof {
        assert(r@ =~= v@);
    }
    r
}

impl Clone for ImportRomError {
    fn clone(&self) -> (r: Self)
        ensures
            r@ == self@,
    {
        match self {
            ImportRomError::NoDestination => ImportRomError::NoDestination,
            ImportRomError::CreateDirFailed { path, source } => ImportRomError::CreateDirFailed {
                path: copy_bytes(path),
                source: source.clone(),
            },
            ImportRomError::OpenDirFailed { path, source } => ImportRomError::OpenDirFailed {
                path: copy_bytes(path),
                source: source.clone(),
            },
            ImportRomError::Import { message } => ImportRomError::Import { message: message.clone() },
            ImportRomError::DestinationNamesNoFile { pack_path } =>
                ImportRomError::DestinationNamesNoFile { pack_path: copy_bytes(pack_path) },
            ImportRomError::DestinationIsSource { rom_path } => ImportRomError::DestinationIsSource {
                rom_path: copy_bytes(rom_path),
            },
            ImportRomError::TempFileFailed { temp_path, source } => ImportRomError::TempFileFailed {
                temp_path: copy_bytes(temp_path),
                source: source.clone(),
            },
            ImportRomError::PublishFailed { temp_path, pack_path, source } =>
                ImportRomError::PublishFailed {
                temp_path: copy_bytes(temp_path),
                pack_path: copy_bytes(pack_path),
                source: source.clone(),
            },
        }
    }
}

impl ImportRomError {
    /// The one-line message the binary prints for this failure.
    pub fn message(&self) -> (r: String)
        ensures
            r@ == spec_message(self@),
    {
        match self {
            ImportRomError::NoDestination => {
                let mut m = String::from_str(
                    "cannot tell where to write the asset pack: no user data directory, and `",
                );
                m.append(crate::pack_path::PACK_PATH_ENV);
                m.append("` is not set");
                m
            },
            ImportRomError::CreateDirFailed { path, source } => {
                let mut m = String::from_str("could not create `");
                m.append(utf8_lossy(path.as_slice()).as_str());
                m.append("`: ");
                m.append(source.as_str());
                m
            },
            ImportRomError::OpenDirFailed { path, source } => {
                let mut m = String::from_str("could not open `");
                m.append(utf8_lossy(path.as_slice()).as_str());
                m.append("`: ");
                m.append(source.as_str());
                m
            },
            ImportRomError::Import { message } => message.clone(),
            ImportRomError::DestinationNamesNoFile { pack_path } => {
                let mut m = String::from_str("cannot write the asset pack to `");
                m.append(utf8_lossy(pack_path.as_slice()).as_str());
                m.append("`: the path names no file — point `");
                m.append(crate::pack_path::PACK_PATH_ENV);
                m.append("` at a file");
                m
            },
            ImportRomError::DestinationIsSource { rom_path } => {
                let mut m = String::from_str("refusing to write the asset pack over the source ROM `");
                m.append(utf8_lossy(rom_path.as_slice()).as_str());
                m.append("`: point `");
                m.append(crate::pack_path::PACK_PATH_ENV);
                m.append("` at a different file, or unset it to use the default location");
                m
            },
            ImportRomError::TempFileFailed { temp_path, source } => {
                let mut m = String::from_str("could not build the asset pack in `");
                m.append(utf8_lossy(temp_path.as_slice()).as_str());
                m.append("`: ");
                m.append(source.as_str());
                m
            },
            ImportRomError::PublishFailed { temp_path, pack_path, source } => {
                let mut m = String::from_str("could not publish the finished pack to `");
                m.append(utf8_lossy(pack_path.as_slice()).as_str());
                m.append("`: ");
                m.append(source.as_str());
                m.append(" (the temporary file `");
                m.append(utf8_lossy(temp_path.as_slice()).as_str());
                m.append("` was removed)");
                m
            },
        }
    }

    /// Whether this failure carries an underlying cause of its own: an I/O
    /// failure or the importer's diagnosis.
    pub fn has_source(&self) -> (r: bool)
        ensures
            r == !(self is NoDestination || self is DestinationNamesNoFile
                || self is DestinationIsSource),
    {
        match self {
            ImportRomError::CreateDirFailed { .. }
            | ImportRomError::OpenDirFailed { .. }
            | ImportRomError::TempFileFailed { .. }
            | ImportRomError::PublishFailed { .. }
            | ImportRomError::Import { .. } => true,
            ImportRomError::NoDestination
            | ImportRomError::DestinationNamesNoFile { .. }
            | ImportRomError::DestinationIsSource { .. } => false,
        }
    }
}

} // verus!
