//! Where an imported pack goes, and how its path splits into the directory
//! that is pinned and the name published inside it.
//!
//! Paths are kept as the platform's own encoded bytes from end to end, so the
//! name the player's path spells is the name published, byte for byte, even
//! when it is not UTF-8.
//!
//! The destination follows the same precedence the pack loader reads it back
//! with, so an import and the next run agree: `$POKEEMERALD_PACK`, if set and
//! non-empty, wins outright; otherwise the OS user-data pack path. There is
//! no third rung.
use vstd::prelude::*;

verus! {

/// The environment variable naming an explicit pack path.
pub const PACK_PATH_ENV: &'static str = "POKEEMERALD_PACK";

/// A pack destination: its encoded bytes, beside the parent and the final
/// component the platform's path grammar gives it (`Path::parent` and
/// `Path::file_name`, each in encoded bytes).
#[derive(Debug, PartialEq, Eq)]
pub struct PackPath {
    /// The whole path, in the platform's encoding.
    pub bytes: Vec<u8>,
    /// The path's parent, if it has one.
    pub parent: Option<Vec<u8>>,
    /// The path's final normal component, if it has one.
    pub file_name: Option<Vec<u8>>,
}

/// The view of an optional byte string.
pub open spec fn opt_bytes(v: Option<Vec<u8>>) -> Option<Seq<u8>> {
    match v {
        Some(v) => Some(v@),
        None => None,
    }
}

impl PackPath {
    /// A destination from its bytes and the two components of it.
    pub fn new(bytes: Vec<u8>, parent: Option<Vec<u8>>, file_name: Option<Vec<u8>>) -> (r: Self)
        ensures
            r == (PackPath { bytes, parent, file_name }),
    {
        PackPath { bytes, parent, file_name }
    }
}

/// Whether a character is a path separator on the target platform
/// (`std::path::is_separator`).
pub uninterp spec fn std_is_separator(c: char) -> bool;

/// `std::path::is_separator`.
///
/// The contract names the result [`std_is_separator`] and states what holds
/// on every platform: `/` is a separator, and a separator is `/` or `\`.
#[verifier::external_body]
fn is_separator(c: char) -> (r: bool)
    ensures
        r == std_is_separator(c),
        c == '/' ==> r,
        r ==> (c == '/' || c == '\\'),
{
    std::path::is_separator(c)
}

/// Whether an encoded byte is a path separator. Separators are ASCII, and
/// an ASCII byte is the character it encodes in every encoding a path may
/// have, so no other byte is one.
pub open spec fn separator_byte(b: u8) -> bool {
    b < 128 && std_is_separator(b as char)
}

/// Whether a path is spelled as a directory rather than as a file: it ends in
/// a separator, or in a `.` right after one.
pub open spec fn spec_names_a_directory(path: Seq<u8>) -> bool {
    if path.len() == 0 {
        false
    } else if path.last() == 46u8 {
        path.len() >= 2 && separator_byte(path[path.len() - 2])
    } else {
        separator_byte(path.last())
    }
}

/// Whether a byte is `/` or `\`.
pub open spec fn slash_byte(b: u8) -> bool {
    b == 47u8 || b == 92u8
}

fn separator_at(pack_path: &[u8], i: usize) -> (r: bool)
    requires
        i < pack_path@.len(),
    ensures
        r == separator_byte(pack_path@[i as int]),
        pack_path@[i as int] == 47u8 ==> r,
        r ==> slash_byte(pack_path@[i as int]),
{
    let b = pack_path[i];
    if b < 128 {
        is_separator(b as char)
    } else {
        false
    }
}

/// Whether `pack_path` is spelled as a directory rather than as a file.
///
/// `Path::file_name` answers about components, and a trailing separator is
/// not one: `…/pokeemerald.pack/` and `…/pokeemerald.pack/.` both hand back
/// `pokeemerald.pack`. Publishing under that name writes a file the player's
/// own path cannot reach. A trailing `.` is a directory spelling only after a
/// separator: `pokeemerald.pack.` is a file name that happens to end in one.
pub fn names_a_directory(pack_path: &[u8]) -> (r: bool)
    ensures
        r == spec_names_a_directory(pack_path@),
        r ==> pack_path@.len() > 0 && (if pack_path@.last() == 46u8 {
            pack_path@.len() >= 2 && slash_byte(pack_path@[pack_path@.len() - 2])
        } else {
            slash_byte(pack_path@.last())
        }),
        pack_path@.len() > 0 && pack_path@.last() == 47u8 ==> r,
        pack_path@.len() >= 2 && pack_path@.last() == 46u8 && pack_path@[pack_path@.len() - 2]
            == 47u8 ==> r,
{
    let n = pack_path.len();
    if n == 0 {
        return false;
    }
    if pack_path[n - 1] == 46u8 {
        if n >= 2 {
            separator_at(pack_path, n - 2)
        } else {
            false
        }
    } else {
        separator_at(pack_path, n - 1)
    }
}

/// The directory the pack file lives in, from the path's parent: the parent
/// itself, or the current directory for a bare name or an empty parent.
pub open spec fn spec_pack_directory(parent: Option<Seq<u8>>) -> Seq<u8> {
    match parent {
        Some(parent) if parent.len() > 0 => parent,
        _ => seq![46u8],
    }
}

/// The directory the pack file lives in.
///
/// A bare file name has no parent, and a parent of `""` is not a directory
/// any OS accepts, so both become the current directory.
pub fn pack_directory(pack_path: &PackPath) -> (r: Vec<u8>)
    ensures
        r@ == spec_pack_directory(opt_bytes(pack_path.parent)),
{
    match &pack_path.parent {
        Some(parent) if parent.len() > 0 => {
            let r = parent.clone();
            proof {
                assert(r@ =~= parent@);
            }
            r
        },
        _ => vec![46u8],
    }
}

/// The pack file's own name inside its directory: none for a path spelled
/// as a directory, otherwise the path's final component.
pub open spec fn spec_pack_name(bytes: Seq<u8>, file_name: Option<Seq<u8>>) -> Option<Seq<u8>> {
    if spec_names_a_directory(bytes) {
        None
    } else {
        file_name
    }
}

/// The pack file's own name inside [`pack_directory`].
///
/// A path with no final component (a bare `..`, a filesystem root) names no
/// file to publish and is `None`, so is one spelled as a directory.
pub fn pack_name(pack_path: &PackPath) -> (r: Option<Vec<u8>>)
    ensures
        opt_bytes(r) == spec_pack_name(pack_path.bytes@, opt_bytes(pack_path.file_name)),
{
    if names_a_directory(pack_path.bytes.as_slice()) {
        return None;
    }
    match &pack_path.file_name {
        Some(name) => {
            let r = name.clone();
            proof {
                assert(r@ =~= name@);
            }
            Some(r)
        },
        None => None,
    }
}

} // verus!
