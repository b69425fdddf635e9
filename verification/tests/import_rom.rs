use std::collections::{BTreeMap, BTreeSet};
use std::path::Path;

use pokeemerald_rs::import_error::ImportRomError;
use pokeemerald_rs::import_rom::{
    destination, import_rom, temp_name, ImportAction, ImportEvent, ImportOutcome, ImportRun,
    ImportStage, TEMP_NAME_MAX_LEN, TEMP_PREFIX,
};
use pokeemerald_rs::pack_path::{names_a_directory, pack_directory, pack_name, PackPath, PACK_PATH_ENV};

const TEMP_NAME: &[u8] = b".pokeemerald-rs-import.1.tmp";

/// A destination spelled in UTF-8, with the components `std::path` gives it.
fn pack(path: &str) -> PackPath {
    let p = Path::new(path);
    PackPath::new(
        path.as_bytes().to_vec(),
        p.parent().map(|q| q.as_os_str().as_encoded_bytes().to_vec()),
        p.file_name().map(|n| n.as_encoded_bytes().to_vec()),
    )
}

fn b(s: &str) -> Vec<u8> {
    s.as_bytes().to_vec()
}

/// An in-memory filesystem that performs the operations an import asks for.
#[derive(Default)]
struct MemFs {
    dirs: BTreeSet<Vec<u8>>,
    files: BTreeMap<Vec<u8>, Vec<u8>>,
    /// Fail the rename that publishes the pack.
    publish_fails: bool,
    /// Fail the write into the temporary file.
    write_fails: bool,
    log: Vec<String>,
}

fn join(dir: &[u8], name: &[u8]) -> Vec<u8> {
    let mut path = dir.to_vec();
    path.push(b'/');
    path.extend_from_slice(name);
    path
}

impl MemFs {
    fn with_dir(dir: &str) -> Self {
        let mut fs = MemFs::default();
        fs.dirs.insert(b(dir));
        fs
    }

    fn file(&self, path: &str) -> &[u8] {
        &self.files[path.as_bytes()]
    }

    fn files_in(&self, dir: &str) -> Vec<String> {
        let prefix = join(dir.as_bytes(), b"");
        self.files
            .keys()
            .filter_map(|k| k.strip_prefix(prefix.as_slice()))
            .filter(|k| !k.contains(&b'/'))
            .map(|k| String::from_utf8_lossy(k).into_owned())
            .collect()
    }

    /// Runs an import to its end with `import` standing in for the importer.
    fn run(
        &mut self,
        rom_path: &str,
        pack_path: &str,
        import: Result<(usize, Vec<u8>), String>,
    ) -> Result<ImportOutcome, ImportRomError> {
        self.run_to(rom_path, pack(pack_path), import)
    }

    fn run_to(
        &mut self,
        rom_path: &str,
        pack_path: PackPath,
        import: Result<(usize, Vec<u8>), String>,
    ) -> Result<ImportOutcome, ImportRomError> {
        let (run, action) = ImportRun::new(b(rom_path), pack_path);
        self.drive(run, action, rom_path, import)
    }

    fn drive(
        &mut self,
        mut run: ImportRun,
        mut action: ImportAction,
        rom_path: &str,
        import: Result<(usize, Vec<u8>), String>,
    ) -> Result<ImportOutcome, ImportRomError> {
        let mut dir = Vec::new();
        let mut temp = Vec::new();
        let mut built: Vec<u8> = Vec::new();
        loop {
            let event = match action {
                ImportAction::OpenRom { path } => {
                    self.log.push("open-rom".into());
                    if self.files.contains_key(&path) {
                        ImportEvent::Done
                    } else {
                        ImportEvent::RomOpenFailed(format!(
                            "could not read the ROM `{}`",
                            String::from_utf8_lossy(&path)
                        ))
                    }
                }
                ImportAction::CreateDirectory { dir: d } => {
                    self.log.push("create-dir".into());
                    let existed = self.dirs.contains(&d);
                    self.dirs.insert(d.clone());
                    dir = d;
                    ImportEvent::DirectoryReady { existed }
                }
                ImportAction::OpenDirectory { dir: d } => {
                    self.log.push("open-dir".into());
                    if self.dirs.contains(&d) {
                        ImportEvent::Done
                    } else {
                        ImportEvent::Failed("No such file or directory".into())
                    }
                }
                ImportAction::CheckSameFile { name } => {
                    self.log.push("same-file".into());
                    ImportEvent::SameFile(join(&dir, &name) == rom_path.as_bytes())
                }
                ImportAction::CreateTemp => {
                    self.log.push("create-temp".into());
                    let path = join(&dir, TEMP_NAME);
                    if self.files.contains_key(&path) {
                        ImportEvent::TempFailed {
                            path,
                            source: "File exists (os error 17)".into(),
                        }
                    } else {
                        self.files.insert(path.clone(), Vec::new());
                        temp = TEMP_NAME.to_vec();
                        ImportEvent::TempCreated { name: TEMP_NAME.to_vec(), path }
                    }
                }
                ImportAction::RunImport => {
                    self.log.push("import".into());
                    match &import {
                        Ok((entries, bytes)) => {
                            built = bytes.clone();
                            ImportEvent::Imported {
                                entry_count: *entries,
                                pack_bytes: bytes.len(),
                            }
                        }
                        Err(message) => ImportEvent::ImportFailed(message.clone()),
                    }
                }
                ImportAction::WriteTemp => {
                    self.log.push("write".into());
                    if self.write_fails {
                        ImportEvent::Failed("No space left on device".into())
                    } else {
                        self.files.insert(join(&dir, &temp), built.clone());
                        ImportEvent::Done
                    }
                }
                ImportAction::Publish { from, to } => {
                    self.log.push("publish".into());
                    if self.publish_fails {
                        ImportEvent::Failed("Permission denied".into())
                    } else {
                        let bytes = self.files.remove(&join(&dir, &from)).expect("the temp file");
                        self.files.insert(join(&dir, &to), bytes);
                        ImportEvent::Done
                    }
                }
                ImportAction::DiscardTemp { name } => {
                    self.log.push("discard".into());
                    self.files.remove(&join(&dir, &name));
                    ImportEvent::Done
                }
                ImportAction::RemoveDirectory { dir: d } => {
                    self.log.push("remove-dir".into());
                    if self.files_in(&String::from_utf8_lossy(&d)).is_empty() {
                        self.dirs.remove(&d);
                    }
                    ImportEvent::Done
                }
                ImportAction::Finish(result) => return result,
            };
            action = run.step(event);
        }
    }
}

#[test]
fn a_successful_import_publishes_the_pack_and_clears_the_temp_file() {
    let mut fs = MemFs::with_dir("/tmp/t");
    fs.files.insert("/roms/emerald.gba".into(), b"rom".to_vec());
    let pack_path = "/tmp/t/nested/pokeemerald.pack";
    let outcome = fs
        .run("/roms/emerald.gba", pack_path, Ok((7, b"pack bytes".to_vec())))
        .expect("the import succeeds");

    assert_eq!(fs.file(pack_path), b"pack bytes");
    assert_eq!(outcome.pack_path(), pack_path.as_bytes());
    assert_eq!(outcome.entry_count(), 7);
    assert_eq!(outcome.pack_bytes(), 10);
    assert_eq!(fs.files_in("/tmp/t/nested"), ["pokeemerald.pack"]);
    assert_eq!(
        fs.log,
        ["open-rom", "create-dir", "open-dir", "same-file", "create-temp", "import", "write", "publish"]
    );
}

#[test]
fn a_failed_import_leaves_neither_a_pack_nor_a_partial_file() {
    let mut fs = MemFs::with_dir("/tmp/t");
    fs.files.insert("/roms/emerald.gba".into(), b"rom".to_vec());
    let err = fs
        .run("/roms/emerald.gba", "/tmp/t/pokeemerald.pack", Err("no pack was written".into()))
        .unwrap_err();
    assert_eq!(err, ImportRomError::Import { message: "no pack was written".into() });
    assert!(fs.files_in("/tmp/t").is_empty());
}

#[test]
fn a_failed_import_removes_the_directory_it_created() {
    let mut fs = MemFs::with_dir("/tmp/t");
    fs.files.insert("/roms/emerald.gba".into(), b"rom".to_vec());
    let err = fs
        .run("/roms/emerald.gba", "/tmp/t/pokeemerald-rs/pokeemerald.pack", Err("empty".into()))
        .unwrap_err();
    assert!(matches!(err, ImportRomError::Import { .. }));
    assert!(!fs.dirs.contains(&b("/tmp/t/pokeemerald-rs")));
    assert_eq!(fs.log[fs.log.len() - 2..], ["discard", "remove-dir"]);
}

#[test]
fn an_import_into_an_existing_directory_leaves_it_alone() {
    let mut fs = MemFs::with_dir("/tmp/t");
    fs.files.insert("/roms/emerald.gba".into(), b"rom".to_vec());
    let err = fs
        .run("/roms/emerald.gba", "/tmp/t/pokeemerald.pack", Err("empty".into()))
        .unwrap_err();
    assert!(matches!(err, ImportRomError::Import { .. }));
    assert!(fs.dirs.contains(&b("/tmp/t")));
    assert!(!fs.log.contains(&"remove-dir".to_string()));
}

#[test]
fn an_existing_pack_survives_a_failed_import() {
    let mut fs = MemFs::with_dir("/tmp/t");
    fs.files.insert("/roms/emerald.gba".into(), b"rom".to_vec());
    fs.files.insert("/tmp/t/pokeemerald.pack".into(), b"the pack that already worked".to_vec());
    let err = fs
        .run("/roms/emerald.gba", "/tmp/t/pokeemerald.pack", Err("empty".into()))
        .unwrap_err();
    assert!(matches!(err, ImportRomError::Import { .. }));
    assert_eq!(fs.file("/tmp/t/pokeemerald.pack"), b"the pack that already worked");
    assert_eq!(fs.files_in("/tmp/t"), ["pokeemerald.pack"]);
}

#[test]
fn a_missing_rom_reports_a_read_failure_and_writes_nothing() {
    let mut fs = MemFs::with_dir("/tmp/t");
    let err = fs
        .run("/tmp/t/not-here.gba", "/tmp/t/pokeemerald.pack", Ok((1, b"x".to_vec())))
        .unwrap_err();
    assert_eq!(
        err,
        ImportRomError::Import { message: "could not read the ROM `/tmp/t/not-here.gba`".into() }
    );
    assert_eq!(fs.log, ["open-rom"]);
    assert!(fs.files_in("/tmp/t").is_empty());
}

#[test]
fn a_taken_temp_name_is_refused_and_its_file_is_left_alone() {
    let mut fs = MemFs::with_dir("/tmp/t");
    fs.files.insert("/roms/emerald.gba".into(), b"rom".to_vec());
    fs.files.insert(join(b"/tmp/t", TEMP_NAME), b"someone else's".to_vec());
    let err = fs
        .run("/roms/emerald.gba", "/tmp/t/pokeemerald.pack", Ok((1, b"x".to_vec())))
        .unwrap_err();
    assert_eq!(
        err,
        ImportRomError::TempFileFailed {
            temp_path: join(b"/tmp/t", TEMP_NAME),
            source: "File exists (os error 17)".into()
        }
    );
    assert_eq!(fs.files[&join(b"/tmp/t", TEMP_NAME)], b"someone else's");
    assert!(!fs.log.contains(&"discard".to_string()), "nothing of this run's to discard");
}

#[test]
fn a_failed_write_discards_the_partial_file() {
    let mut fs = MemFs::with_dir("/tmp/t");
    fs.files.insert("/roms/emerald.gba".into(), b"rom".to_vec());
    fs.write_fails = true;
    let err = fs
        .run("/roms/emerald.gba", "/tmp/t/pokeemerald.pack", Ok((1, b"x".to_vec())))
        .unwrap_err();
    assert!(matches!(err, ImportRomError::TempFileFailed { .. }));
    assert!(fs.files_in("/tmp/t").is_empty());
}

#[test]
fn a_failed_publish_names_both_files_and_removes_the_temporary_one() {
    let mut fs = MemFs::with_dir("/tmp/t");
    fs.files.insert("/roms/emerald.gba".into(), b"rom".to_vec());
    fs.publish_fails = true;
    let err = fs
        .run("/roms/emerald.gba", "/tmp/t/pokeemerald.pack", Ok((1, b"x".to_vec())))
        .unwrap_err();
    assert_eq!(
        err,
        ImportRomError::PublishFailed {
            temp_path: join(b"/tmp/t", TEMP_NAME),
            pack_path: "/tmp/t/pokeemerald.pack".into(),
            source: "Permission denied".into()
        }
    );
    assert!(fs.files_in("/tmp/t").is_empty());
}

#[test]
fn a_pack_destination_pointing_at_the_rom_is_refused_with_the_rom_intact() {
    let mut fs = MemFs::with_dir("/tmp/t");
    fs.files.insert("/tmp/t/fixture.gba".into(), b"rom".to_vec());
    let err = fs
        .run("/tmp/t/fixture.gba", "/tmp/t/fixture.gba", Ok((1, b"pack bytes".to_vec())))
        .unwrap_err();
    assert_eq!(err, ImportRomError::DestinationIsSource { rom_path: "/tmp/t/fixture.gba".into() });
    assert_eq!(fs.file("/tmp/t/fixture.gba"), b"rom");
    assert_eq!(fs.files_in("/tmp/t"), ["fixture.gba"]);
    assert!(!fs.log.contains(&"create-temp".to_string()));
}

#[test]
fn a_destination_naming_no_file_is_refused_before_anything_is_written() {
    let mut fs = MemFs::with_dir("/tmp/t");
    fs.files.insert("/roms/emerald.gba".into(), b"rom".to_vec());
    let err = fs
        .run("/roms/emerald.gba", "/tmp/t/..", Ok((1, b"pack bytes".to_vec())))
        .unwrap_err();
    assert_eq!(err, ImportRomError::DestinationNamesNoFile { pack_path: "/tmp/t/..".into() });
    assert_eq!(fs.log, ["open-rom"]);
    assert!(fs.files_in("/tmp/t").is_empty());
}

#[test]
fn a_destination_spelled_as_a_directory_names_no_file() {
    assert!(names_a_directory(b"/data/pokeemerald.pack/"));
    assert!(names_a_directory(b"/data/pokeemerald.pack/."));
    assert!(!names_a_directory(b"/data/pokeemerald.pack."));
    assert!(!names_a_directory(b"/data/pokeemerald.pack"));
    assert!(!names_a_directory(b""));
    assert_eq!(pack_name(&pack("/data/pokeemerald.pack/")), None);
    assert_eq!(pack_name(&pack("/data/pokeemerald.pack/.")), None);
    assert_eq!(pack_name(&pack("/data/..")), None);
}

#[test]
fn a_bare_pack_name_lands_in_the_current_directory() {
    assert_eq!(pack_directory(&pack("pokeemerald.pack")), b("."));
    assert_eq!(pack_name(&pack("pokeemerald.pack")), Some(b("pokeemerald.pack")));
}

#[test]
fn a_nested_destination_splits_into_its_directory_and_name() {
    let pack_path = "/data/pokeemerald-rs/pokeemerald.pack";
    assert_eq!(pack_directory(&pack(pack_path)), b("/data/pokeemerald-rs"));
    assert_eq!(pack_name(&pack(pack_path)), Some(b("pokeemerald.pack")));
}

#[test]
fn an_explicit_pack_path_wins_and_an_empty_one_falls_back() {
    assert_eq!(
        destination(Some(pack("/explicit.pack")), Some(pack("/user.pack"))),
        Ok(pack("/explicit.pack"))
    );
    assert_eq!(destination(Some(pack("")), Some(pack("/user.pack"))), Ok(pack("/user.pack")));
    assert_eq!(destination(None, Some(pack("/user.pack"))), Ok(pack("/user.pack")));
    assert_eq!(destination(Some(pack("")), None), Err(ImportRomError::NoDestination));
}

#[test]
fn import_rom_starts_by_opening_the_rom_at_the_resolved_destination() {
    let (run, action) =
        import_rom(b("/roms/emerald.gba"), None, Some(pack("/user/pokeemerald.pack")))
            .expect("a destination resolves");
    assert_eq!(action, ImportAction::OpenRom { path: b("/roms/emerald.gba") });
    assert_eq!(*run.stage(), ImportStage::OpeningRom);
    assert!(matches!(
        import_rom(b("/roms/emerald.gba"), None, None),
        Err(ImportRomError::NoDestination)
    ));
}

#[test]
fn a_finished_import_keeps_answering_with_its_result() {
    let mut fs = MemFs::with_dir("/tmp/t");
    let (mut run, action) = ImportRun::new(b("/missing.gba"), pack("/tmp/t/p.pack"));
    assert!(matches!(action, ImportAction::OpenRom { .. }));
    let first = run.step(ImportEvent::RomOpenFailed("gone".into()));
    let again = run.step(ImportEvent::Done);
    assert_eq!(first, again);
    fs.log.clear();
}

#[test]
fn the_outcome_renders_the_one_line_summary() {
    let outcome = ImportOutcome::new(b("/data/pokeemerald.pack"), 1234, 5678);
    assert_eq!(
        outcome.summary(),
        "imported 1234 entries (5678 bytes) to /data/pokeemerald.pack"
    );
}

#[test]
fn a_refused_no_file_destination_says_which_variable_to_change() {
    let rendered =
        ImportRomError::DestinationNamesNoFile { pack_path: "/data/..".into() }.message();
    assert!(rendered.contains("/data/.."), "{rendered}");
    assert!(rendered.contains(PACK_PATH_ENV), "{rendered}");
    assert!(!rendered.contains('\n'), "{rendered}");
}

#[test]
fn a_refused_same_file_destination_says_which_variable_to_change() {
    let rendered =
        ImportRomError::DestinationIsSource { rom_path: "/roms/emerald.gba".into() }.message();
    assert!(rendered.contains("/roms/emerald.gba"), "{rendered}");
    assert!(rendered.contains(PACK_PATH_ENV), "{rendered}");
    assert!(!rendered.contains('\n'), "{rendered}");
}

#[test]
fn a_missing_destination_says_which_variable_to_set() {
    let rendered = ImportRomError::NoDestination.message();
    assert!(rendered.contains(PACK_PATH_ENV), "{rendered}");
}

#[test]
fn the_import_error_renders_the_importers_own_message() {
    let err = ImportRomError::Import { message: "no pack was written".into() };
    assert_eq!(err.message(), "no pack was written");
    assert!(err.has_source());
    assert!(!ImportRomError::NoDestination.has_source());
}

#[test]
fn io_failures_render_with_their_paths_and_causes() {
    assert_eq!(
        ImportRomError::CreateDirFailed { path: "/d".into(), source: "denied".into() }.message(),
        "could not create `/d`: denied"
    );
    assert_eq!(
        ImportRomError::OpenDirFailed { path: "/d".into(), source: "gone".into() }.message(),
        "could not open `/d`: gone"
    );
    assert_eq!(
        ImportRomError::TempFileFailed { temp_path: "/d/t".into(), source: "full".into() }.message(),
        "could not build the asset pack in `/d/t`: full"
    );
    assert_eq!(
        ImportRomError::PublishFailed {
            temp_path: "/d/t".into(),
            pack_path: "/d/p".into(),
            source: "denied".into()
        }
        .message(),
        "could not publish the finished pack to `/d/p`: denied (the temporary file `/d/t` was removed)"
    );
}

#[test]
fn a_non_utf8_pack_name_is_published_byte_for_byte() {
    let mut fs = MemFs::with_dir("/tmp/t");
    fs.files.insert("/roms/emerald.gba".into(), b"rom".to_vec());
    let pack_path = PackPath::new(
        b"/tmp/t/pok\xe9mon.pack".to_vec(),
        Some(b"/tmp/t".to_vec()),
        Some(b"pok\xe9mon.pack".to_vec()),
    );
    let outcome = fs
        .run_to("/roms/emerald.gba", pack_path, Ok((1, b"pack bytes".to_vec())))
        .expect("the import succeeds");

    assert_eq!(outcome.pack_path(), b"/tmp/t/pok\xe9mon.pack");
    assert_eq!(fs.files[b"/tmp/t/pok\xe9mon.pack".as_slice()], b"pack bytes");
    assert_eq!(outcome.summary(), "imported 1 entries (10 bytes) to /tmp/t/pok\u{FFFD}mon.pack");
}

#[test]
fn a_non_utf8_path_is_shown_lossily_in_a_message() {
    let rendered = ImportRomError::CreateDirFailed {
        path: b"/d/pok\xe9mon".to_vec(),
        source: "denied".into(),
    }
    .message();
    assert_eq!(rendered, "could not create `/d/pok\u{FFFD}mon`: denied");
}

#[test]
fn a_separator_or_dot_after_a_non_ascii_byte_is_read_as_it_is() {
    assert!(names_a_directory(b"/data/pok\xe9mon/"));
    assert!(!names_a_directory(b"/data/pok\xe9."));
    assert!(!names_a_directory(b"/data/pok\xe9"));
}

#[test]
fn summaries_write_every_count_in_full() {
    let outcome = ImportOutcome::new(b("p"), 0, 1_000_000_007);
    assert_eq!(outcome.summary(), "imported 0 entries (1000000007 bytes) to p");
    let outcome = ImportOutcome::new(b("p"), usize::MAX, 10);
    assert_eq!(
        outcome.summary(),
        format!("imported {} entries (10 bytes) to p", usize::MAX)
    );
}

#[test]
fn a_temp_name_spells_its_numbers_after_the_fixed_prefix() {
    assert_eq!(temp_name(1234, 0xabc, 0, 0xff), ".pokeemerald-rs-import.1234.abc.0.ff.tmp");
    let widest = temp_name(u32::MAX, u128::MAX, u64::MAX, u64::MAX);
    assert_eq!(
        widest,
        format!("{TEMP_PREFIX}.{}.{:x}.{:x}.{:x}.tmp", u32::MAX, u128::MAX, u64::MAX, u64::MAX)
    );
    assert!(!widest.contains('/') && !widest.contains('\\'));
    assert_eq!(widest.len(), TEMP_NAME_MAX_LEN);
    assert!(temp_name(0, 0, 0, 0).len() < TEMP_NAME_MAX_LEN);
    assert_ne!(temp_name(7, 1, 0, 5), temp_name(7, 1, 1, 5));
}
