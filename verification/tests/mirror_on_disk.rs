use fs_extra::dir::{CopyOptions, TransitProcess, TransitProcessResult};
use mirror_watch::options::{CopyFlags, SyncOptions};
use mirror_watch::pipeline::{Cli, Pipeline, Stage, StageEnd};
use mirror_watch::progress::{ProgressDecision, ProgressSample};
use mirror_watch::record::{LogLevel, LogRecord};
use mirror_watch::sync::{SyncError, SyncEvent, SyncPhase, Synchronizer};

fn backend_options(flags: CopyFlags) -> CopyOptions {
    let mut options = CopyOptions::new();
    options.overwrite = flags.overwrite;
    options.skip_exist = flags.skip_exist;
    options.buffer_size = flags.buffer_size;
    options.copy_inside = flags.copy_inside;
    options.content_only = flags.content_only;
    options.depth = flags.depth;
    options
}

fn backend_decision(decision: ProgressDecision) -> TransitProcessResult {
    match decision {
        ProgressDecision::Continue => TransitProcessResult::ContinueOrAbort,
        ProgressDecision::Abort => TransitProcessResult::Abort,
    }
}

fn cause<E: std::fmt::Debug>(error: E) -> String {
    format!("{:?}", error)
}

/// Drives a synchronizer against the real file system, as a driver would,
/// and returns what it logged.
fn drive(machine: &mut Synchronizer) -> Vec<LogRecord> {
    let mut log: Vec<LogRecord> = Vec::new();
    loop {
        let event = match machine.phase() {
            SyncPhase::Probe => SyncEvent::Probed {
                present: std::path::Path::new(machine.destination()).exists(),
            },
            SyncPhase::Create => SyncEvent::Created {
                error: fs_extra::dir::create_all(machine.destination(), false).err().map(cause),
            },
            SyncPhase::Measure => SyncEvent::Measured {
                result: fs_extra::dir::get_size(machine.source()).map_err(cause),
            },
            SyncPhase::Copy { bytes_total } => {
                let bytes_total = *bytes_total;
                let options = backend_options(machine.options().copy_flags());
                let source = machine.source().to_string();
                let destination = machine.destination().to_string();
                let result = {
                    let handler = |process: TransitProcess| {
                        let bytes_copied = process.copied_bytes;
                        log.extend(machine.step(SyncEvent::Progress { bytes_copied }));
                        backend_decision(ProgressSample::new(bytes_copied, bytes_total).decision())
                    };
                    fs_extra::dir::copy_with_progress(&source, &destination, &options, handler)
                };
                SyncEvent::Copied { error: result.err().map(cause) }
            }
            SyncPhase::Done(_) => return log,
        };
        log.extend(machine.step(event));
    }
}

fn fresh(name: &str) -> String {
    let root = format!("/tmp/mirror_watch_tests/{}", name);
    let _ = fs_extra::dir::remove(&root);
    fs_extra::dir::create_all(&root, true).unwrap();
    root
}

fn write(path: &str, bytes: usize, fill: char) {
    let content: String = std::iter::repeat(fill).take(bytes).collect();
    fs_extra::file::write_all(path, &content).unwrap();
}

fn read(path: &str) -> String {
    fs_extra::file::read_to_string(path).unwrap()
}

/// A source tree with `roms/a.bin` of 100 bytes and `saves/b.sav` of 50.
fn two_file_source(root: &str) -> String {
    let source = format!("{}/local", root);
    fs_extra::dir::create_all(format!("{}/roms", source), false).unwrap();
    fs_extra::dir::create_all(format!("{}/saves", source), false).unwrap();
    write(&format!("{}/roms/a.bin", source), 100, 'a');
    write(&format!("{}/saves/b.sav", source), 50, 'b');
    source
}

fn mirror(source: &str, destination: &str) -> (Synchronizer, Vec<LogRecord>) {
    let mut machine =
        Synchronizer::new(SyncOptions::mirror(), source.to_string(), destination.to_string());
    let log = drive(&mut machine);
    (machine, log)
}

#[test]
fn fresh_mirror_copies_both_files_and_logs_full_progress() {
    let root = fresh("fresh_mirror");
    let source = two_file_source(&root);
    let destination = format!("{}/network", root);

    let (machine, log) = mirror(&source, &destination);

    assert_eq!(machine.outcome(), Some(Ok(())));
    assert_eq!(read(&format!("{}/roms/a.bin", destination)), "a".repeat(100));
    assert_eq!(read(&format!("{}/saves/b.sav", destination)), "b".repeat(50));
    assert_eq!(
        log[0],
        LogRecord {
            level: LogLevel::Info,
            message: format!(
                "network emulation directory: {} does not exist, creating",
                destination
            ),
        }
    );
    assert!(log.iter().any(|r| r.message.contains("100.00%")));
    assert_eq!(
        log.last().unwrap().message,
        "emulation folder synchronisation progress: 100.00%"
    );
    assert!(log.iter().all(|r| r.level == LogLevel::Info));
    let _ = fs_extra::dir::remove(&root);
}

#[test]
fn second_mirror_leaves_a_changed_upstream_file_alone() {
    let root = fresh("second_mirror");
    let source = two_file_source(&root);
    let destination = format!("{}/network", root);
    mirror(&source, &destination);

    write(&format!("{}/saves/b.sav", source), 60, 'c');
    let (machine, log) = mirror(&source, &destination);

    assert_eq!(machine.outcome(), Some(Ok(())));
    assert_eq!(read(&format!("{}/saves/b.sav", destination)), "b".repeat(50));
    assert_eq!(read(&format!("{}/roms/a.bin", destination)), "a".repeat(100));
    assert_eq!(log, Vec::<LogRecord>::new());
    let _ = fs_extra::dir::remove(&root);
}

#[test]
fn existing_destination_entries_keep_their_bytes() {
    let root = fresh("non_destructive");
    let source = two_file_source(&root);
    let destination = format!("{}/network", root);
    fs_extra::dir::create_all(format!("{}/roms", destination), false).unwrap();
    write(&format!("{}/roms/a.bin", destination), 7, 'z');
    write(&format!("{}/roms/only_here.bin", destination), 3, 'y');

    let (machine, _log) = mirror(&source, &destination);

    assert_eq!(machine.outcome(), Some(Ok(())));
    assert_eq!(read(&format!("{}/roms/a.bin", destination)), "zzzzzzz");
    assert_eq!(read(&format!("{}/roms/only_here.bin", destination)), "yyy");
    let _ = fs_extra::dir::remove(&root);
}

#[test]
fn absent_entries_arrive_with_the_bytes_of_the_source() {
    let root = fresh("completeness");
    let source = two_file_source(&root);
    fs_extra::dir::create_all(format!("{}/roms/deep/deeper", source), false).unwrap();
    write(&format!("{}/roms/deep/deeper/c.bin", source), 9, 'c');
    fs_extra::dir::create_all(format!("{}/empty", source), false).unwrap();
    let destination = format!("{}/network", root);
    fs_extra::dir::create_all(format!("{}/roms", destination), false).unwrap();
    write(&format!("{}/roms/a.bin", destination), 7, 'z');

    mirror(&source, &destination);

    assert_eq!(read(&format!("{}/saves/b.sav", destination)), "b".repeat(50));
    assert_eq!(read(&format!("{}/roms/deep/deeper/c.bin", destination)), "c".repeat(9));
    assert!(std::path::Path::new(&format!("{}/empty", destination)).is_dir());
    assert!(!std::path::Path::new(&format!("{}/local", destination)).exists());
    assert_eq!(read(&format!("{}/roms/a.bin", source)), "a".repeat(100));
    let _ = fs_extra::dir::remove(&root);
}

#[test]
fn mirroring_twice_gives_the_tree_of_mirroring_once() {
    let root = fresh("idempotence");
    let source = two_file_source(&root);
    let once = format!("{}/once", root);
    let twice = format!("{}/twice", root);

    mirror(&source, &once);
    mirror(&source, &twice);
    let (machine, log) = mirror(&source, &twice);

    assert_eq!(machine.outcome(), Some(Ok(())));
    assert_eq!(log, Vec::<LogRecord>::new());
    let listing = |root: &str| {
        let content = fs_extra::dir::get_dir_content(root).unwrap();
        let strip = |paths: Vec<String>| {
            let mut names: Vec<String> =
                paths.iter().map(|p| p[root.len()..].to_string()).collect();
            names.sort();
            names
        };
        (strip(content.files), strip(content.directories))
    };
    assert_eq!(listing(&once), listing(&twice));
    for file in ["roms/a.bin", "saves/b.sav"] {
        assert_eq!(read(&format!("{}/{}", once, file)), read(&format!("{}/{}", twice, file)));
    }
    let _ = fs_extra::dir::remove(&root);
}

#[test]
fn a_failing_copy_is_logged_and_the_run_goes_on_to_watch() {
    let root = fresh("failing_copy");
    let source = two_file_source(&root);
    let destination = format!("{}/network", root);
    fs_extra::dir::create_all(&destination, false).unwrap();
    // A file where the source has a directory: nothing can be copied below it.
    write(&format!("{}/roms", destination), 1, 'x');

    let cli = Cli {
        local_emulation_directory: source.clone(),
        network_emulation_directory: destination.clone(),
    };
    let mut pipeline = Pipeline::mirror_and_watch(cli);
    let (_start, mut machine) = pipeline.begin_sync().unwrap();
    let log = drive(&mut machine);

    assert_eq!(machine.outcome(), Some(Ok(())));
    let errors: Vec<&LogRecord> = log.iter().filter(|r| r.level == LogLevel::Error).collect();
    assert_eq!(errors.len(), 1);
    assert!(errors[0].message.starts_with("sync directories error: "));
    assert_eq!(read(&format!("{}/roms", destination)), "x");

    assert_eq!(pipeline.step(StageEnd::Synced(machine.outcome().unwrap())), None);
    assert_eq!(pipeline.stage(), Stage::Watch);
    let _ = fs_extra::dir::remove(&root);
}

#[test]
fn a_destination_that_cannot_be_created_fails_the_synchronization() {
    let root = fresh("create_failed");
    let source = two_file_source(&root);
    write(&format!("{}/blocker", root), 1, 'x');
    let destination = format!("{}/blocker/network", root);

    let (machine, log) = mirror(&source, &destination);

    match machine.outcome() {
        Some(Err(SyncError::CreateFailed { cause })) => assert!(!cause.is_empty()),
        other => panic!("unexpected outcome {:?}", other),
    }
    assert_eq!(log.len(), 1);
    assert_eq!(
        log[0].message,
        format!("network emulation directory: {} does not exist, creating", destination)
    );
    let _ = fs_extra::dir::remove(&root);
}

#[test]
fn the_back_end_writes_an_existing_entry_exactly_when_the_policy_says_so() {
    for (overwrite, skip_existing) in [(false, false), (false, true), (true, false), (true, true)] {
        let root = fresh(&format!("policy_{}_{}", overwrite, skip_existing));
        let source = format!("{}/local", root);
        let destination = format!("{}/network", root);
        fs_extra::dir::create_all(&source, false).unwrap();
        fs_extra::dir::create_all(&destination, false).unwrap();
        write(&format!("{}/held.bin", source), 4, 's');
        write(&format!("{}/held.bin", destination), 2, 'd');

        let options = SyncOptions { overwrite, skip_existing, copy_contents_only: true };
        let mut machine = Synchronizer::new(options, source.clone(), destination.clone());
        drive(&mut machine);

        assert_eq!(machine.outcome(), Some(Ok(())));
        let expected = if options.writes(true) { "ssss" } else { "dd" };
        assert_eq!(
            read(&format!("{}/held.bin", destination)),
            expected,
            "overwrite {} skip_existing {}",
            overwrite,
            skip_existing
        );
        assert_eq!(options.writes(true), options.replaces_existing());
        assert_eq!(read(&format!("{}/held.bin", source)), "ssss");
        let _ = fs_extra::dir::remove(&root);
    }
}

#[test]
fn the_back_end_writes_an_absent_entry_under_every_policy() {
    for (overwrite, skip_existing) in [(false, false), (false, true), (true, false), (true, true)] {
        let root = fresh(&format!("absent_{}_{}", overwrite, skip_existing));
        let source = format!("{}/local", root);
        let destination = format!("{}/network", root);
        fs_extra::dir::create_all(format!("{}/sub", source), false).unwrap();
        write(&format!("{}/sub/new.bin", source), 4, 's');

        let options = SyncOptions { overwrite, skip_existing, copy_contents_only: true };
        let mut machine = Synchronizer::new(options, source.clone(), destination.clone());
        drive(&mut machine);

        assert!(options.writes(false));
        assert_eq!(machine.outcome(), Some(Ok(())));
        assert_eq!(read(&format!("{}/sub/new.bin", destination)), "ssss");
        let _ = fs_extra::dir::remove(&root);
    }
}
