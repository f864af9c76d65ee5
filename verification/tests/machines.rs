use std::collections::{BTreeMap, BTreeSet};

use onetagger_worker::admission::{
    begin_admission, enqueue_startup_job, prepare_job, Admission, Pending,
};
use onetagger_worker::command::Cli;
use onetagger_worker::default_config::{
    ensure_default_config, DefaultConfigError, DefaultConfigPhase,
};
use onetagger_worker::destination::{
    unique_destination_path, DestinationError, DestinationSearch, SearchPhase,
};
use onetagger_worker::effects::{Action, CliOutput, Event};
use onetagger_worker::file_move::{move_file, FileMove, FileMoveError, FileMovePhase};
use onetagger_worker::intake::{take_in, Intake, IntakeAction, IntakeEvent};
use onetagger_worker::job_run::{cleanup_temp_playlist, JobError, RunPhase};
use onetagger_worker::jobs::{Job, JobRequest, Rejection};
use onetagger_worker::normalize::{
    normalize_cli_input_path, InputError, NormalizePhase, NormalizedInput,
};
use onetagger_worker::path::UnixPath;
use onetagger_worker::queue::{EnqueueReply, QueueState};
use onetagger_worker::single_move::{move_single_file_after_success, MoveError, MovePhase};
use onetagger_worker::tagged_dir::{ensure_tagged_dir, TaggedDirError, TaggedDirPhase};
use onetagger_worker::text::{bytes_of, show};
use onetagger_worker::worker::{Ended, Worker, WorkerAction, WorkerEvent};

const ID: u128 = 0x67e55044_10b1_426f_9247_bb680e5fe0c8;

fn path(s: &str) -> UnixPath {
    UnixPath::from_text(s)
}

/// A file system in memory, on which actions are carried out.
struct Disk {
    files: BTreeMap<Vec<u8>, Vec<u8>>,
    dirs: BTreeSet<Vec<u8>>,
    output: Option<CliOutput>,
    rename_fails: bool,
    copy_fails: bool,
    remove_fails: bool,
    create_fails: bool,
    write_fails: bool,
    log: Vec<String>,
}

impl Disk {
    fn new(dirs: &[&str], files: &[(&str, &str)]) -> Disk {
        Disk {
            files: files.iter().map(|(p, d)| (bytes_of(p), bytes_of(d))).collect(),
            dirs: dirs.iter().map(|p| bytes_of(p)).collect(),
            output: Some(CliOutput {
                success: true,
                status: "exit status: 0".to_string(),
                stdout: b"{}".to_vec(),
                stderr: Vec::new(),
            }),
            rename_fails: false,
            copy_fails: false,
            remove_fails: false,
            create_fails: false,
            write_fails: false,
            log: Vec::new(),
        }
    }

    fn file(&self, p: &str) -> Option<String> {
        self.files.get(&bytes_of(p)).map(|d| show(d))
    }

    fn outcome(ok: bool) -> Event {
        if ok {
            Event::Done
        } else {
            Event::Failed
        }
    }

    fn perform(&mut self, action: Action) -> Event {
        match action {
            Action::Exists(p) => {
                Event::Flag(self.files.contains_key(&p.bytes) || self.dirs.contains(&p.bytes))
            }
            Action::IsDir(p) => Event::Flag(self.dirs.contains(&p.bytes)),
            Action::IsFile(p) => Event::Flag(self.files.contains_key(&p.bytes)),
            Action::ReadFile(p) => match self.files.get(&p.bytes) {
                Some(data) => Event::Bytes(data.clone()),
                None => Event::Failed,
            },
            Action::CreateDirAll(p) => {
                self.log.push(format!("mkdir {}", p.display()));
                if !self.create_fails {
                    self.dirs.insert(p.bytes);
                }
                Disk::outcome(!self.create_fails)
            }
            Action::WriteFile(p, data) => {
                self.log.push(format!("write {}", p.display()));
                if !self.write_fails {
                    self.files.insert(p.bytes, data);
                }
                Disk::outcome(!self.write_fails)
            }
            Action::Rename(from, to) => {
                self.log.push(format!("rename {} {}", from.display(), to.display()));
                if self.rename_fails {
                    return Event::Failed;
                }
                let data = self.files.remove(&from.bytes).unwrap();
                self.files.insert(to.bytes, data);
                Event::Done
            }
            Action::Copy(from, to) => {
                self.log.push(format!("copy {} {}", from.display(), to.display()));
                if self.copy_fails {
                    return Event::Failed;
                }
                let data = self.files.get(&from.bytes).unwrap().clone();
                self.files.insert(to.bytes, data);
                Event::Done
            }
            Action::RemoveFile(p) => {
                self.log.push(format!("remove {}", p.display()));
                if self.remove_fails {
                    return Event::Failed;
                }
                Disk::outcome(self.files.remove(&p.bytes).is_some())
            }
            Action::Run(program, args) => {
                let shown: Vec<String> = args.iter().map(|a| show(a)).collect();
                self.log.push(format!("run {} {}", program, shown.join(" ")));
                match self.output.take() {
                    Some(output) => Event::Exited(output),
                    None => Event::Failed,
                }
            }
            Action::Nothing => panic!("nothing is left to do"),
        }
    }
}

fn normalize(disk: &mut Disk, requested: UnixPath) -> Result<NormalizedInput, InputError> {
    let mut m = normalize_cli_input_path(path("/config"), ID, requested);
    loop {
        match m.phase {
            NormalizePhase::Finished(result) => return result,
            _ => {
                let event = disk.perform(m.action());
                m = m.step(event);
            }
        }
    }
}

#[test]
fn normalize_single_file_creates_temp_playlist() {
    let mut disk = Disk::new(&["/config"], &[("/in/track.mp3", "fake mp3")]);

    let normalized = normalize(&mut disk, path("/in/track.mp3")).expect("normalize input");

    assert!(disk.files.contains_key(&normalized.cli_path.bytes));
    assert_eq!(normalized.temp_playlist, Some(normalized.cli_path.clone()));

    let playlist = disk.file(&normalized.cli_path.display()).expect("read playlist");
    assert!(playlist.contains("#EXTM3U"));
    assert!(playlist.contains("/in/track.mp3"));
    assert_eq!(playlist, "#EXTM3U\n/in/track.mp3\n");
    assert_eq!(normalized.cli_path.extension(), Some(b"m3u8".to_vec()));
    assert_eq!(
        normalized.cli_path,
        path("/config/queue/job-67e55044-10b1-426f-9247-bb680e5fe0c8.m3u8")
    );
}

#[test]
fn normalize_leaves_directories_and_playlists() {
    let mut disk = Disk::new(&["/music"], &[("/in/list.M3U", "")]);
    for p in ["/music", "/in/list.M3U"] {
        let normalized = normalize(&mut disk, path(p)).expect("normalize input");
        assert_eq!(normalized.cli_path, path(p));
        assert_eq!(normalized.temp_playlist, None);
    }
    assert!(disk.log.is_empty());
}

#[test]
fn normalize_fails() {
    let mut disk = Disk::new(&[], &[("/in/a.mp3", "")]);
    let nothing = normalize(&mut disk, path("/none")).unwrap_err();
    assert_eq!(nothing, InputError::NeitherDirectoryNorFile);
    assert_eq!(nothing.message(), "path is neither existing directory nor file");
    disk.create_fails = true;
    let dir = normalize(&mut disk, path("/in/a.mp3")).unwrap_err();
    assert_eq!(dir.message(), "failed creating queue dir /config/queue");
    disk.create_fails = false;
    disk.write_fails = true;
    let write = normalize(&mut disk, path("/in/a.mp3")).unwrap_err();
    assert_eq!(
        write.message(),
        "failed writing temp playlist /config/queue/job-67e55044-10b1-426f-9247-bb680e5fe0c8.m3u8"
    );
}

#[test]
fn different_jobs_have_different_playlists() {
    let one = normalize_cli_input_path(path("/config"), 1, path("/a.mp3"));
    let one = one.step(Event::Flag(false)).step(Event::Flag(true)).step(Event::Done);
    let two = normalize_cli_input_path(path("/config"), 2, path("/a.mp3"));
    let two = two.step(Event::Flag(false)).step(Event::Flag(true)).step(Event::Done);
    assert!(matches!(one.action(), Action::WriteFile(..)));
    assert_ne!(one.action(), two.action());
}

fn run_search(disk: &mut Disk, mut m: DestinationSearch) -> Result<UnixPath, DestinationError> {
    loop {
        match m.phase {
            SearchPhase::Finished(result) => return result,
            _ => {
                let event = disk.perform(m.action());
                m = m.step(event);
            }
        }
    }
}

#[test]
fn unique_destination_path_adds_suffix_on_conflict() {
    let mut disk = Disk::new(&["/tagged-dir"], &[("/tagged-dir/track.mp3", "existing")]);

    let search = unique_destination_path(path("/tagged-dir"), path("/input/track.mp3"));
    let candidate = run_search(&mut disk, search).expect("unique destination");

    assert_eq!(candidate, path("/tagged-dir").join_text("track (1).mp3"));
}

#[test]
fn destination_without_conflict_keeps_the_name() {
    let mut disk = Disk::new(&[], &[]);
    let search = unique_destination_path(path("/t/"), path("/input/track.mp3/."));
    assert_eq!(run_search(&mut disk, search).unwrap(), path("/t/track.mp3"));
}

#[test]
fn destination_numbers_count_up() {
    let mut disk = Disk::new(
        &[],
        &[("/t/a.tar.gz", ""), ("/t/a.tar (1).gz", ""), ("/t/a.tar (2).gz", "")],
    );
    let search = unique_destination_path(path("/t"), path("/in/a.tar.gz"));
    assert_eq!(run_search(&mut disk, search).unwrap(), path("/t/a.tar (3).gz"));
    let mut disk = Disk::new(&[], &[("/t/noext", ""), ("/t/.hidden", ""), ("/t/dot.", "")]);
    for (source, expected) in [
        ("/in/noext", "/t/noext (1)"),
        ("/in/.hidden", "/t/.hidden (1)"),
        ("/in/dot.", "/t/dot (1)"),
    ] {
        let search = unique_destination_path(path("/t"), path(source));
        assert_eq!(run_search(&mut disk, search).unwrap(), path(expected));
    }
}

#[test]
fn destination_with_bytes_that_are_not_utf8() {
    let odd_ext = UnixPath { bytes: vec![b'/', b'a', b'.', 0xff] };
    let mut disk = Disk::new(&[], &[]);
    disk.files.insert(vec![b'/', b't', b'/', b'a', b'.', 0xff], Vec::new());
    let search = unique_destination_path(path("/t"), odd_ext);
    assert_eq!(run_search(&mut disk, search).unwrap(), path("/t/a (1)"));

    let odd_stem = UnixPath { bytes: vec![b'/', 0xff, b'.', b'a'] };
    let search = unique_destination_path(path("/t"), odd_stem.clone());
    let free = run_search(&mut disk, search).unwrap();
    assert_eq!(free.bytes, vec![b'/', b't', b'/', 0xff, b'.', b'a']);
    disk.files.insert(free.bytes, Vec::new());
    let search = unique_destination_path(path("/t"), odd_stem.clone());
    let e = run_search(&mut disk, search).unwrap_err();
    assert_eq!(e, DestinationError::NoStem(odd_stem));
    assert_eq!(e.message(), "source path has no valid file stem: /\u{fffd}.a");
}

#[test]
fn candidates_differ_and_keep_the_extension() {
    let mut seen = BTreeSet::new();
    let mut search = unique_destination_path(path("/t"), path("/in/a.b.mp3"));
    for _ in 0..200 {
        match search.action() {
            Action::Exists(p) => {
                assert_eq!(p.extension(), Some(b"mp3".to_vec()));
                assert!(seen.insert(p.bytes));
            }
            other => panic!("{other:?}"),
        }
        search = search.step(Event::Flag(true));
    }
    assert!(seen.contains(&bytes_of("/t/a.b (199).mp3")));
}

#[test]
fn destination_fails() {
    let mut disk = Disk::new(&[], &[]);
    let search = unique_destination_path(path("/t"), path("/in/.."));
    let e = run_search(&mut disk, search).unwrap_err();
    assert_eq!(e.message(), "source path has no filename: /in/..");

    let mut search = unique_destination_path(path("/t"), path("/in/a.mp3"));
    let mut probes = 0;
    while search.action() != Action::Nothing {
        search = search.step(Event::Flag(true));
        probes += 1;
    }
    assert_eq!(probes, 10_000);
    match search.phase {
        SearchPhase::Finished(Err(e)) => assert_eq!(
            e.message(),
            "failed finding available destination filename in /t for /in/a.mp3"
        ),
        other => panic!("{other:?}"),
    }
}

fn run_move(disk: &mut Disk, mut m: FileMove) -> Result<(), FileMoveError> {
    loop {
        match m.phase {
            FileMovePhase::Finished(result) => return result,
            _ => {
                let event = disk.perform(m.action());
                m = m.step(event);
            }
        }
    }
}

#[test]
fn move_file_renames_to_destination() {
    let mut disk = Disk::new(&["/move-dir"], &[("/move-source.mp3", "tagged")]);

    let m = move_file(path("/move-source.mp3"), path("/move-dir").join_text("move-source.mp3"));
    run_move(&mut disk, m).expect("move file");

    assert_eq!(disk.file("/move-source.mp3"), None);
    assert_eq!(disk.file("/move-dir/move-source.mp3"), Some("tagged".to_string()));
}

#[test]
fn move_file_copies_where_it_cannot_rename() {
    let mut disk = Disk::new(&[], &[("/a", "x")]);
    disk.rename_fails = true;
    run_move(&mut disk, move_file(path("/a"), path("/b"))).expect("move file");
    assert_eq!(disk.file("/a"), None);
    assert_eq!(disk.file("/b"), Some("x".to_string()));
    assert_eq!(disk.log, ["rename /a /b", "copy /a /b", "remove /a"]);
}

#[test]
fn move_file_fails() {
    let mut disk = Disk::new(&[], &[("/a", "x")]);
    disk.rename_fails = true;
    disk.copy_fails = true;
    let e = run_move(&mut disk, move_file(path("/a"), path("/b"))).unwrap_err();
    assert_eq!(e.message(), "failed copying tagged file from /a to /b");
    assert_eq!(disk.file("/a"), Some("x".to_string()));
    disk.copy_fails = false;
    disk.remove_fails = true;
    let e = run_move(&mut disk, move_file(path("/a"), path("/b"))).unwrap_err();
    assert_eq!(e.message(), "failed removing source file after copy fallback: /a");
    assert_eq!(disk.file("/b"), Some("x".to_string()));
}

fn check_tagged(disk: &mut Disk, p: &str) -> Result<(), TaggedDirError> {
    let mut m = ensure_tagged_dir(path(p));
    loop {
        match m.phase {
            TaggedDirPhase::Finished(result) => return result,
            _ => {
                let event = disk.perform(m.action());
                m = m.step(event);
            }
        }
    }
}

#[test]
fn tagged_directory() {
    let mut disk = Disk::new(&["/t"], &[("/f", "")]);
    assert_eq!(check_tagged(&mut disk, "/t"), Ok(()));
    assert!(disk.log.is_empty());
    assert_eq!(check_tagged(&mut disk, "/new"), Ok(()));
    assert_eq!(disk.log, ["mkdir /new"]);
    assert_eq!(
        check_tagged(&mut disk, "/f").unwrap_err().message(),
        "configured tagged destination exists but is not a directory: /f"
    );
    disk.create_fails = true;
    assert_eq!(
        check_tagged(&mut disk, "/other").unwrap_err().message(),
        "failed creating tagged destination /other"
    );
}

fn request(file: &str, config: Option<&str>) -> JobRequest {
    JobRequest {
        file: path(file),
        config: config.map(path),
        extra_args: Some(vec!["--overwrite".to_string()]),
    }
}

fn run_admission(disk: &mut Disk, mut m: Admission) -> Result<Job, Rejection> {
    loop {
        match m {
            Admission::Finished(result) => return result,
            _ => {
                let event = disk.perform(m.action());
                m = m.step(event);
            }
        }
    }
}

fn admission(req: JobRequest) -> Admission {
    begin_admission(path("/config"), path("/tagged"), ID, req)
}

const CONFIG: (&str, &str) =
    ("/config/autotagger.json", r#"{"moveSuccess":true,"moveSuccessPath":"/done"}"#);

#[test]
fn request_for_a_single_file_is_accepted() {
    let mut disk = Disk::new(&[], &[CONFIG, ("/in/a.mp3", "")]);
    let job = run_admission(&mut disk, admission(request("/in/a.mp3", None))).expect("job");
    let playlist = path("/config/queue/job-67e55044-10b1-426f-9247-bb680e5fe0c8.m3u8");
    assert_eq!(job.id, ID);
    assert_eq!(job.original_path, path("/in/a.mp3"));
    assert_eq!(job.req.file, playlist);
    assert_eq!(job.temp_playlist, Some(playlist));
    assert_eq!(job.req.config, None);
    assert_eq!(job.req.extra_args, Some(vec!["--overwrite".to_string()]));
    assert_eq!(job.tagged_dir, path("/tagged"));
    assert_eq!(job.success_destination, Some(path("/done")));
    assert_eq!(disk.log, ["mkdir /config/queue".to_string(), format!("write {PLAYLIST}")]);
}

#[test]
fn request_for_a_directory_is_accepted() {
    let mut disk = Disk::new(&["/music"], &[("/c.json", "{}")]);
    let job = run_admission(&mut disk, admission(request("/music", Some("/c.json")))).expect("job");
    assert_eq!(job.req.file, path("/music"));
    assert_eq!(job.temp_playlist, None);
    assert_eq!(job.req.config, Some(path("/c.json")));
    assert_eq!(job.success_destination, None);
    assert!(disk.log.is_empty());
}

fn refusal(disk: &mut Disk, req: JobRequest) -> Vec<(String, String)> {
    let rejection = run_admission(disk, admission(req)).unwrap_err();
    assert_eq!(rejection.status, 400);
    rejection.body
}

fn members(list: &[(&str, &str)]) -> Vec<(String, String)> {
    list.iter().map(|(k, v)| (k.to_string(), v.to_string())).collect()
}

#[test]
fn request_without_input_is_refused() {
    let mut disk = Disk::new(&[], &[CONFIG]);
    assert_eq!(
        refusal(&mut disk, request("/none", None)),
        members(&[("error", "input path does not exist"), ("path", "/none")])
    );
}

#[test]
fn request_without_config_is_refused() {
    let mut disk = Disk::new(&["/music"], &[]);
    assert_eq!(
        refusal(&mut disk, request("/music", None)),
        members(&[
            ("error", "config path does not exist"),
            ("config", "/config/autotagger.json"),
            (
                "hint",
                "mount /config and provide autotagger.json or pass explicit config in payload"
            ),
        ])
    );
}

#[test]
fn request_with_unreadable_config_is_refused() {
    let mut disk = Disk::new(&["/music", "/c.json"], &[]);
    assert_eq!(
        refusal(&mut disk, request("/music", Some("/c.json"))),
        members(&[
            (
                "error",
                "failed reading autotagger move configuration: failed reading config /c.json"
            ),
            ("config", "/c.json"),
        ])
    );
}

#[test]
fn request_with_config_that_is_no_json_is_refused() {
    let mut disk = Disk::new(&["/music"], &[("/c.json", "{")]);
    assert_eq!(
        refusal(&mut disk, request("/music", Some("/c.json"))),
        members(&[
            (
                "error",
                "failed reading autotagger move configuration: failed parsing config /c.json"
            ),
            ("config", "/c.json"),
        ])
    );
}

#[test]
fn request_whose_playlist_cannot_be_written_is_refused() {
    let mut disk = Disk::new(&[], &[CONFIG, ("/in/a.mp3", "")]);
    disk.create_fails = true;
    assert_eq!(
        refusal(&mut disk, request("/in/a.mp3", None)),
        members(&[
            ("error", "invalid input path: failed creating queue dir /config/queue"),
            ("path", "/in/a.mp3"),
        ])
    );
}

#[test]
fn events_that_answer_nothing_change_nothing() {
    let m = admission(request("/in/a.mp3", None));
    let action = m.action();
    let m = m.step(Event::Done);
    assert_eq!(m.action(), action);
}

fn pending(m: Admission) -> Pending {
    match m {
        Admission::CheckInput(p) => p,
        other => panic!("{other:?}"),
    }
}

#[test]
fn prepared_jobs_have_random_ids() {
    let p = pending(prepare_job(path("/config"), path("/tagged"), request("/music", None)));
    let id = uuid::Uuid::from_u128(p.id);
    assert_eq!(id.get_version(), Some(uuid::Version::Random));
    assert_eq!(id.get_variant(), uuid::Variant::RFC4122);
    assert_eq!(p.req, request("/music", None));
}

#[test]
fn startup_job_uses_the_defaults() {
    let p = pending(enqueue_startup_job(path("/config"), path("/tagged"), path("/music")));
    assert_eq!(p.req.file, path("/music"));
    assert_eq!(p.req.config, None);
    assert_eq!(p.req.extra_args, None);
    assert_eq!(p.config_dir, path("/config"));
    assert_eq!(p.tagged_dir, path("/tagged"));
}

fn cli() -> Cli {
    Cli {
        bind: "0.0.0.0:8080".to_string(),
        cli_bin: "onetagger-cli".to_string(),
        config_dir: path("/config"),
        tagged_dir: path("/tagged"),
        startup_path: None,
    }
}

/// Works on until the current job has come to its end.
fn work_to_end(disk: &mut Disk, queue: &mut QueueState, mut worker: Worker) -> (Worker, Ended) {
    loop {
        let event = match worker.action() {
            WorkerAction::Perform(action) => disk.perform(action),
            other => panic!("{other:?}"),
        };
        let (next, ended) = worker.step(queue, WorkerEvent::Came(event));
        if let Some(ended) = ended {
            return (next, ended);
        }
        worker = next;
    }
}

/// Gives the job to a worker that works on none.
fn receive(queue: &mut QueueState, worker: Worker, job: Job) -> Worker {
    assert_eq!(worker.action(), WorkerAction::Receive);
    let (worker, ended) = worker.step(queue, WorkerEvent::Received(job));
    assert_eq!(ended, None);
    worker
}

fn carry_out(disk: &mut Disk, job: Job) -> Result<Option<UnixPath>, JobError> {
    let mut queue = QueueState::default();
    let worker = receive(&mut queue, Worker::new(&cli()), job);
    work_to_end(disk, &mut queue, worker).1.outcome
}

fn single_file_job(disk: &mut Disk) -> Job {
    run_admission(disk, admission(request("/in/a.mp3", None))).expect("job")
}

const PLAYLIST: &str = "/config/queue/job-67e55044-10b1-426f-9247-bb680e5fe0c8.m3u8";

#[test]
fn single_file_is_tagged_moved_and_cleaned_up() {
    let mut disk = Disk::new(&["/tagged"], &[CONFIG, ("/in/a.mp3", "x"), ("/tagged/a.mp3", "y")]);
    let job = single_file_job(&mut disk);
    disk.log.clear();
    let mut queue = QueueState::default();
    queue.enqueue(job.id);
    let worker = receive(&mut queue, Worker::new(&cli()), job);
    assert_eq!(queue.status().running, Some(ID));
    assert!(queue.status().queued.is_empty());
    let (worker, ended) = work_to_end(&mut disk, &mut queue, worker);
    assert_eq!(worker.action(), WorkerAction::Receive);
    assert_eq!(queue.status().running, None);
    assert_eq!(ended.job.id, ID);
    assert_eq!(ended.outcome.expect("job"), Some(path("/tagged/a (1).mp3")));
    assert_eq!(disk.file("/in/a.mp3"), None);
    assert_eq!(disk.file("/tagged/a (1).mp3"), Some("x".to_string()));
    assert_eq!(disk.file("/tagged/a.mp3"), Some("y".to_string()));
    assert_eq!(disk.file(PLAYLIST), None);
    assert_eq!(
        disk.log,
        [
            format!(
                "run onetagger-cli autotagger --path {PLAYLIST} --config /config/autotagger.json --overwrite"
            ),
            "rename /in/a.mp3 /tagged/a (1).mp3".to_string(),
            format!("remove {PLAYLIST}"),
        ]
    );
}

#[test]
fn failed_tagging_moves_nothing() {
    let mut disk = Disk::new(&["/tagged"], &[CONFIG, ("/in/a.mp3", "x")]);
    let job = single_file_job(&mut disk);
    disk.output = Some(CliOutput {
        success: false,
        status: "exit status: 1".to_string(),
        stdout: Vec::new(),
        stderr: b"no".to_vec(),
    });
    let e = carry_out(&mut disk, job).unwrap_err();
    assert_eq!(e.message(), "cli exited with status exit status: 1\nstdout:\n\nstderr:\nno");
    assert_eq!(disk.file("/in/a.mp3"), Some("x".to_string()));
    assert_eq!(disk.file(PLAYLIST), None);
}

#[test]
fn tagger_that_cannot_be_run() {
    let mut disk = Disk::new(&[], &[CONFIG, ("/in/a.mp3", "x")]);
    let job = single_file_job(&mut disk);
    disk.output = None;
    disk.remove_fails = true;
    let e = carry_out(&mut disk, job).unwrap_err();
    assert_eq!(e.message(), "failed to launch onetagger-cli");
    assert_eq!(disk.log.last(), Some(&format!("remove {PLAYLIST}")));
}

#[test]
fn file_that_cannot_be_moved() {
    let mut disk = Disk::new(&["/tagged"], &[CONFIG, ("/in/a.mp3", "x")]);
    let job = single_file_job(&mut disk);
    disk.rename_fails = true;
    disk.copy_fails = true;
    match carry_out(&mut disk, job) {
        Err(JobError::Move(e)) => {
            assert_eq!(
                e.message(),
                "failed moving tagged file from /in/a.mp3 to /tagged/a.mp3"
            );
            assert_eq!(
                e.cause(),
                Some("failed copying tagged file from /in/a.mp3 to /tagged/a.mp3".to_string())
            );
        }
        other => panic!("{other:?}"),
    }
    assert_eq!(disk.file(PLAYLIST), None);
}

#[test]
fn file_that_is_gone_after_tagging() {
    let mut disk = Disk::new(&["/tagged"], &[CONFIG, ("/in/a.mp3", "x")]);
    let job = single_file_job(&mut disk);
    disk.files.remove(&bytes_of("/in/a.mp3"));
    let e = carry_out(&mut disk, job).unwrap_err();
    assert_eq!(e, JobError::Move(MoveError::OriginalGone(path("/in/a.mp3"))));
    assert_eq!(
        e.message(),
        "cannot move tagged file because original path no longer exists after tagging: /in/a.mp3"
    );
}

#[test]
fn directory_job_only_tags() {
    let mut disk = Disk::new(&["/music"], &[CONFIG]);
    let job = run_admission(&mut disk, admission(request("/music", None))).expect("job");
    assert_eq!(cleanup_temp_playlist(&job), Action::Nothing);
    let m = move_single_file_after_success(&job);
    assert_eq!(m.phase, MovePhase::Finished(Ok(None)));
    assert_eq!(carry_out(&mut disk, job), Ok(None));
    assert_eq!(
        disk.log,
        ["run onetagger-cli autotagger --path /music --config /config/autotagger.json --overwrite"]
    );
}

fn directory_job(id: u128) -> Job {
    let mut disk = Disk::new(&["/music"], &[CONFIG]);
    let m = begin_admission(path("/config"), path("/tagged"), id, request("/music", None));
    run_admission(&mut disk, m).expect("job")
}

#[test]
fn jobs_are_carried_out_in_order_one_at_a_time() {
    let mut disk = Disk::new(&["/tagged"], &[CONFIG, ("/in/a.mp3", "x")]);
    let mut queue = QueueState::default();
    let mut channel = std::collections::VecDeque::new();
    for id in [5, 6, 7] {
        let m = begin_admission(path("/config"), path("/tagged"), id, request("/in/a.mp3", None));
        let result = run_admission(&mut disk, m);
        let (job, position) = take_in(&mut queue, result).expect("job");
        channel.push_back(job);
        assert_eq!(position, channel.len());
    }
    disk.log.clear();
    // The tagger cannot be run for the first and the last job, and tags for the second.
    let ok = disk.output.take();
    let outputs = [None, ok, None];
    let mut worker = Worker::new(&cli());
    let mut order = Vec::new();
    for output in outputs {
        assert_eq!(queue.status().running, None);
        assert_eq!(worker.current(), None);
        let job = channel.pop_front().expect("next job");
        let id = job.id;
        worker = receive(&mut queue, worker, job);
        assert!(matches!(worker.current().map(|run| &run.phase), Some(RunPhase::Launch)));
        disk.output = output;
        let waiting: Vec<u128> = channel.iter().map(|job| job.id).collect();
        let ended = loop {
            assert_eq!(queue.status().running, Some(id));
            assert_eq!(queue.status().queued, waiting);
            let WorkerAction::Perform(action) = worker.action() else { panic!("no action") };
            let event = disk.perform(action);
            let (next, ended) = worker.step(&mut queue, WorkerEvent::Came(event));
            worker = next;
            if let Some(ended) = ended {
                break ended;
            }
        };
        order.push((ended.job.id, ended.outcome.is_ok()));
    }
    assert_eq!(order, [(5, false), (6, true), (7, false)]);
    assert_eq!(queue, QueueState::default());
    let kinds: Vec<&str> = disk.log.iter().map(|l| l.split(' ').next().unwrap()).collect();
    assert_eq!(kinds, ["run", "remove", "run", "rename", "remove", "run", "remove"]);
    let (worker, _) = worker.step(&mut queue, WorkerEvent::Closed);
    assert_eq!(worker.action(), WorkerAction::Stop);
}

#[test]
fn no_job_is_begun_while_one_is_worked_on() {
    let mut queue = QueueState::default();
    queue.enqueue(5);
    queue.enqueue(6);
    let worker = receive(&mut queue, Worker::new(&cli()), directory_job(5));
    let action = worker.action();
    assert!(matches!(action, WorkerAction::Perform(Action::Run(_, _))));
    for event in [
        WorkerEvent::Received(directory_job(6)),
        WorkerEvent::Closed,
        WorkerEvent::Came(Event::Done),
    ] {
        let mut same = receive(&mut QueueState::default(), Worker::new(&cli()), directory_job(5));
        let ended;
        (same, ended) = same.step(&mut queue, event);
        assert_eq!(ended, None);
        assert_eq!(same, worker);
        assert_eq!(queue.status().running, Some(5));
        assert_eq!(queue.status().queued, [6]);
    }
}

#[test]
fn idle_worker_ignores_other_events() {
    let mut queue = QueueState::default();
    let (worker, ended) =
        Worker::new(&cli()).step(&mut queue, WorkerEvent::Came(Event::Done));
    assert_eq!((worker, ended), (Worker::new(&cli()), None));
    let (worker, _) = Worker::new(&cli()).step(&mut queue, WorkerEvent::Closed);
    let (worker, _) = worker.step(&mut queue, WorkerEvent::Received(directory_job(5)));
    assert_eq!(worker.action(), WorkerAction::Stop);
    assert_eq!(queue, QueueState::default());
}

#[test]
fn queue_is_first_in_first_out() {
    let mut queue = QueueState::default();
    let mut disk = Disk::new(&[], &[]);
    assert_eq!(queue.enqueue(11), 1);
    assert_eq!(queue.enqueue(22), 2);
    assert_eq!(queue.enqueue(33), 3);
    let worker = receive(&mut queue, Worker::new(&cli()), directory_job(11));
    let status = queue.status();
    assert_eq!(status.running, Some(11));
    assert_eq!(status.queued, [22, 33]);
    assert_eq!(queue.enqueue(44), 3);
    let (worker, _) = work_to_end(&mut disk, &mut queue, worker);
    assert_eq!(queue.status().running, None);
    receive(&mut queue, worker, directory_job(22));
    assert_eq!(queue.status().running, Some(22));
    assert_eq!(queue.status().queued, [33, 44]);
}

#[test]
fn arrivals_queue_up() {
    let mut one = QueueState::default();
    let mut two = QueueState::default();
    for queue in [&mut one, &mut two] {
        queue.enqueue(1);
        queue.enqueue(2);
    }
    receive(&mut one, Worker::new(&cli()), directory_job(1));
    one.enqueue(3);
    two.enqueue(3);
    receive(&mut two, Worker::new(&cli()), directory_job(1));
    assert_eq!(one, two);
}

/// Deals with a request up to its answer; gives the jobs that were sent, too.
fn answer(
    disk: &mut Disk,
    queue: &mut QueueState,
    req: JobRequest,
    sent: bool,
) -> (EnqueueReply, Vec<Job>) {
    let mut intake = Intake::new(admission(req));
    let mut jobs = Vec::new();
    loop {
        let event = match intake.action() {
            IntakeAction::Perform(action) => {
                assert!(intake.checks().is_some());
                assert!(!queue.status().queued.contains(&ID));
                IntakeEvent::Came(disk.perform(action))
            }
            IntakeAction::Send(job) => {
                assert!(intake.checks().is_none());
                assert_eq!(queue.status().queued.last(), Some(&ID));
                jobs.push(job);
                IntakeEvent::Sent(sent)
            }
            IntakeAction::Nothing => panic!("no answer"),
        };
        match intake.step(queue, event).answer() {
            Ok(reply) => return (reply, jobs),
            Err(next) => intake = next,
        }
    }
}

#[test]
fn accepted_request_waits_behind_the_others() {
    let mut disk = Disk::new(&["/music"], &[CONFIG]);
    let mut queue = QueueState::default();
    queue.enqueue(1);
    let (reply, jobs) = answer(&mut disk, &mut queue, request("/music", None), true);
    assert_eq!(reply.status(), 202);
    let EnqueueReply::Accepted(accepted) = reply else { panic!("refused") };
    assert_eq!((accepted.id, accepted.queue_position), (ID, 2));
    assert_eq!(queue.status().queued, [1, ID]);
    assert_eq!(jobs, [run_admission(&mut disk, admission(request("/music", None))).unwrap()]);
}

#[test]
fn request_that_cannot_be_handed_over_waits_no_more() {
    let mut disk = Disk::new(&["/music"], &[CONFIG]);
    let mut queue = QueueState::default();
    queue.enqueue(1);
    let (reply, jobs) = answer(&mut disk, &mut queue, request("/music", None), false);
    assert_eq!(reply.status(), 500);
    assert_eq!(jobs.len(), 1);
    assert_eq!(queue.status().queued, [1]);
}

#[test]
fn refused_request_leaves_the_queue_alone() {
    let mut disk = Disk::new(&[], &[CONFIG]);
    let mut queue = QueueState::default();
    queue.enqueue(1);
    let (reply, jobs) = answer(&mut disk, &mut queue, request("/none", None), true);
    assert_eq!(reply.status(), 400);
    assert!(jobs.is_empty());
    assert_eq!(queue.status().queued, [1]);
    let refused = run_admission(&mut disk, admission(request("/none", None)));
    assert!(refused.is_err());
    let rejection = take_in(&mut queue, refused).unwrap_err();
    assert_eq!(reply, EnqueueReply::Refused(rejection));
    assert_eq!(queue.status().queued, [1]);
}

fn check_default(disk: &mut Disk) -> Result<(), DefaultConfigError> {
    let mut m = ensure_default_config(&cli());
    loop {
        match m.phase {
            DefaultConfigPhase::Finished(result) => return result,
            _ => {
                let event = disk.perform(m.action());
                m = m.step(event);
            }
        }
    }
}

#[test]
fn default_config_is_generated_where_it_is_missing() {
    let mut disk = Disk::new(&["/config"], &[]);
    check_default(&mut disk).expect("default config");
    assert_eq!(disk.file("/config/autotagger.json"), Some("{}".to_string()));
    assert_eq!(
        disk.log,
        ["run onetagger-cli --autotagger-config", "write /config/autotagger.json"]
    );
}

#[test]
fn default_config_is_kept_where_it_exists() {
    let mut disk = Disk::new(&["/config"], &[CONFIG]);
    check_default(&mut disk).expect("default config");
    assert_eq!(disk.file(CONFIG.0), Some(CONFIG.1.to_string()));
    assert!(disk.log.is_empty());
}

#[test]
fn default_config_fails() {
    let mut disk = Disk::new(&[], &[]);
    disk.write_fails = true;
    assert_eq!(
        check_default(&mut disk).unwrap_err().message(),
        "failed writing default config to /config/autotagger.json"
    );
    disk.output = Some(CliOutput {
        success: false,
        status: "exit status: 3".to_string(),
        stdout: b"o".to_vec(),
        stderr: b"e".to_vec(),
    });
    assert_eq!(
        check_default(&mut disk).unwrap_err().message(),
        "failed to generate default config, status=exit status: 3 stderr=e stdout=o"
    );
    disk.output = None;
    assert_eq!(
        check_default(&mut disk).unwrap_err().message(),
        "failed to run onetagger-cli --autotagger-config"
    );
}
