use onetagger_worker::command::{build_command_preview, judge_run, run_job, Cli, RunError};
use onetagger_worker::effects::{Action, CliOutput, Event};
use onetagger_worker::jobs::{default_config_path, resolve_config, Job, JobRequest};
use onetagger_worker::move_config::{
    load_move_config, move_settings, AutotaggerMoveConfig, MoveConfigError,
};
use onetagger_worker::normalize::is_playlist_extension;
use onetagger_worker::path::{split_extension, UnixPath};
use onetagger_worker::queue::{enqueue_job, EnqueueReply, QueueState};
use onetagger_worker::text::{bytes_of, decimal_bytes, is_blank, show};

fn path(s: &str) -> UnixPath {
    UnixPath::from_text(s)
}

fn words(alphabet: &[char], len: usize) -> Vec<String> {
    let mut all = vec![String::new()];
    let mut last = all.clone();
    for _ in 0..len {
        let mut next = Vec::new();
        for word in &last {
            for c in alphabet {
                next.push(format!("{word}{c}"));
            }
        }
        all.extend(next.clone());
        last = next;
    }
    all
}

#[test]
fn paths_are_read_as_std_reads_them() {
    for word in words(&['/', '.', 'a', ':', '\\'], 6) {
        let std_path = std::path::Path::new(&word);
        let name = std_path.file_name().map(|n| n.to_str().unwrap().as_bytes().to_vec());
        let stem = std_path.file_stem().map(|n| n.to_str().unwrap().as_bytes().to_vec());
        let ext = std_path.extension().map(|n| n.to_str().unwrap().as_bytes().to_vec());
        let ours = path(&word);
        assert_eq!(ours.file_name(), name, "{word}");
        assert_eq!(ours.extension(), ext, "{word}");
        assert_eq!(ours.file_name().map(|n| split_extension(&n).0), stem, "{word}");
    }
}

#[test]
fn paths_are_joined_as_std_joins_them() {
    let list = words(&['/', '.', 'a', ':', '\\'], 3);
    for base in &list {
        for more in &list {
            let expected = std::path::Path::new(base).join(more);
            assert_eq!(path(base).join_text(more).display(), expected.to_str().unwrap());
        }
    }
}

#[test]
fn names_with_several_dots() {
    assert_eq!(path("/x/a.tar.gz").extension(), Some(b"gz".to_vec()));
    assert_eq!(path("/x/.hidden").extension(), None);
    assert_eq!(path("/x/track.").extension(), Some(Vec::new()));
    assert_eq!(path("/x/..").file_name(), None);
    assert_eq!(path("/").file_name(), None);
}

#[test]
fn bytes_that_are_not_utf8_are_shown_with_replacements() {
    let odd = UnixPath { bytes: vec![b'/', 0xff, b'a'] };
    assert_eq!(odd.display(), "/\u{fffd}a");
    assert_eq!(show("Größe".as_bytes()), "Größe");
}

#[test]
fn blank_texts() {
    assert!(is_blank(""));
    assert!(is_blank(" \t\n\u{a0}\u{3000}"));
    assert!(!is_blank("  x "));
    assert!(!is_blank("\u{200b}"));
}

#[test]
fn white_space_is_what_std_trims() {
    for c in '\0'..=char::MAX {
        let listed = matches!(c,
            '\u{9}'..='\u{d}' | '\u{20}' | '\u{85}' | '\u{a0}' | '\u{1680}'
            | '\u{2000}'..='\u{200a}' | '\u{2028}' | '\u{2029}' | '\u{202f}' | '\u{205f}'
            | '\u{3000}');
        assert_eq!(is_blank(&c.to_string()), listed);
    }
}

#[test]
fn decimal_numbers() {
    for n in [0u32, 1, 9, 10, 42, 9999, 10000, u32::MAX] {
        assert_eq!(decimal_bytes(n), n.to_string().into_bytes());
    }
}

#[test]
fn different_numbers_have_different_digits() {
    let all: std::collections::BTreeSet<Vec<u8>> = (0..3000).map(decimal_bytes).collect();
    assert_eq!(all.len(), 3000);
}

#[test]
fn a_text_is_shown_as_itself() {
    for s in ["", "plain", "Größe", "曲/🎵"] {
        assert_eq!(show(&bytes_of(s)), s);
        assert_eq!(path(s).display(), s);
    }
}

#[test]
fn a_name_in_a_directory_is_its_file_name() {
    for dir in ["", "/", "a", "a/", "/x/.."] {
        for name in ["b", "b.c", ".b", "..."] {
            let joined = path(dir).join_text(name);
            assert_eq!(joined.file_name(), Some(bytes_of(name)));
        }
    }
}

#[test]
fn playlist_extensions_in_any_case() {
    for ext in ["m3u", "M3U", "m3u8", "M3u8"] {
        assert!(is_playlist_extension(ext.as_bytes()));
    }
    for ext in ["", "m3", "mp3", "m3u88", "xm3u"] {
        assert!(!is_playlist_extension(ext.as_bytes()));
    }
    assert!(!is_playlist_extension(&[b'm', b'3', 0xff]));
}

#[test]
fn only_ascii_letters_have_the_lower_case_forms_of_playlist_extensions() {
    for c in '\0'..=char::MAX {
        let hit = c.to_lowercase().any(|l| "m3u8".contains(l));
        assert_eq!(hit, "mM3uU8".contains(c));
    }
}

fn load(text: &str) -> Result<AutotaggerMoveConfig, MoveConfigError> {
    load_move_config(path("/config.json"), Some(bytes_of(text)))
}

#[test]
fn load_move_config_reads_success_destination() {
    let config = load(r#"{"moveSuccess":true,"moveSuccessPath":"/tubetube/Tagged"}"#)
        .expect("load config");

    assert!(config.move_success);
    assert_eq!(config.move_success_path, Some(path("/tubetube/Tagged")));
    assert_eq!(config.success_destination(), Some(path("/tubetube/Tagged")));
}

#[test]
fn move_config_that_is_no_json() {
    for text in ["", "{\"moveSuccess\":true", "{} x"] {
        let e = load(text).unwrap_err();
        assert_eq!(e, MoveConfigError::Parse(path("/config.json")));
        assert_eq!(e.message(), "failed parsing config /config.json");
    }
}

#[test]
fn move_config_that_cannot_be_read() {
    let e = load_move_config(path("/config.json"), None).unwrap_err();
    assert_eq!(e.message(), "failed reading config /config.json");
}

#[test]
fn move_config_without_settings() {
    for text in ["{}", "[]", "3", "null", "\"moveSuccess\""] {
        let config = load(text).expect("json");
        assert!(!config.move_success);
        assert_eq!(config.move_success_path, None);
    }
}

#[test]
fn move_config_with_settings_of_the_wrong_kind() {
    let config = load(r#"{"moveSuccess":"true","moveSuccessPath":7}"#).expect("json");
    assert!(!config.move_success);
    assert_eq!(config.move_success_path, None);
}

#[test]
fn move_config_with_a_blank_destination() {
    let config = load(r#"{"moveSuccess":true,"moveSuccessPath":" \t "}"#).expect("json");
    assert!(config.move_success);
    assert_eq!(config.move_success_path, None);
    assert_eq!(config.success_destination(), None);
}

#[test]
fn destination_counts_only_where_moving_is_switched_on() {
    let off = move_settings(Some(false), Some(" /x"));
    assert_eq!(off.move_success_path, Some(path(" /x")));
    assert_eq!(off.success_destination(), None);
    assert_eq!(move_settings(None, Some("/x")).success_destination(), None);
    assert_eq!(move_settings(Some(true), Some("/x")).success_destination(), Some(path("/x")));
}

fn cli() -> Cli {
    Cli {
        bind: "0.0.0.0:8080".to_string(),
        cli_bin: "onetagger-cli".to_string(),
        config_dir: path("/config"),
        tagged_dir: path("/tubetube/Tagged"),
        startup_path: None,
    }
}

fn job(config: Option<&str>, extra_args: Option<Vec<&str>>) -> Job {
    Job {
        id: 7,
        req: JobRequest {
            file: path("/music"),
            config: config.map(path),
            extra_args: extra_args.map(|v| v.into_iter().map(|s| s.to_string()).collect()),
        },
        original_path: path("/music"),
        temp_playlist: None,
        tagged_dir: path("/tubetube/Tagged"),
        success_destination: None,
    }
}

#[test]
fn default_configuration() {
    assert_eq!(default_config_path(&path("/config")), path("/config/autotagger.json"));
    assert_eq!(resolve_config(&None, &path("/config/")), path("/config/autotagger.json"));
    assert_eq!(resolve_config(&Some(path("/x.json")), &path("/config")), path("/x.json"));
}

#[test]
fn tagger_is_called_with_path_config_and_further_arguments() {
    let call = run_job(
        &"onetagger-cli".to_string(),
        &path("/config"),
        &job(None, Some(vec!["--overwrite", "--threads", "4"])),
    );
    let expected: Vec<Vec<u8>> = [
        "autotagger", "--path", "/music", "--config", "/config/autotagger.json", "--overwrite",
        "--threads", "4",
    ]
    .iter()
    .map(|s| bytes_of(s))
    .collect();
    assert_eq!(call, Action::Run("onetagger-cli".to_string(), expected));
}

#[test]
fn preview_shows_the_call() {
    let job = job(Some("/c.json"), Some(vec!["-x"]));
    assert_eq!(
        build_command_preview(&cli(), &job, &path("/c.json")),
        ["onetagger-cli", "autotagger", "--path", "/music", "--config", "/c.json", "-x"]
    );
    let call = run_job(&cli().cli_bin, &cli().config_dir, &job);
    match call {
        Action::Run(program, args) => {
            let mut shown = vec![program];
            shown.extend(args.iter().map(|a| show(a)));
            assert_eq!(shown, build_command_preview(&cli(), &job, &path("/c.json")));
        }
        other => panic!("{other:?}"),
    }
}

fn output(success: bool, status: &str, stdout: &str, stderr: &str) -> CliOutput {
    CliOutput {
        success,
        status: status.to_string(),
        stdout: bytes_of(stdout),
        stderr: bytes_of(stderr),
    }
}

#[test]
fn end_of_the_tagger() {
    assert_eq!(judge_run(Event::Exited(output(true, "exit status: 0", "", ""))), Some(Ok(())));
    assert_eq!(judge_run(Event::Failed), Some(Err(RunError::Launch)));
    assert_eq!(judge_run(Event::Done), None);
    let failed = judge_run(Event::Exited(output(false, "exit status: 2", "out", "err")));
    match failed {
        Some(Err(e)) => assert_eq!(
            e.message(),
            "cli exited with status exit status: 2\nstdout:\nout\nstderr:\nerr"
        ),
        other => panic!("{other:?}"),
    }
    assert_eq!(RunError::Launch.message(), "failed to launch onetagger-cli");
}

#[test]
fn withdraw_undoes_enqueue() {
    let mut queue = QueueState::default();
    queue.enqueue(1);
    queue.enqueue(2);
    queue.withdraw(2);
    assert_eq!(queue.status().queued, [1]);
    queue.withdraw(5);
    assert_eq!(queue.status().queued, [1]);
}

#[test]
fn answers_to_accepted_requests() {
    let mut queue = QueueState::default();
    let position = queue.enqueue(9);
    let reply = enqueue_job(&mut queue, 9, position, true);
    assert_eq!(reply.status(), 202);
    match reply {
        EnqueueReply::Accepted(answer) => {
            assert_eq!(answer.id, 9);
            assert_eq!(answer.queue_position, 1);
        }
        other => panic!("{other:?}"),
    }
    assert_eq!(queue.status().queued, [9]);
}

#[test]
fn answers_where_the_worker_is_gone() {
    let mut queue = QueueState::default();
    queue.enqueue(1);
    let position = queue.enqueue(9);
    let reply = enqueue_job(&mut queue, 9, position, false);
    assert_eq!(reply.status(), 500);
    match reply {
        EnqueueReply::Refused(rejection) => assert_eq!(
            rejection.body,
            [("error".to_string(), "queue is unavailable".to_string())]
        ),
        other => panic!("{other:?}"),
    }
    assert_eq!(queue.status().queued, [1]);
}
