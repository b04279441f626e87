use font_provision::{Answer, ErrorKind, Phase, Provision, ProvisionError, Request, DOWNLOAD_URL};

const HOME: &str = "/home/ada";
const BASE: &str = "/home/ada/.fonts";
const FONT: &str = "/home/ada/.fonts/NotoSans-Regular.ttf";
const ZIP: &str = "/home/ada/.fonts/NotoSans-unhinted.zip";
const PARTIAL: &str = "/home/ada/.fonts/NotoSans-unhinted.zip.part";

/// Feeds `answers` in turn and returns the requests handed out before each
/// one, and the final state.
fn drive(answers: Vec<Answer>) -> (Vec<Request>, Provision) {
    let mut p = Provision::new();
    let mut asked = Vec::new();
    for a in answers {
        asked.push(p.request());
        p = p.advance(a);
    }
    (asked, p)
}

fn home() -> Answer {
    Answer::Home(Some(HOME.to_string()))
}

fn finished_ok(p: &Provision) -> String {
    match p.request() {
        Request::Finished(Ok(path)) => path,
        other => panic!("expected success, got {:?}", other),
    }
}

fn finished_err(p: &Provision) -> ProvisionError {
    match p.request() {
        Request::Finished(Err(e)) => e,
        other => panic!("expected failure, got {:?}", other),
    }
}

fn is_dir(r: &Request, path: &str) -> bool {
    matches!(r, Request::IsDir(p) if p == path)
}

fn is_file(r: &Request, path: &str) -> bool {
    matches!(r, Request::IsFile(p) if p == path)
}

fn touches_network_or_disk(r: &Request) -> bool {
    matches!(
        r,
        Request::CreateDir(_)
            | Request::Download { .. }
            | Request::Remove(_)
            | Request::Rename { .. }
            | Request::Extract { .. }
    )
}

#[test]
fn starts_by_asking_for_home() {
    let p = Provision::new();
    assert_eq!(p.phase(), Phase::AwaitHome);
    assert!(matches!(p.request(), Request::HomeDir));
}

#[test]
fn warm_path_returns_font_without_work() {
    let (asked, p) = drive(vec![home(), Answer::Exists(true), Answer::Exists(true)]);
    assert_eq!(asked.len(), 3);
    assert!(matches!(asked[0], Request::HomeDir));
    assert!(is_dir(&asked[1], BASE));
    assert!(is_file(&asked[2], FONT));
    assert!(!asked.iter().any(touches_network_or_disk));
    assert_eq!(p.phase(), Phase::Succeeded);
    assert_eq!(finished_ok(&p), FONT);
}

#[test]
fn cached_archive_is_unpacked_without_download() {
    let (asked, p) = drive(vec![
        home(),
        Answer::Exists(true),
        Answer::Exists(false),
        Answer::Exists(true),
        Answer::Done,
        Answer::Exists(true),
    ]);
    assert!(is_file(&asked[2], FONT));
    assert!(is_file(&asked[3], ZIP));
    assert!(matches!(&asked[4], Request::Extract { archive, dest } if archive == ZIP && dest == BASE));
    assert!(is_file(&asked[5], FONT));
    assert!(!asked.iter().any(|r| matches!(r, Request::Download { .. })));
    assert_eq!(finished_ok(&p), FONT);
}

#[test]
fn cold_path_downloads_moves_and_unpacks() {
    let (asked, p) = drive(vec![
        home(),
        Answer::Exists(true),
        Answer::Exists(false),
        Answer::Exists(false),
        Answer::Transferred(200),
        Answer::Done,
        Answer::Done,
        Answer::Exists(true),
    ]);
    assert!(matches!(&asked[4], Request::Download { url, dest } if url == DOWNLOAD_URL && dest == PARTIAL));
    assert!(matches!(&asked[5], Request::Rename { from, to } if from == PARTIAL && to == ZIP));
    assert!(matches!(&asked[6], Request::Extract { archive, dest } if archive == ZIP && dest == BASE));
    assert!(is_file(&asked[7], FONT));
    assert_eq!(finished_ok(&p), FONT);
}

#[test]
fn missing_home_is_environment_error() {
    let (_, p) = drive(vec![Answer::Home(None)]);
    let e = finished_err(&p);
    assert_eq!(e.kind, ErrorKind::Environment);
    assert_eq!(e.describe(), "the home directory could not be determined");
}

#[test]
fn empty_home_is_environment_error() {
    let (_, p) = drive(vec![Answer::Home(Some(String::new()))]);
    assert_eq!(finished_err(&p).kind, ErrorKind::Environment);
}

#[test]
fn home_with_trailing_separator_is_joined_once() {
    let (_, p) = drive(vec![Answer::Home(Some("/home/ada/".to_string()))]);
    assert!(is_dir(&p.request(), BASE));
}

#[test]
fn absent_font_directory_is_created() {
    let (asked, p) = drive(vec![home(), Answer::Exists(false), Answer::Done]);
    assert!(matches!(&asked[2], Request::CreateDir(d) if d == BASE));
    assert!(is_file(&p.request(), FONT));
}

#[test]
fn concurrently_created_font_directory_is_accepted() {
    let (asked, p) = drive(vec![
        home(),
        Answer::Exists(false),
        Answer::AlreadyExists,
        Answer::Exists(true),
    ]);
    assert!(is_dir(&asked[3], BASE));
    assert!(is_file(&p.request(), FONT));
}

#[test]
fn file_in_place_of_font_directory_fails() {
    let (_, p) = drive(vec![
        home(),
        Answer::Exists(false),
        Answer::AlreadyExists,
        Answer::Exists(false),
    ]);
    let e = finished_err(&p);
    assert_eq!(e.kind, ErrorKind::Filesystem);
    assert_eq!(e.message, "/home/ada/.fonts exists and is not a directory");
}

#[test]
fn failed_directory_creation_is_filesystem_error() {
    let (_, p) = drive(vec![home(), Answer::Exists(false), Answer::Failed("read-only".to_string())]);
    let e = finished_err(&p);
    assert_eq!(e.kind, ErrorKind::Filesystem);
    assert_eq!(e.message, "could not create directory /home/ada/.fonts: read-only");
}

fn to_download() -> Vec<Answer> {
    vec![home(), Answer::Exists(true), Answer::Exists(false), Answer::Exists(false)]
}

#[test]
fn unreachable_server_is_network_error() {
    let mut answers = to_download();
    answers.push(Answer::Unreachable("connection refused".to_string()));
    answers.push(Answer::Done);
    let (asked, p) = drive(answers);
    assert!(matches!(&asked[5], Request::Remove(f) if f == PARTIAL));
    let e = finished_err(&p);
    assert_eq!(e.kind, ErrorKind::Network);
    assert_eq!(
        e.message,
        format!("could not download the font from {}: connection refused", DOWNLOAD_URL)
    );
}

#[test]
fn failed_cleanup_keeps_the_first_failure() {
    let mut answers = to_download();
    answers.push(Answer::Unreachable("timed out".to_string()));
    answers.push(Answer::Failed("no such file".to_string()));
    let (_, p) = drive(answers);
    let e = finished_err(&p);
    assert_eq!(e.kind, ErrorKind::Network);
    assert!(e.message.ends_with(": timed out"));
}

#[test]
fn unwritable_partial_file_is_filesystem_error() {
    let mut answers = to_download();
    answers.push(Answer::Failed("permission denied".to_string()));
    answers.push(Answer::Done);
    let (_, p) = drive(answers);
    let e = finished_err(&p);
    assert_eq!(e.kind, ErrorKind::Filesystem);
    assert_eq!(e.message, format!("could not write {}: permission denied", PARTIAL));
}

#[test]
fn unsuccessful_status_is_network_error_with_status_line() {
    let mut answers = to_download();
    answers.push(Answer::Transferred(404));
    let (_, p) = drive(answers);
    assert!(matches!(p.request(), Request::Remove(f) if f == PARTIAL));
    let p = p.advance(Answer::Done);
    let e = finished_err(&p);
    assert_eq!(e.kind, ErrorKind::Network);
    assert_eq!(
        e.message,
        format!("could not download the font from {}: the server answered 404 Not Found", DOWNLOAD_URL)
    );
}

#[test]
fn success_status_range_edges() {
    for (code, ok) in [(199u16, false), (200, true), (299, true), (300, false), (500, false)] {
        let mut answers = to_download();
        answers.push(Answer::Transferred(code));
        let (_, p) = drive(answers);
        assert_eq!(p.phase() == Phase::Commit, ok, "status {}", code);
    }
}

#[test]
fn failed_move_is_filesystem_error() {
    let mut answers = to_download();
    answers.push(Answer::Transferred(200));
    answers.push(Answer::Failed("cross-device link".to_string()));
    answers.push(Answer::Done);
    let (_, p) = drive(answers);
    let e = finished_err(&p);
    assert_eq!(e.kind, ErrorKind::Filesystem);
    assert_eq!(e.message, format!("could not move {} to {}: cross-device link", PARTIAL, ZIP));
}

#[test]
fn garbage_archive_is_extraction_error() {
    let mut answers = to_download();
    answers.push(Answer::Transferred(200));
    answers.push(Answer::Done);
    answers.push(Answer::Failed("invalid Zip archive".to_string()));
    let (_, p) = drive(answers);
    let e = finished_err(&p);
    assert_eq!(e.kind, ErrorKind::Extraction);
    assert_eq!(e.message, format!("could not extract {}: invalid Zip archive", ZIP));
}

#[test]
fn archive_without_font_is_extraction_error() {
    let (_, p) = drive(vec![
        home(),
        Answer::Exists(true),
        Answer::Exists(false),
        Answer::Exists(true),
        Answer::Done,
        Answer::Exists(false),
    ]);
    let e = finished_err(&p);
    assert_eq!(e.kind, ErrorKind::Extraction);
    assert_eq!(e.message, format!("the archive {} holds no NotoSans-Regular.ttf", ZIP));
}

#[test]
fn unfitting_answer_leaves_state_unchanged() {
    let (asked, p) = drive(vec![home(), Answer::Transferred(200), Answer::Exists(true)]);
    assert!(is_dir(&asked[1], BASE));
    assert!(is_dir(&asked[2], BASE));
    assert_eq!(p.phase(), Phase::CheckFont);
}

#[test]
fn finished_procedure_stays_finished() {
    let (_, p) = drive(vec![Answer::Home(None), home(), Answer::Exists(true), Answer::Done]);
    assert_eq!(p.phase(), Phase::Failed);
    assert_eq!(finished_err(&p).kind, ErrorKind::Environment);
    let (_, q) = drive(vec![home(), Answer::Exists(true), Answer::Exists(true), Answer::Exists(false)]);
    assert_eq!(finished_ok(&q), FONT);
}

#[test]
fn error_duplicate_keeps_kind_and_message() {
    let e = font_provision::error::download_error("http://x", "boom");
    let d = e.duplicate();
    assert_eq!(d.kind, ErrorKind::Network);
    assert_eq!(d.message, "could not download the font from http://x: boom");
}
