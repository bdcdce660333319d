use std::time::{Duration, SystemTime};

use package_db::text::{decimal, same_text};
use package_db::{
    DatabaseThing, DbError, ErrorKind, Flush, Opening, PackageNew, PackageState, PrettyConfig,
    Repository, StoreState,
};

fn store(filename: &str, state: StoreState) -> DatabaseThing {
    match DatabaseThing::new(filename, true) {
        Opening::Existing(loading) => {
            let parsing = loading.loaded(Ok(Vec::new())).expect("read");
            parsing.decoded_at(Ok(state), SystemTime::UNIX_EPOCH).expect("parsed")
        }
        Opening::Missing(_) => panic!("the file was reported present"),
    }
}

fn one_package() -> StoreState {
    StoreState {
        saved_on_panic: false,
        packages: vec![PackageState::New(PackageNew {
            name: "foo".to_string(),
            repository: Repository { kind: "git".to_string(), url: "u".to_string() },
            downloads: 1,
            stargazers: 2,
        })],
    }
}

#[test]
fn a_flush_records_its_moment_and_keeps_the_state() {
    let mut db = store("state.ron", one_package());
    let moment = SystemTime::UNIX_EPOCH + Duration::from_secs(42);
    let flushing = db.flush_at(moment);
    assert_eq!(db.last_write_call_time(), moment);
    assert_eq!(db.data(), &one_package());
    assert_eq!(db.filename(), "state.ron");
    assert_eq!(flushing.filename(), "state.ron");
}

#[test]
fn a_flush_now_records_the_current_time() {
    let mut db = store("state.ron", one_package());
    assert_eq!(db.last_write_call_time(), SystemTime::UNIX_EPOCH);
    let flushing = db.flush();
    assert!(db.last_write_call_time() > SystemTime::UNIX_EPOCH);
    assert_eq!(db.data(), &one_package());
    assert_eq!(flushing.filename(), "state.ron");
}

#[test]
fn rendered_text_is_written_to_the_backing_file() {
    let mut db = store("state.ron", one_package());
    let flushing = db.flush();
    match flushing.encoded(Ok("rendered".to_string())) {
        Flush::Write(writing) => {
            assert_eq!(writing.filename(), "state.ron");
            assert_eq!(writing.text(), "rendered");
            assert_eq!(writing.written(Ok(())), None);
        }
        Flush::Failed(line) => panic!("nothing failed, yet: {line}"),
    }
}

#[test]
fn a_rendering_failure_is_logged_and_nothing_is_written() {
    let mut db = store("state.ron", one_package());
    match db.flush().encoded(Err("too deep".to_string())) {
        Flush::Failed(line) => assert_eq!(line, "error when writing database file: too deep"),
        Flush::Write(_) => panic!("there is no text to write"),
    }
    assert_eq!(db.data(), &one_package());
}

#[test]
fn a_write_failure_is_logged() {
    let mut db = store("state.ron", one_package());
    match db.flush().encoded(Ok("rendered".to_string())) {
        Flush::Write(writing) => assert_eq!(
            writing.written(Err("disk full".to_string())),
            Some("error when writing database file: disk full".to_string())
        ),
        Flush::Failed(line) => panic!("rendering succeeded: {line}"),
    }
}

#[test]
fn a_failed_flush_leaves_the_store_usable() {
    let mut db = store("state.ron", one_package());
    let _ = db.flush().encoded(Err("too deep".to_string()));
    assert!(db.contains_package("foo"));
    let mut bar = PackageNew {
        name: "bar".to_string(),
        repository: Repository { kind: "git".to_string(), url: "u".to_string() },
        downloads: 0,
        stargazers: 0,
    };
    db.add_package(&bar).unwrap();
    bar.name.push('2');
    assert!(db.contains_package("bar"));
    assert!(!db.contains_package("bar2"));
}

#[test]
fn teardown_then_flush_renders_the_marked_state() {
    let mut db = store("state.ron", one_package());
    let summary = db.teardown(true);
    assert!(summary.ends_with("total packages: 1"));
    let flushing = db.flush();
    let mut expected = one_package();
    expected.saved_on_panic = true;
    assert_eq!(db.data(), &expected);
    assert_eq!(flushing.filename(), "state.ron");
}

#[test]
fn two_flushes_in_a_row_are_independent() {
    let mut db = store("state.ron", one_package());
    let first = db.flush_at(SystemTime::UNIX_EPOCH + Duration::from_secs(1));
    let second = db.flush_at(SystemTime::UNIX_EPOCH + Duration::from_secs(2));
    assert_eq!(db.last_write_call_time(), SystemTime::UNIX_EPOCH + Duration::from_secs(2));
    assert!(matches!(first.encoded(Ok("a".to_string())), Flush::Write(_)));
    assert!(matches!(second.encoded(Ok("b".to_string())), Flush::Write(_)));
}

#[test]
fn the_layout_is_tabs_line_feeds_and_struct_names() {
    let config = DatabaseThing::pretty_config();
    assert_eq!(
        config,
        PrettyConfig { new_line: "\n".to_string(), indentor: "\t".to_string(), struct_names: true }
    );
}

#[test]
fn each_failure_belongs_to_its_family() {
    let path = "p".to_string();
    let cause = "c".to_string();
    assert_eq!(DbError::Read { path: path.clone(), cause: cause.clone() }.kind(), ErrorKind::Io);
    assert_eq!(DbError::Text { path: path.clone(), cause: cause.clone() }.kind(), ErrorKind::Decode);
    assert_eq!(DbError::Parse { path, cause: cause.clone() }.kind(), ErrorKind::Decode);
    assert_eq!(DbError::Encode { cause: cause.clone() }.kind(), ErrorKind::Encode);
    assert_eq!(DbError::Write { cause }.kind(), ErrorKind::Io);
}

#[test]
fn each_failure_is_worded_with_its_path_and_cause() {
    let path = "dir/state.ron".to_string();
    let cause = "why".to_string();
    assert_eq!(
        DbError::Read { path: path.clone(), cause: cause.clone() }.message(),
        "error reading file dir/state.ron: why"
    );
    assert_eq!(
        DbError::Text { path: path.clone(), cause: cause.clone() }.message(),
        "error parsing text in file dir/state.ron: why"
    );
    assert_eq!(
        DbError::Parse { path, cause: cause.clone() }.message(),
        "error parsing ron in file dir/state.ron: why"
    );
    assert_eq!(DbError::Encode { cause: cause.clone() }.message(), "why");
    assert_eq!(DbError::Write { cause }.message(), "why");
}

#[test]
fn a_failure_with_empty_parts_keeps_its_frame() {
    let failure = DbError::Read { path: String::new(), cause: String::new() };
    assert_eq!(failure.message(), "error reading file : ");
}

#[test]
fn texts_are_the_same_only_character_for_character() {
    assert!(same_text("", ""));
    assert!(same_text("foo", "foo"));
    assert!(!same_text("foo", "fop"));
    assert!(!same_text("foo", "foo "));
    assert!(!same_text("foo", "fo"));
    assert!(!same_text("", "a"));
    assert!(!same_text("foo", "Foo"));
    assert!(same_text("naïve ✓", "naïve ✓"));
    assert!(!same_text("naïve", "naive"));
    assert!(!same_text("é", "e\u{301}"));
}

#[test]
fn numbers_are_written_in_decimal() {
    assert_eq!(decimal(0), "0");
    assert_eq!(decimal(7), "7");
    assert_eq!(decimal(9), "9");
    assert_eq!(decimal(10), "10");
    assert_eq!(decimal(99), "99");
    assert_eq!(decimal(100), "100");
    assert_eq!(decimal(1_234_567_890), "1234567890");
    assert_eq!(decimal(usize::MAX), usize::MAX.to_string());
}
