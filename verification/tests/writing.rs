use std::collections::HashMap;

use bound_variables::{
    BoundVariables, Error, ErrorKind, Outcome, Pos, SourceInfo, Value, WriteAction, WriteStage,
    Writer, OWNER_READ_WRITE,
};

fn place() -> SourceInfo {
    SourceInfo::new(Pos::new(12, 1), Pos::new(12, 30))
}

fn text(s: &str) -> String {
    s.to_string()
}

fn bound_token() -> BoundVariables {
    let mut bound = BoundVariables::new();
    bound.register(text("token"), text("/ctx/secrets/token.txt"));
    bound
}

/// Files in memory: the text and the access rights by path. A request ends
/// as the file system of the test wants it to.
struct Disk {
    files: HashMap<String, (String, u32)>,
    refuse: Option<usize>,
    requests: usize,
}

impl Disk {
    fn new() -> Disk {
        Disk { files: HashMap::new(), refuse: None, requests: 0 }
    }

    /// Carries out one request and says how it ended. The request with the
    /// number `refuse` fails.
    fn perform(&mut self, action: &WriteAction) -> Outcome {
        let number = self.requests;
        self.requests += 1;
        let refused = self.refuse == Some(number);
        match action {
            WriteAction::EnsureParentDirectory { .. } => {
                if refused {
                    return Outcome::Failed(text("Not a directory (os error 20)"));
                }
            }
            WriteAction::WriteTemporary { path, content } => {
                if refused {
                    self.files.insert(path.clone(), (text("ha"), 0o644));
                    return Outcome::Failed(text("No space left on device (os error 28)"));
                }
                self.files.insert(path.clone(), (content.clone(), 0o644));
            }
            WriteAction::Rename { from, to } => {
                if refused {
                    return Outcome::Failed(text("Permission denied (os error 13)"));
                }
                let file = self.files.remove(from).unwrap();
                self.files.insert(to.clone(), file);
            }
            WriteAction::RestrictPermissions { path, mode } => {
                if refused {
                    return Outcome::Failed(text("Operation not permitted (os error 1)"));
                }
                self.files.get_mut(path).unwrap().1 = *mode;
            }
            WriteAction::Done | WriteAction::Fail(_) | WriteAction::Ignored => {
                panic!("nothing was asked for");
            }
        }
        Outcome::Succeeded
    }
}

/// Writes the variable as a caller would: every request is carried out on
/// the disk and its outcome reported, until the writer asks for nothing more.
fn write(bound: &BoundVariables, disk: &mut Disk, name: &str, value: &Value) -> Result<(), Error> {
    let (mut writer, mut action) = bound.bind_variable(name, value, place());
    loop {
        match action {
            WriteAction::Done => return Ok(()),
            WriteAction::Fail(error) => return Err(error),
            WriteAction::Ignored => panic!("an outcome was ignored"),
            request => {
                let outcome = disk.perform(&request);
                let (next, answer) = writer.advance(outcome);
                writer = next;
                action = answer;
            }
        }
    }
}

#[test]
fn a_bound_variable_is_written_in_four_requests() {
    let bound = bound_token();
    let (writer, first) = bound.bind_variable("token", &Value::String(text("newval")), place());
    assert_eq!(first, WriteAction::EnsureParentDirectory { path: text("/ctx/secrets/token.txt") });
    let (writer, second) = writer.advance(Outcome::Succeeded);
    assert_eq!(
        second,
        WriteAction::WriteTemporary {
            path: text("/ctx/secrets/token.txt.tmp"),
            content: text("newval"),
        }
    );
    let (writer, third) = writer.advance(Outcome::Succeeded);
    assert_eq!(
        third,
        WriteAction::Rename {
            from: text("/ctx/secrets/token.txt.tmp"),
            to: text("/ctx/secrets/token.txt"),
        }
    );
    let (writer, fourth) = writer.advance(Outcome::Succeeded);
    assert_eq!(
        fourth,
        WriteAction::RestrictPermissions { path: text("/ctx/secrets/token.txt"), mode: 0o600 }
    );
    let (writer, last) = writer.advance(Outcome::Succeeded);
    assert_eq!(last, WriteAction::Done);
    assert_eq!(writer, Writer::Finished);
}

#[test]
fn the_writer_keeps_what_it_writes_where() {
    let bound = bound_token();
    let (writer, _) = bound.bind_variable("token", &Value::String(text("newval")), place());
    assert_eq!(
        writer,
        Writer::Active {
            stage: WriteStage::Directory,
            target: text("/ctx/secrets/token.txt"),
            content: text("newval"),
            source_info: place(),
        }
    );
    let (writer, _) = writer.advance(Outcome::Succeeded);
    assert_eq!(
        writer,
        Writer::Active {
            stage: WriteStage::Temporary,
            target: text("/ctx/secrets/token.txt"),
            content: text("newval"),
            source_info: place(),
        }
    );
}

#[test]
fn the_written_file_holds_exactly_the_value() {
    let bound = bound_token();
    let mut disk = Disk::new();
    assert_eq!(write(&bound, &mut disk, "token", &Value::String(text("newval"))), Ok(()));
    assert_eq!(disk.files.len(), 1);
    assert_eq!(disk.files["/ctx/secrets/token.txt"], (text("newval"), 0o600));
    assert_eq!(disk.requests, 4);
}

#[test]
fn a_later_value_takes_the_place_of_an_earlier_one() {
    let bound = bound_token();
    let mut disk = Disk::new();
    assert_eq!(write(&bound, &mut disk, "token", &Value::String(text("a long first value"))), Ok(()));
    assert_eq!(write(&bound, &mut disk, "token", &Value::String(text("short"))), Ok(()));
    assert_eq!(disk.files.len(), 1);
    assert_eq!(disk.files["/ctx/secrets/token.txt"], (text("short"), 0o600));
}

#[test]
fn no_line_feed_is_put_behind_the_value() {
    let bound = bound_token();
    let mut disk = Disk::new();
    assert_eq!(write(&bound, &mut disk, "token", &Value::String(text("line\n"))), Ok(()));
    assert_eq!(disk.files["/ctx/secrets/token.txt"].0, "line\n");
    assert_eq!(write(&bound, &mut disk, "token", &Value::String(String::new())), Ok(()));
    assert_eq!(disk.files["/ctx/secrets/token.txt"].0, "");
}

#[test]
fn a_value_that_is_no_string_is_written_in_its_display_form() {
    let bound = bound_token();
    let mut disk = Disk::new();
    assert_eq!(write(&bound, &mut disk, "token", &Value::Other(text("42"))), Ok(()));
    assert_eq!(disk.files["/ctx/secrets/token.txt"].0, "42");
    assert_eq!(Value::Other(text("true")).canonical_text(), "true");
    assert_eq!(Value::String(text("as it is")).canonical_text(), "as it is");
}

#[test]
fn a_variable_that_is_not_bound_is_not_written() {
    let bound = bound_token();
    let (writer, first) = bound.bind_variable("unregistered", &Value::String(text("x")), place());
    assert_eq!(first, WriteAction::Done);
    assert_eq!(writer, Writer::Finished);
    let (writer, next) = writer.advance(Outcome::Succeeded);
    assert_eq!(next, WriteAction::Ignored);
    let (writer, next) = writer.advance(Outcome::Failed(text("late")));
    assert_eq!(next, WriteAction::Ignored);
    assert_eq!(writer, Writer::Finished);
    let mut disk = Disk::new();
    assert_eq!(write(&bound, &mut disk, "unregistered", &Value::String(text("x"))), Ok(()));
    assert!(disk.files.is_empty());
    assert_eq!(disk.requests, 0);
}

#[test]
fn an_empty_registry_writes_nothing() {
    let bound = BoundVariables::new();
    let (_, first) = bound.bind_variable("token", &Value::String(text("x")), place());
    assert_eq!(first, WriteAction::Done);
}

#[test]
fn a_directory_that_cannot_be_made_gives_a_write_error_for_the_file() {
    let bound = bound_token();
    let (writer, _) = bound.bind_variable("token", &Value::String(text("newval")), place());
    let (writer, answer) = writer.advance(Outcome::Failed(text("Not a directory (os error 20)")));
    assert_eq!(
        answer,
        WriteAction::Fail(Error {
            source_info: place(),
            kind: ErrorKind::FileWriteAccess {
                path: text("/ctx/secrets/token.txt"),
                error: text("Not a directory (os error 20)"),
            },
            fatal: false,
        })
    );
    assert_eq!(writer, Writer::Finished);
    let (_, answer) = writer.advance(Outcome::Succeeded);
    assert_eq!(answer, WriteAction::Ignored);
    let mut disk = Disk::new();
    disk.refuse = Some(0);
    assert!(write(&bound, &mut disk, "token", &Value::String(text("newval"))).is_err());
    assert!(disk.files.is_empty());
    assert_eq!(disk.requests, 1);
}

#[test]
fn a_temporary_file_that_cannot_be_written_leaves_the_file_alone() {
    let bound = bound_token();
    let mut disk = Disk::new();
    assert_eq!(write(&bound, &mut disk, "token", &Value::String(text("old"))), Ok(()));
    disk.requests = 0;
    disk.refuse = Some(1);
    let result = write(&bound, &mut disk, "token", &Value::String(text("halved")));
    assert_eq!(
        result,
        Err(Error {
            source_info: place(),
            kind: ErrorKind::FileWriteAccess {
                path: text("/ctx/secrets/token.txt"),
                error: text("No space left on device (os error 28)"),
            },
            fatal: false,
        })
    );
    assert_eq!(disk.files["/ctx/secrets/token.txt"], (text("old"), 0o600));
    assert_eq!(disk.requests, 2);
}

#[test]
fn a_rename_that_fails_leaves_the_file_alone() {
    let bound = bound_token();
    let mut disk = Disk::new();
    assert_eq!(write(&bound, &mut disk, "token", &Value::String(text("old"))), Ok(()));
    disk.requests = 0;
    disk.refuse = Some(2);
    let result = write(&bound, &mut disk, "token", &Value::String(text("new")));
    assert_eq!(
        result,
        Err(Error {
            source_info: place(),
            kind: ErrorKind::FileWriteAccess {
                path: text("/ctx/secrets/token.txt"),
                error: text("Permission denied (os error 13)"),
            },
            fatal: false,
        })
    );
    assert_eq!(disk.files["/ctx/secrets/token.txt"], (text("old"), 0o600));
    assert_eq!(disk.files["/ctx/secrets/token.txt.tmp"].0, "new");
    assert_eq!(disk.requests, 3);
}

#[test]
fn access_rights_that_cannot_be_set_are_no_error() {
    let bound = bound_token();
    let mut disk = Disk::new();
    disk.refuse = Some(3);
    assert_eq!(write(&bound, &mut disk, "token", &Value::String(text("newval"))), Ok(()));
    assert_eq!(disk.files["/ctx/secrets/token.txt"], (text("newval"), 0o644));
    assert_eq!(disk.requests, 4);
}

#[test]
fn the_file_is_old_or_new_after_every_request() {
    let bound = bound_token();
    let mut disk = Disk::new();
    assert_eq!(write(&bound, &mut disk, "token", &Value::String(text("old"))), Ok(()));
    let (mut writer, mut action) =
        bound.bind_variable("token", &Value::String(text("new")), place());
    let mut seen = Vec::new();
    while action != WriteAction::Done {
        let outcome = disk.perform(&action);
        seen.push(disk.files["/ctx/secrets/token.txt"].0.clone());
        let (next, answer) = writer.advance(outcome);
        writer = next;
        action = answer;
    }
    assert_eq!(seen, vec![text("old"), text("old"), text("new"), text("new")]);
}

#[test]
fn the_rights_of_a_written_file_shut_out_group_and_others() {
    assert_eq!(OWNER_READ_WRITE, 0o600);
    assert_eq!(OWNER_READ_WRITE & 0o077, 0);
    assert_eq!(OWNER_READ_WRITE & 0o700, 0o600);
}

#[test]
fn each_variable_is_written_to_its_own_file() {
    let mut bound = bound_token();
    bound.register(text("session"), text("/ctx/session"));
    let mut disk = Disk::new();
    assert_eq!(write(&bound, &mut disk, "token", &Value::String(text("t"))), Ok(()));
    assert_eq!(write(&bound, &mut disk, "session", &Value::String(text("s"))), Ok(()));
    assert_eq!(disk.files.len(), 2);
    assert_eq!(disk.files["/ctx/secrets/token.txt"].0, "t");
    assert_eq!(disk.files["/ctx/session"].0, "s");
}

#[test]
fn a_failure_for_one_variable_does_not_touch_the_registry() {
    let bound = bound_token();
    let mut disk = Disk::new();
    disk.refuse = Some(0);
    assert!(write(&bound, &mut disk, "token", &Value::String(text("x"))).is_err());
    assert!(bound.is_bound("token"));
    disk.refuse = None;
    assert_eq!(write(&bound, &mut disk, "token", &Value::String(text("x"))), Ok(()));
}

#[test]
fn a_written_value_is_read_back_as_it_was() {
    let bound = bound_token();
    let mut disk = Disk::new();
    assert_eq!(write(&bound, &mut disk, "token", &Value::String(text("abc 123 "))), Ok(()));
    let content = disk.files["/ctx/secrets/token.txt"].0.clone();
    assert_eq!(bound_variables::hydrated_text(&content), "abc 123 ");
}
