use repoweave::durable_file::{
    advance, create_new, create_new_outcome, parent_of, replace, temp_path, CreateNewError,
    PublishJob, PublishReply, PublishStep,
};
use std::collections::BTreeMap;

/// A disk in memory.
struct Disk {
    files: BTreeMap<String, Vec<u8>>,
    serial: usize,
    synced: Vec<String>,
}

impl Disk {
    fn new() -> Disk {
        Disk { files: BTreeMap::new(), serial: 0, synced: Vec::new() }
    }

    fn next(&mut self) -> usize {
        self.serial += 1;
        self.serial
    }

    fn answer(&mut self, job: &PublishJob, bytes: &[u8], step: &PublishStep) -> PublishReply {
        match step {
            PublishStep::Stage => {
                self.files.insert(job.temp.clone(), bytes.to_vec());
                PublishReply::Done
            }
            PublishStep::Rename => match self.files.remove(&job.temp) {
                Some(held) => {
                    self.files.insert(job.path.clone(), held);
                    PublishReply::Done
                }
                None => failed("no temp"),
            },
            PublishStep::Link => {
                if self.files.contains_key(&job.path) {
                    PublishReply::Occupied
                } else {
                    let held = self.files[&job.temp].clone();
                    self.files.insert(job.path.clone(), held);
                    PublishReply::Done
                }
            }
            PublishStep::Remove { .. } => match self.files.remove(&job.temp) {
                Some(_) => PublishReply::Done,
                None => failed("no temp"),
            },
            PublishStep::SyncDir { dir } => {
                self.synced.push(dir.clone());
                PublishReply::Done
            }
            _ => panic!("a publication that has ended takes no reply"),
        }
    }

    fn temps(&self) -> Vec<String> {
        self.files.keys().filter(|n| n.contains(".tmp.")).cloned().collect()
    }
}

fn failed(error: &str) -> PublishReply {
    PublishReply::Failed { error: error.to_owned() }
}

fn ended(step: &PublishStep) -> bool {
    matches!(
        step,
        PublishStep::Finished | PublishStep::Occupied | PublishStep::Stopped { .. }
    )
}

fn publish(disk: &mut Disk, job: &PublishJob, bytes: &[u8]) -> PublishStep {
    let mut step = PublishStep::Stage;
    while !ended(&step) {
        let reply = disk.answer(job, bytes, &step);
        step = advance(job, step, reply);
    }
    step
}

fn path() -> String {
    "/w/f".to_owned()
}

#[test]
fn replace_overwrites_and_leaves_no_temp() {
    let mut disk = Disk::new();
    for bytes in [b"one", b"two"] {
        let serial = disk.next();
        let job = replace(&path(), 7, serial);
        assert!(matches!(publish(&mut disk, &job, bytes), PublishStep::Finished));
    }
    assert_eq!(disk.files[&path()], b"two");
    assert_eq!(disk.temps(), Vec::<String>::new());
    assert_eq!(disk.synced, vec!["/w".to_owned(), "/w".to_owned()]);
}

#[test]
fn create_new_refuses_an_occupied_path_and_leaves_it_intact() {
    let mut disk = Disk::new();
    let serial = disk.next();
    let first = publish(&mut disk, &create_new(&path(), 7, serial), b"first");
    assert!(matches!(create_new_outcome(first), Some(Ok(()))));
    let serial = disk.next();
    let second = publish(&mut disk, &create_new(&path(), 7, serial), b"second");
    assert!(matches!(
        create_new_outcome(second),
        Some(Err(CreateNewError::AlreadyExists))
    ));
    assert_eq!(disk.files[&path()], b"first");
    assert_eq!(disk.temps(), Vec::<String>::new());
}

#[test]
fn concurrent_create_new_has_exactly_one_winner() {
    let mut disk = Disk::new();
    let mut runs: Vec<(PublishJob, String, Option<PublishStep>)> = (0..16)
        .map(|i| (create_new(&path(), 7, i), format!("{i}"), Some(PublishStep::Stage)))
        .collect();
    while runs.iter().any(|(_, _, step)| step.as_ref().is_some_and(|s| !ended(s))) {
        for (job, bytes, slot) in runs.iter_mut() {
            let step = slot.take().unwrap();
            let step = if ended(&step) {
                step
            } else {
                let reply = disk.answer(job, bytes.as_bytes(), &step);
                advance(job, step, reply)
            };
            *slot = Some(step);
        }
    }
    let winners = runs
        .into_iter()
        .filter_map(|(_, _, step)| create_new_outcome(step.unwrap()))
        .filter(|outcome| outcome.is_ok())
        .count();
    assert_eq!(winners, 1);
    assert_eq!(disk.temps(), Vec::<String>::new());
}

#[test]
fn temps_stand_beside_their_file_under_a_name_of_their_own() {
    assert_eq!(temp_path(&"/w/a/f.json".to_owned(), 42, 7), "/w/a/f.json.tmp.42.7");
    assert_eq!(temp_path(&"f".to_owned(), 1, 0), "f.tmp.1.0");
    assert_ne!(temp_path(&path(), 1, 11), temp_path(&path(), 11, 1));
    assert_eq!(parent_of(&"/w/a/f.json".to_owned()), "/w/a");
    assert_eq!(parent_of(&"/f".to_owned()), "/");
}

#[test]
fn a_failed_write_of_a_replacement_names_the_path() {
    let job = replace(&path(), 7, 1);
    let step = advance(&job, PublishStep::Stage, failed("disk full"));
    let step = match step {
        PublishStep::Remove { .. } => advance(&job, step, PublishReply::Done),
        other => other,
    };
    match step {
        PublishStep::Stopped { error } => assert_eq!(error, "failed to stage a write of /w/f"),
        other => panic!("{other:?}"),
    }
}

#[test]
fn a_failed_rename_removes_the_temp_and_names_both_paths() {
    let job = replace(&path(), 7, 1);
    let step = advance(&job, PublishStep::Rename, failed("denied"));
    assert!(matches!(step, PublishStep::Remove { .. }));
    match advance(&job, step, failed("gone")) {
        PublishStep::Stopped { error } => {
            assert_eq!(error, "failed to rename /w/f.tmp.7.1 to /w/f");
        }
        other => panic!("{other:?}"),
    }
}

#[test]
fn a_directory_that_cannot_be_synced_fails_the_replacement() {
    let job = replace(&path(), 7, 1);
    let step = PublishStep::SyncDir { dir: "/w".to_owned() };
    match advance(&job, step, failed("denied")) {
        PublishStep::Stopped { error } => assert_eq!(error, "failed to fsync directory /w"),
        other => panic!("{other:?}"),
    }
}

#[test]
fn a_new_file_that_cannot_be_linked_tells_the_error_as_it_is() {
    let job = create_new(&path(), 7, 1);
    let step = advance(&job, PublishStep::Link, failed("no space"));
    let step = advance(&job, step, PublishReply::Done);
    match create_new_outcome(step) {
        Some(Err(CreateNewError::Io { error })) => assert_eq!(error, "no space"),
        other => panic!("{other:?}"),
    }
    assert!(create_new_outcome(PublishStep::Link).is_none());
}
