use oxis::config::ShredConfig;
use oxis::error::{Failure, IoFault, Phase, ShredError};
use oxis::random::RandomError;
use oxis::protocol::{
    decide, settle_name, settle_overwrite, stage_phase, Action, Event, Intent, Stage,
    NAME_ATTEMPTS,
};
use oxis::shred::Shredder;
use std::collections::BTreeMap;

/// A directory of files in memory, with one of them open.
struct Disk {
    files: BTreeMap<Vec<u8>, Vec<u8>>,
    open: Option<Vec<u8>>,
    cursor: usize,
    log: Vec<Action>,
    writes: Vec<usize>,
    before_truncation: Option<Vec<u8>>,
    length_at_rename: Option<usize>,
    fail_at: Option<(usize, IoFault)>,
    taken_probes: usize,
}

impl Disk {
    fn with(path: &[u8], content: &[u8]) -> Disk {
        let mut files = BTreeMap::new();
        files.insert(path.to_vec(), content.to_vec());
        Disk {
            files,
            open: None,
            cursor: 0,
            log: Vec::new(),
            writes: Vec::new(),
            before_truncation: None,
            length_at_rename: None,
            fail_at: None,
            taken_probes: 0,
        }
    }

    fn perform(&mut self, machine: &Shredder, action: Action) -> Event {
        let index = self.log.len();
        self.log.push(action);
        if let Some((at, fault)) = self.fail_at {
            if at == index {
                return Event::Failed(fault);
            }
        }
        match action {
            Action::Open => {
                if self.files.contains_key(machine.path()) {
                    self.open = Some(machine.path().clone());
                    Event::Completed
                } else {
                    Event::Failed(IoFault::Missing)
                }
            }
            Action::Measure => Event::Size(self.files[self.open.as_ref().unwrap()].len() as u64),
            Action::Rewind => {
                self.cursor = 0;
                Event::Completed
            }
            Action::Write { len } => {
                let data = machine.chunk().to_vec();
                assert_eq!(data.len(), len);
                let file = self.files.get_mut(self.open.as_ref().unwrap()).unwrap();
                let end = self.cursor + data.len();
                if file.len() < end {
                    file.resize(end, 0);
                }
                file[self.cursor..end].copy_from_slice(&data);
                self.cursor = end;
                self.writes.push(len);
                Event::Completed
            }
            Action::Sync => Event::Completed,
            Action::Truncate => {
                let file = self.files.get_mut(self.open.as_ref().unwrap()).unwrap();
                self.before_truncation = Some(file.clone());
                file.clear();
                Event::Completed
            }
            Action::Probe => {
                if self.taken_probes > 0 {
                    self.taken_probes -= 1;
                    Event::Present(true)
                } else {
                    Event::Present(self.files.contains_key(machine.target()))
                }
            }
            Action::Rename => {
                let content = self.files.remove(machine.path()).unwrap();
                self.length_at_rename = Some(content.len());
                self.files.insert(machine.target().clone(), content);
                self.open = None;
                Event::Completed
            }
            Action::Unlink => {
                self.files.remove(machine.target()).unwrap();
                Event::Completed
            }
            Action::Finish | Action::Abort(_) => unreachable!(),
        }
    }

    fn run(&mut self, machine: &mut Shredder) -> Action {
        let mut action = machine.step(Event::Begin);
        loop {
            match action {
                Action::Finish | Action::Abort(_) => return action,
                _ => {
                    let event = self.perform(machine, action);
                    action = machine.step(event);
                }
            }
        }
    }
}

fn small() -> ShredConfig {
    ShredConfig::new(3, 4).unwrap()
}

#[test]
fn whole_protocol_on_a_file_of_4097_bytes() {
    let initial = vec![0xaau8; 4097];
    let mut disk = Disk::with(b"dir/secret", &initial);
    disk.files.insert(b"dir/other".to_vec(), b"keep".to_vec());
    let mut machine = Shredder::new(b"dir/secret".to_vec(), ShredConfig::standard());
    assert_eq!(disk.run(&mut machine), Action::Finish);
    assert_eq!(machine.stage(), Stage::Destroyed);
    assert_eq!(machine.outcome(), Some(Ok(())));

    let mut expected = vec![Action::Open, Action::Measure];
    for _ in 0..7 {
        expected.push(Action::Rewind);
        expected.push(Action::Write { len: 4096 });
        expected.push(Action::Write { len: 1 });
        expected.push(Action::Sync);
    }
    expected.extend_from_slice(&[
        Action::Rewind,
        Action::Truncate,
        Action::Sync,
        Action::Probe,
        Action::Rename,
        Action::Unlink,
    ]);
    assert_eq!(disk.log, expected);

    let overwritten = disk.before_truncation.unwrap();
    assert_eq!(overwritten.len(), 4097);
    assert_ne!(overwritten, initial);
    assert_eq!(disk.length_at_rename, Some(0));
    assert!(!disk.files.contains_key(&b"dir/secret".to_vec()));
    assert_eq!(disk.files.len(), 1);
    assert_eq!(disk.files[&b"dir/other".to_vec()], b"keep".to_vec());
}

#[test]
fn final_chunk_of_4097_bytes_is_one_byte() {
    let mut disk = Disk::with(b"f", &vec![1u8; 4097]);
    let mut machine = Shredder::new(b"f".to_vec(), ShredConfig::new(1, 4096).unwrap());
    assert_eq!(disk.run(&mut machine), Action::Finish);
    assert_eq!(disk.writes, vec![4096, 1]);
    assert_eq!(disk.before_truncation.unwrap().len(), 4097);
}

#[test]
fn file_of_whole_blocks_has_no_short_chunk() {
    let mut disk = Disk::with(b"f", &vec![1u8; 12]);
    let mut machine = Shredder::new(b"f".to_vec(), small());
    assert_eq!(disk.run(&mut machine), Action::Finish);
    assert_eq!(disk.writes, vec![4; 9]);
    assert_eq!(disk.before_truncation.unwrap().len(), 12);
}

#[test]
fn every_pass_replaces_every_byte() {
    let initial: Vec<u8> = (0..=255u8).cycle().take(1000).collect();
    let mut disk = Disk::with(b"f", &initial);
    let mut machine = Shredder::new(b"f".to_vec(), ShredConfig::new(2, 64).unwrap());
    assert_eq!(disk.run(&mut machine), Action::Finish);
    assert_eq!(disk.writes.iter().sum::<usize>(), 2000);
    assert_eq!(disk.writes.len(), 32);
    let overwritten = disk.before_truncation.unwrap();
    assert_eq!(overwritten.len(), 1000);
    let unchanged = overwritten.iter().zip(initial.iter()).filter(|(a, b)| a == b).count();
    assert!(unchanged < 100);
}

#[test]
fn empty_file_is_flushed_truncated_and_removed() {
    let mut disk = Disk::with(b"empty", b"");
    let mut machine = Shredder::new(b"empty".to_vec(), small());
    assert_eq!(disk.run(&mut machine), Action::Finish);
    assert!(disk.writes.is_empty());
    assert_eq!(
        disk.log,
        vec![
            Action::Open,
            Action::Measure,
            Action::Rewind,
            Action::Sync,
            Action::Rewind,
            Action::Sync,
            Action::Rewind,
            Action::Sync,
            Action::Rewind,
            Action::Truncate,
            Action::Sync,
            Action::Probe,
            Action::Rename,
            Action::Unlink,
        ]
    );
    assert!(disk.files.is_empty());
}

#[test]
fn missing_file_is_not_found_and_nothing_is_touched() {
    let mut disk = Disk::with(b"dir/there", b"content");
    let mut machine = Shredder::new(b"dir/absent".to_vec(), ShredConfig::standard());
    let failure = Failure { kind: ShredError::NotFound, phase: Phase::Open };
    assert_eq!(disk.run(&mut machine), Action::Abort(failure));
    assert_eq!(disk.log, vec![Action::Open]);
    assert_eq!(disk.files.len(), 1);
    assert_eq!(disk.files[&b"dir/there".to_vec()], b"content".to_vec());
    assert_eq!(machine.outcome(), Some(Err(failure)));
    assert_eq!(machine.step(Event::Completed), Action::Abort(failure));
    assert_eq!(machine.step(Event::Begin), Action::Abort(failure));
}

#[test]
fn renamed_file_gets_a_fresh_name_in_the_same_directory() {
    let mut disk = Disk::with(b"a/b/secret", b"0123456789");
    let mut machine = Shredder::new(b"a/b/secret".to_vec(), small());
    assert_eq!(disk.run(&mut machine), Action::Finish);
    let target = machine.target().clone();
    assert_eq!(target.len(), 4 + 64);
    assert_eq!(&target[..4], b"a/b/");
    assert!(target[4..].iter().all(|b| b.is_ascii_hexdigit() && !b.is_ascii_uppercase()));
    assert_ne!(&target[4..], b"secret");
    assert_eq!(machine.path(), &b"a/b/secret".to_vec());
}

#[test]
fn bare_file_name_is_renamed_to_a_bare_name() {
    let mut disk = Disk::with(b"secret", b"0123456789");
    let mut machine = Shredder::new(b"secret".to_vec(), small());
    assert_eq!(disk.run(&mut machine), Action::Finish);
    let target = machine.target().clone();
    assert_eq!(target.len(), 64);
    assert!(!target.contains(&b'/'));
}

#[test]
fn taken_name_is_replaced_by_another() {
    let mut disk = Disk::with(b"secret", b"0123456789");
    disk.taken_probes = 3;
    let mut machine = Shredder::new(b"secret".to_vec(), small());
    assert_eq!(disk.run(&mut machine), Action::Finish);
    let probes = disk.log.iter().filter(|a| **a == Action::Probe).count();
    assert_eq!(probes, 4);
    assert!(disk.files.is_empty());
}

#[test]
fn rename_is_given_up_when_every_name_is_taken() {
    assert_eq!(NAME_ATTEMPTS, 8);
    let mut disk = Disk::with(b"secret", b"0123456789");
    disk.taken_probes = 8;
    let mut machine = Shredder::new(b"secret".to_vec(), small());
    let failure = Failure { kind: ShredError::IoFailure, phase: Phase::Rename };
    assert_eq!(disk.run(&mut machine), Action::Abort(failure));
    let probes = disk.log.iter().filter(|a| **a == Action::Probe).count();
    assert_eq!(probes, 8);
    assert!(!disk.log.contains(&Action::Rename));
    assert_eq!(disk.files[&b"secret".to_vec()], Vec::<u8>::new());
}

#[test]
fn denied_open_is_permission_denied() {
    let mut disk = Disk::with(b"secret", b"0123456789");
    disk.fail_at = Some((0, IoFault::Denied));
    let mut machine = Shredder::new(b"secret".to_vec(), small());
    let failure = Failure { kind: ShredError::PermissionDenied, phase: Phase::Open };
    assert_eq!(disk.run(&mut machine), Action::Abort(failure));
    assert_eq!(disk.files[&b"secret".to_vec()], b"0123456789".to_vec());
}

#[test]
fn failed_write_stops_the_file_and_keeps_earlier_passes() {
    let initial = b"0123456789".to_vec();
    let mut disk = Disk::with(b"secret", &initial);
    // Open, Measure, then pass 0: Rewind, three writes, Sync; pass 1: Rewind, write.
    disk.fail_at = Some((8, IoFault::Other));
    let mut machine = Shredder::new(b"secret".to_vec(), small());
    let failure = Failure { kind: ShredError::IoFailure, phase: Phase::Overwrite };
    assert_eq!(disk.run(&mut machine), Action::Abort(failure));
    assert_eq!(disk.log.len(), 9);
    assert_eq!(disk.writes, vec![4, 4, 2]);
    assert!(!disk.log.contains(&Action::Truncate));
    let left = &disk.files[&b"secret".to_vec()];
    assert_eq!(left.len(), 10);
    assert_ne!(left, &initial);
}

#[test]
fn failure_names_the_phase_that_failed() {
    let phases = [
        (0, Phase::Open),
        (1, Phase::Measure),
        (2, Phase::Overwrite),
        (3, Phase::Overwrite),
        (4, Phase::Overwrite),
        (5, Phase::Truncate),
        (6, Phase::Truncate),
        (7, Phase::Truncate),
        (8, Phase::Rename),
        (9, Phase::Rename),
        (10, Phase::Unlink),
    ];
    for &(at, phase) in &phases {
        let mut disk = Disk::with(b"secret", b"abc");
        disk.fail_at = Some((at, IoFault::Other));
        let mut machine = Shredder::new(b"secret".to_vec(), ShredConfig::new(1, 4).unwrap());
        let failure = Failure { kind: ShredError::IoFailure, phase };
        assert_eq!(disk.run(&mut machine), Action::Abort(failure));
        assert_eq!(disk.log.len(), at + 1);
    }
}

#[test]
fn unexpected_report_halts_the_protocol() {
    let mut machine = Shredder::new(b"secret".to_vec(), small());
    assert_eq!(machine.step(Event::Begin), Action::Open);
    let failure = Failure { kind: ShredError::IoFailure, phase: Phase::Open };
    assert_eq!(machine.step(Event::Size(3)), Action::Abort(failure));
    assert_eq!(machine.stage(), Stage::Halted(failure));

    let mut fresh = Shredder::new(b"secret".to_vec(), small());
    assert_eq!(fresh.step(Event::Completed), Action::Abort(failure));
}

#[test]
fn finished_machine_stays_finished() {
    let mut disk = Disk::with(b"secret", b"abc");
    let mut machine = Shredder::new(b"secret".to_vec(), small());
    assert_eq!(disk.run(&mut machine), Action::Finish);
    assert_eq!(machine.step(Event::Completed), Action::Finish);
    assert_eq!(machine.step(Event::Failed(IoFault::Other)), Action::Finish);
    assert_eq!(machine.outcome(), Some(Ok(())));
}

#[test]
fn new_machine_has_asked_for_nothing() {
    let machine = Shredder::new(b"dir/secret".to_vec(), small());
    assert_eq!(machine.stage(), Stage::Ready);
    assert_eq!(machine.outcome(), None);
    assert_eq!(machine.config(), small());
    assert_eq!(machine.path(), &b"dir/secret".to_vec());
    assert!(machine.target().is_empty());
    assert!(machine.chunk().is_empty());
}

#[test]
fn chunk_is_drawn_afresh_for_every_write() {
    let mut machine = Shredder::new(b"f".to_vec(), ShredConfig::new(1, 32).unwrap());
    assert_eq!(machine.step(Event::Begin), Action::Open);
    assert_eq!(machine.step(Event::Completed), Action::Measure);
    assert_eq!(machine.step(Event::Size(64)), Action::Rewind);
    assert_eq!(machine.step(Event::Completed), Action::Write { len: 32 });
    let first = machine.chunk().to_vec();
    assert_eq!(first.len(), 32);
    assert_ne!(first, vec![0u8; 32]);
    assert_eq!(machine.step(Event::Completed), Action::Write { len: 32 });
    assert_ne!(machine.chunk().to_vec(), first);
    assert_eq!(machine.step(Event::Completed), Action::Sync);
}

#[test]
fn decisions_follow_the_protocol() {
    let config = small();
    assert_eq!(
        decide(Stage::Ready, &config, Event::Begin),
        Intent::Plain(Stage::Opening, Action::Open)
    );
    assert_eq!(
        decide(Stage::Measuring, &config, Event::Size(10)),
        Intent::Plain(Stage::Rewinding { length: 10, pass: 0 }, Action::Rewind)
    );
    assert_eq!(
        decide(Stage::Rewinding { length: 10, pass: 1 }, &config, Event::Completed),
        Intent::Overwrite { length: 10, pass: 1, offset: 0 }
    );
    assert_eq!(
        decide(Stage::Writing { length: 10, pass: 1, offset: 4 }, &config, Event::Completed),
        Intent::Overwrite { length: 10, pass: 1, offset: 8 }
    );
    assert_eq!(
        decide(Stage::Writing { length: 10, pass: 1, offset: 8 }, &config, Event::Completed),
        Intent::Plain(Stage::Flushing { length: 10, pass: 1 }, Action::Sync)
    );
    assert_eq!(
        decide(Stage::Flushing { length: 10, pass: 1 }, &config, Event::Completed),
        Intent::Plain(Stage::Rewinding { length: 10, pass: 2 }, Action::Rewind)
    );
    assert_eq!(
        decide(Stage::Flushing { length: 10, pass: 2 }, &config, Event::Completed),
        Intent::Plain(Stage::Resetting, Action::Rewind)
    );
    assert_eq!(
        decide(Stage::Settling, &config, Event::Completed),
        Intent::Name { attempts: 7 }
    );
    assert_eq!(
        decide(Stage::Probing { attempts: 2 }, &config, Event::Present(true)),
        Intent::Name { attempts: 1 }
    );
    assert_eq!(
        decide(Stage::Probing { attempts: 2 }, &config, Event::Present(false)),
        Intent::Plain(Stage::Renaming, Action::Rename)
    );
}

#[test]
fn unavailable_entropy_stops_the_overwrite() {
    let failure = Failure { kind: ShredError::RandomSourceUnavailable, phase: Phase::Overwrite };
    assert_eq!(
        settle_overwrite(10, 0, 8, 4, Err(RandomError {})),
        (Stage::Halted(failure), Action::Abort(failure))
    );
    assert_eq!(
        settle_overwrite(10, 0, 8, 4, Ok(())),
        (Stage::Writing { length: 10, pass: 0, offset: 8 }, Action::Write { len: 2 })
    );
    assert_eq!(
        settle_overwrite(4097, 6, 0, 4096, Ok(())),
        (Stage::Writing { length: 4097, pass: 6, offset: 0 }, Action::Write { len: 4096 })
    );
}

#[test]
fn unavailable_entropy_stops_the_rename() {
    let failure = Failure { kind: ShredError::RandomSourceUnavailable, phase: Phase::Rename };
    assert_eq!(
        settle_name(5, &Err(RandomError {})),
        (Stage::Halted(failure), Action::Abort(failure))
    );
    assert_eq!(
        settle_name(5, &Ok(b"0123".to_vec())),
        (Stage::Probing { attempts: 5 }, Action::Probe)
    );
}

#[test]
fn each_stage_has_its_phase() {
    assert_eq!(stage_phase(Stage::Ready), Phase::Open);
    assert_eq!(stage_phase(Stage::Measuring), Phase::Measure);
    assert_eq!(stage_phase(Stage::Writing { length: 1, pass: 0, offset: 0 }), Phase::Overwrite);
    assert_eq!(stage_phase(Stage::Settling), Phase::Truncate);
    assert_eq!(stage_phase(Stage::Probing { attempts: 0 }), Phase::Rename);
    assert_eq!(stage_phase(Stage::Unlinking), Phase::Unlink);
    let failure = Failure { kind: ShredError::NotFound, phase: Phase::List };
    assert_eq!(stage_phase(Stage::Halted(failure)), Phase::List);
}
