use std::collections::HashMap;
use vesper_harness::store::{
    accepts_answer, first_readable, resume_candidates, store_begin, store_next, StoreAnswer, StoreAnswerOf,
    StoreFile, StoreOp, StorePhase, StorePhaseOf, StoreStepOf,
};

/// A file system of the three store files; `fail_swap` makes the rename of
/// the temporary file onto the target fail.
fn run_store(files: &mut HashMap<StoreFile, String>, snapshot: &str, fail_swap: bool) -> Result<(), String> {
    run_store_for(files, snapshot, fail_swap, usize::MAX).expect("the store finishes")
}

/// As `run_store`, but interrupted after `limit` operations (`None` then).
fn run_store_for(
    files: &mut HashMap<StoreFile, String>,
    snapshot: &str,
    fail_swap: bool,
    limit: usize,
) -> Option<Result<(), String>> {
    let (mut phase, mut step) = store_begin();
    let mut done = 0;
    loop {
        let op = match step {
            StoreStepOf::Finish(r) => return Some(r),
            StoreStepOf::Do(op) => op,
        };
        if done == limit {
            return None;
        }
        done += 1;
        let answer: StoreAnswer = match op {
            StoreOp::CreateDir => StoreAnswerOf::Done(Ok(())),
            StoreOp::WriteTemporary => {
                files.insert(StoreFile::Temporary, snapshot.to_string());
                StoreAnswerOf::Done(Ok(()))
            }
            StoreOp::Exists(f) => StoreAnswerOf::Found(Ok(files.contains_key(&f))),
            StoreOp::Remove(f) => StoreAnswerOf::Done(
                files.remove(&f).map(|_| ()).ok_or_else(|| "missing".to_string()),
            ),
            StoreOp::Rename(from, to) => {
                if fail_swap && from == StoreFile::Temporary && to == StoreFile::Target {
                    StoreAnswerOf::Done(Err("denied".to_string()))
                } else {
                    match files.remove(&from) {
                        Some(c) => {
                            files.insert(to, c);
                            StoreAnswerOf::Done(Ok(()))
                        }
                        None => StoreAnswerOf::Done(Err("missing".to_string())),
                    }
                }
            }
        };
        assert!(accepts_answer(&phase, &answer));
        let next = store_next(phase, answer);
        phase = next.0;
        step = next.1;
    }
}

#[test]
fn storing_replaces_the_snapshot_and_drops_the_backup() {
    let mut files = HashMap::new();
    files.insert(StoreFile::Target, "old".to_string());
    files.insert(StoreFile::Backup, "older".to_string());
    assert_eq!(run_store(&mut files, "new", false), Ok(()));
    assert_eq!(files.get(&StoreFile::Target).map(String::as_str), Some("new"));
    assert!(!files.contains_key(&StoreFile::Backup));
    assert!(!files.contains_key(&StoreFile::Temporary));
}

#[test]
fn first_store_writes_the_target() {
    let mut files = HashMap::new();
    assert_eq!(run_store(&mut files, "first", false), Ok(()));
    assert_eq!(files.get(&StoreFile::Target).map(String::as_str), Some("first"));
}

#[test]
fn a_failed_swap_keeps_the_old_snapshot() {
    let mut files = HashMap::new();
    files.insert(StoreFile::Target, "old".to_string());
    assert_eq!(
        run_store(&mut files, "new", true),
        Err("상태 파일 교체 실패: denied".to_string())
    );
    assert_eq!(files.get(&StoreFile::Target).map(String::as_str), Some("old"));
}

#[test]
fn store_errors_name_the_failed_operation() {
    let (phase, _) = store_begin();
    let (_, step) = store_next(phase, StoreAnswerOf::Done(Err("no space".to_string())));
    assert!(matches!(step, StoreStepOf::Finish(Err(ref m)) if m == "상태 디렉터리 생성 실패: no space"));
    assert_eq!(StoreFile::Backup.file_name(), "state.json.backup");
    assert_eq!(
        resume_candidates(),
        vec![StoreFile::Target, StoreFile::Backup, StoreFile::Temporary]
    );
}

#[test]
fn every_store_failure_has_its_message() {
    let cases: Vec<(StorePhase, StoreAnswer, &str)> = vec![
        (StorePhaseOf::WritingTemporary, StoreAnswerOf::Done(Err("e".to_string())), "임시 상태 저장 실패: e"),
        (StorePhaseOf::WritingTemporary, StoreAnswerOf::SerializeFailed("e".to_string()), "상태 직렬화 실패: e"),
        (StorePhaseOf::CheckingTarget, StoreAnswerOf::Found(Err("e".to_string())), "기존 상태 확인 실패: e"),
        (StorePhaseOf::BackingUp, StoreAnswerOf::Done(Err("e".to_string())), "기존 상태 백업 실패: e"),
        (StorePhaseOf::CheckingRestore("e".to_string()), StoreAnswerOf::Found(Ok(false)), "상태 파일 교체 실패: e"),
    ];
    for (phase, answer, message) in cases {
        assert!(accepts_answer(&phase, &answer));
        let (_, step) = store_next(phase, answer);
        assert!(matches!(step, StoreStepOf::Finish(Err(ref m)) if m == message));
    }
    assert!(!accepts_answer(&StorePhaseOf::Finished, &StoreAnswerOf::Done(Ok(()))));
    assert!(!accepts_answer(&StorePhaseOf::CheckingTarget, &StoreAnswerOf::Done(Ok(()))));
}

#[test]
fn resume_reads_the_first_candidate_that_could_be_read() {
    assert_eq!(first_readable(&vec![None, Some(b"backup".to_vec()), Some(b"tmp".to_vec())]), Some(1));
    assert_eq!(first_readable(&vec![Some(Vec::new()), Some(b"backup".to_vec())]), Some(0));
    assert_eq!(first_readable(&vec![None, None, None]), None);
}

#[test]
fn an_interrupted_store_leaves_a_whole_snapshot_first() {
    for fail_swap in [false, true] {
        for limit in 0..12 {
            let mut files = HashMap::new();
            files.insert(StoreFile::Target, "old".to_string());
            files.insert(StoreFile::Backup, "stale".to_string());
            run_store_for(&mut files, "new", fail_swap, limit);
            let first = resume_candidates().into_iter().find_map(|f| files.get(&f).cloned());
            assert!(
                first.as_deref() == Some("old") || first.as_deref() == Some("new"),
                "after {limit} operations: {first:?}"
            );
        }
    }
}
