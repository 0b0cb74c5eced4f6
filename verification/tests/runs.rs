use imgtool::batch::BatchRun;
use imgtool::metadata::model::{MetadataRecord, RecordStatus};
use imgtool::metadata::processor::{begin_record, plan_process, rejected_file_output, MetadataRun, ProcessPlan, ProcessRejection};
use imgtool::paths::PathKind;
use imgtool::tally::{exit_code, RunTally};

fn tally_of(outcomes: &[bool], fail_fast: bool) -> (usize, usize, bool, usize) {
    let mut tally = RunTally::new(fail_fast);
    for &ok in outcomes {
        if tally.record(ok) {
            break;
        }
    }
    (tally.succeeded(), tally.failed(), tally.aborted(), tally.processed())
}

#[test]
fn run_without_fail_fast_counts_every_file() {
    assert_eq!(tally_of(&[true, false, true, false, true], false), (3, 2, false, 5));
    assert_eq!(tally_of(&[], false), (0, 0, false, 0));
}

#[test]
fn fail_fast_run_stops_at_first_failure() {
    assert_eq!(tally_of(&[true, true, false, true, false], true), (2, 1, true, 3));
    assert_eq!(tally_of(&[true, true], true), (2, 0, false, 2));
}

fn record_for(path: &str) -> MetadataRecord {
    begin_record(path).expect("supported").0
}

#[test]
fn mixed_directory_continues_and_summarizes_errors() {
    // broken.jpg fails to decode, image.png is read; note.txt is never a target.
    let mut run = MetadataRun::new(false);
    assert!(!run.add_failure());
    run.add_record(record_for("dir/image.png"));
    assert!(!run.is_aborted());
    assert_eq!(run.processed(), 2);
    let out = run.finish();
    assert_eq!(out.summary.total, 2);
    assert_eq!(out.summary.succeeded, 1);
    assert_eq!(out.summary.failed, 1);
    assert!(!out.summary.aborted);
    assert_eq!(out.records.len(), 1);
    assert_eq!(out.records[0].status, RecordStatus::Success);
}

#[test]
fn fail_fast_stops_at_first_error() {
    let mut run = MetadataRun::new(true);
    let stop = run.add_failure();
    assert!(stop);
    assert!(run.is_aborted());
    let out = run.finish();
    assert_eq!(out.summary.total, 1);
    assert_eq!(out.summary.succeeded, 0);
    assert_eq!(out.summary.failed, 1);
    assert!(out.summary.aborted);
    assert_eq!(out.records.len(), 0);
}

#[test]
fn invalid_extension_single_file_only_updates_summary() {
    assert_eq!(plan_process(PathKind::File, "dir/note.txt"), Ok(ProcessPlan::RejectFile));
    let out = rejected_file_output();
    assert_eq!(out.summary.total, 1);
    assert_eq!(out.summary.succeeded, 0);
    assert_eq!(out.summary.failed, 1);
    assert!(!out.summary.aborted);
    assert_eq!(out.records.len(), 0);
}

#[test]
fn paths_are_planned_by_kind() {
    assert_eq!(plan_process(PathKind::File, "a/b.png"), Ok(ProcessPlan::ReadFile));
    assert_eq!(plan_process(PathKind::File, "a/b.NEF"), Ok(ProcessPlan::ReadFile));
    assert_eq!(plan_process(PathKind::Directory, "a"), Ok(ProcessPlan::ScanDirectory));
    assert_eq!(plan_process(PathKind::Missing, "a/b.png"), Err(ProcessRejection::PathMissing));
    assert_eq!(plan_process(PathKind::Other, "a/b.png"), Err(ProcessRejection::UnsupportedPathType));
}

#[test]
fn batch_fail_fast_stops_after_first_failure() {
    // a.png with a size limit fails; b.jpg is never processed.
    let mut run = BatchRun::new(true);
    let stop = run.add_failure("in/a.png: --max-size-kb is currently supported only for jpg/jpeg output".to_string());
    assert!(stop);
    let result = run.finish();
    assert_eq!(result.total, 1);
    assert_eq!(result.failed, 1);
    assert_eq!(result.succeeded, 0);
    assert!(result.aborted);
    assert_eq!(result.errors.len(), 1);
}

#[test]
fn batch_run_keeps_going_and_keeps_messages_in_order() {
    let mut run = BatchRun::new(false);
    run.add_success();
    assert!(!run.add_failure("x: first".to_string()));
    run.add_success();
    assert!(!run.add_failure("y: second".to_string()));
    assert_eq!(run.processed(), 4);
    assert!(!run.is_aborted());
    let result = run.finish();
    assert_eq!((result.total, result.succeeded, result.failed, result.aborted), (4, 2, 2, false));
    assert_eq!(result.errors, vec!["x: first".to_string(), "y: second".to_string()]);
}

#[test]
fn exit_code_reports_failures_and_aborts() {
    assert_eq!(exit_code(0, false), 0);
    assert_eq!(exit_code(2, false), 2);
    assert_eq!(exit_code(1, true), 1);
    let (_, failed, aborted, _) = tally_of(&[true, false, true], true);
    assert_eq!(exit_code(failed, aborted), 1);
    let (_, failed, aborted, _) = tally_of(&[true, false, true], false);
    assert_eq!(exit_code(failed, aborted), 2);
    let (_, failed, aborted, _) = tally_of(&[true, true], true);
    assert_eq!(exit_code(failed, aborted), 0);
}

#[test]
fn fail_fast_runs_stop_with_exactly_one_failure() {
    let mut run = MetadataRun::new(true);
    run.add_record(record_for("d/a.png"));
    assert!(run.add_failure());
    let out = run.finish();
    assert_eq!((out.summary.failed, out.summary.aborted), (1, true));
    let mut run = BatchRun::new(false);
    assert!(!run.add_failure("a: x".to_string()));
    assert!(!run.add_failure("b: y".to_string()));
    let r = run.finish();
    assert_eq!((r.failed, r.aborted), (2, false));
}
