//! The fetch decision, the job state machine, the bounded pool and the run
//! summary.

use cima_rs::downloader::fetch_step;
use cima_rs::downloader::zip_entry_is_dir;
use cima_rs::downloader::FetchAction;
use cima_rs::orchestrator::catalog_jobs;
use cima_rs::orchestrator::job_step;
use cima_rs::orchestrator::overall_success;
use cima_rs::orchestrator::run_catalog_job;
use cima_rs::orchestrator::summarize;
use cima_rs::orchestrator::CatalogKind;
use cima_rs::orchestrator::JobEvent;
use cima_rs::orchestrator::JobState;
use cima_rs::orchestrator::WorkerPool;

#[test]
fn fetch_is_idempotent_once_populated() {
    // first run against an empty directory: download, after which the
    // directory is populated
    let first = fetch_step(false);
    assert_eq!(first.action, FetchAction::DownloadAndExtract);
    assert!(first.populated_after);

    // second run sees the populated directory: no network request
    let second = fetch_step(first.populated_after);
    assert_eq!(second.action, FetchAction::AlreadyPopulated);

    // a pre-populated directory short-circuits on the first run already
    assert_eq!(fetch_step(true).action, FetchAction::AlreadyPopulated);
}

#[test]
fn zip_entries_are_classified_by_trailing_slash() {
    assert!(zip_entry_is_dir("data/"));
    assert!(!zip_entry_is_dir("data/Prescripcion.xml"));
    assert!(!zip_entry_is_dir(""));
}

#[test]
fn job_transitions_follow_the_table() {
    assert_eq!(
        job_step(JobState::Pending, JobEvent::FileAbsent),
        Some(JobState::Skipped)
    );
    assert_eq!(
        job_step(JobState::Pending, JobEvent::Dispatched),
        Some(JobState::Running)
    );
    assert_eq!(
        job_step(JobState::Running, JobEvent::Finished(true)),
        Some(JobState::Succeeded)
    );
    assert_eq!(
        job_step(JobState::Running, JobEvent::Finished(false)),
        Some(JobState::Failed)
    );
    // nothing else moves
    assert_eq!(job_step(JobState::Skipped, JobEvent::Dispatched), None);
    assert_eq!(job_step(JobState::Succeeded, JobEvent::Finished(true)), None);
    assert_eq!(job_step(JobState::Pending, JobEvent::Finished(true)), None);
}

#[test]
fn skips_do_not_count_as_failures() {
    // one of the thirteen source files is absent: the other twelve succeed
    let mut states = vec![JobState::Succeeded; 12];
    states.push(JobState::Skipped);
    let summary = summarize(&states, true);
    assert_eq!(summary.succeeded, 12);
    assert_eq!(summary.failed, 0);
    assert_eq!(summary.skipped, 1);
    assert!(overall_success(&summary));
}

#[test]
fn a_failed_job_fails_the_run() {
    let states = vec![JobState::Succeeded, JobState::Failed, JobState::Skipped];
    let summary = summarize(&states, true);
    assert_eq!(summary.failed, 1);
    assert!(!overall_success(&summary));

    // a failed prescription step fails the run too
    let summary = summarize(&vec![JobState::Succeeded], false);
    assert!(!overall_success(&summary));
}

#[test]
fn pool_never_admits_more_than_its_capacity() {
    let capacity: usize = 2;
    let jobs = 5;
    let mut pool = WorkerPool::new(capacity);
    let mut running: usize = 0;
    let mut max_running: usize = 0;
    let mut done = 0;
    let mut next = 0;
    // admit greedily, finish one whenever the pool is full
    while done < jobs {
        if next < jobs && pool.try_acquire() {
            next += 1;
            running += 1;
            if running > max_running {
                max_running = running;
            }
        } else {
            pool.release();
            running -= 1;
            done += 1;
        }
    }
    assert_eq!(max_running, capacity);
}

#[test]
fn third_acquire_on_a_full_pool_is_refused() {
    let mut pool = WorkerPool::new(2);
    assert!(pool.try_acquire());
    assert!(pool.try_acquire());
    assert!(!pool.try_acquire());
    pool.release();
    assert!(pool.try_acquire());
}

#[test]
fn the_run_plan_lists_thirteen_catalogs() {
    let jobs = catalog_jobs();
    assert_eq!(jobs.len(), 13);
    assert_eq!(jobs[0].xml_name, "DICCIONARIO_ATC.xml");
    assert_eq!(jobs[0].csv_name, "atc.csv");
    assert_eq!(jobs[12].xml_name, "DICCIONARIO_VIAS_ADMINISTRACION.xml");
    assert_eq!(jobs[12].csv_name, "vias_administracion.csv");
    // no catalog writes another's output file
    for (i, a) in jobs.iter().enumerate() {
        for b in jobs.iter().skip(i + 1) {
            assert_ne!(a.xml_name, b.xml_name);
            assert_ne!(a.csv_name, b.csv_name);
        }
    }
}

#[test]
fn run_catalog_job_dispatches_by_kind() {
    let xml = r#"<aemps_prescripcion_dcsa>
                <dcsa>
                    <codigodcsa>S01</codigodcsa>
                    <nombredcsa>DCSA NAME</nombredcsa>
                </dcsa>
            </aemps_prescripcion_dcsa>"#;
    let csv_text = run_catalog_job(CatalogKind::Dcsa, xml).unwrap();
    assert_eq!(csv_text, "code,name\nS01,DCSA NAME\n");

    // a job of another kind finds no record list of its own in this
    // document: a schema error, not an empty table
    assert!(run_catalog_job(CatalogKind::Laboratory, xml).is_err());
}

#[test]
fn partial_failure_isolation_across_jobs() {
    // one malformed catalog fails its own job; the others still convert
    let good = r#"<aemps_prescripcion_dcsa>
                <dcsa>
                    <codigodcsa>S01</codigodcsa>
                    <nombredcsa>DCSA NAME</nombredcsa>
                </dcsa>
            </aemps_prescripcion_dcsa>"#;
    let bad = "<aemps_prescripcion_dcsa><dcsa><codigodcsa>S01";
    let mut states = Vec::new();
    for (kind, xml) in [
        (CatalogKind::Dcsa, good),
        (CatalogKind::Dcsa, bad),
        (CatalogKind::Dcsa, good),
    ] {
        let state = match run_catalog_job(kind, xml) {
            Ok(_) => JobState::Succeeded,
            Err(_) => JobState::Failed,
        };
        states.push(state);
    }
    let summary = summarize(&states, true);
    assert_eq!(summary.succeeded, 2);
    assert_eq!(summary.failed, 1);
    assert!(!overall_success(&summary));
}
