use pastpapers::download::{filename_from_url, plan_download};
use pastpapers::errors::{DownloadError, TaskError};
use pastpapers::orchestrate::{years_to_process, RunCollector};
use pastpapers::progress::ProgressState;
use pastpapers::task::{TaskAction, TaskEvent, TaskState, YearTask};

#[test]
fn filename_is_the_final_url_segment() {
    assert_eq!(filename_from_url("https://h/papers.19-20/COMP401.pdf"), "COMP401.pdf");
    assert_eq!(filename_from_url("plain"), "plain");
    assert_eq!(filename_from_url("ends/with/slash/"), "");
}

#[test]
fn a_missing_content_length_rejects_the_download() {
    let r = plan_download("https://h/COMP401.pdf", None);
    assert_eq!(
        r.unwrap_err(),
        DownloadError::MissingLength { url: "https://h/COMP401.pdf".to_string() }
    );
}

#[test]
fn a_declared_content_length_yields_a_plan() {
    let plan = plan_download("https://h/papers.19-20/COMP401.pdf", Some(2048)).unwrap();
    assert_eq!(plan.total, 2048);
    assert_eq!(plan.filename, "COMP401.pdf");
}

#[test]
fn progress_climbs_monotonically_to_exactly_the_total() {
    let mut p = ProgressState::new("19-20".to_string());
    p.begin_file(100);
    let mut last = 0;
    let mut positions = Vec::new();
    for chunk in [30usize, 30, 30, 30] {
        let pos = p.record_chunk(chunk);
        assert!(pos >= last);
        assert!(pos <= 100);
        last = pos;
        positions.push(pos);
    }
    assert_eq!(positions, vec![30, 60, 90, 100]);
    assert_eq!(p.transferred, 100);
}

#[test]
fn progress_is_exact_when_the_body_matches_the_total() {
    let mut p = ProgressState::new("16-17".to_string());
    p.begin_file(70);
    p.record_chunk(40);
    let pos = p.record_chunk(30);
    assert_eq!(pos, 70);
    p.reset_file();
    assert_eq!(p.transferred, 0);
    assert_eq!(p.total, None);
}

#[test]
fn a_task_walks_discover_then_each_download_then_done() {
    let mut t = YearTask::new(2020);
    assert_eq!(t.state, TaskState::Pending);

    let a = t.step(TaskEvent::Started);
    assert_eq!(a, Some(TaskAction::ShowWaiting));
    assert_eq!(t.state, TaskState::Discovering);

    let a = t.step(TaskEvent::Discovered { count: 2 });
    assert_eq!(a, Some(TaskAction::BeginFile { index: 0, total: 2 }));
    assert_eq!(t.state, TaskState::Downloading { next: 0, total: 2 });

    let a = t.step(TaskEvent::FileDone);
    assert_eq!(a, Some(TaskAction::BeginFile { index: 1, total: 2 }));

    let a = t.step(TaskEvent::FileDone);
    assert_eq!(a, Some(TaskAction::FinishDone));
    assert_eq!(t.state, TaskState::Done);

    let a = t.step(TaskEvent::FileDone);
    assert_eq!(a, None);
    assert_eq!(t.state, TaskState::Done);
}

#[test]
fn a_year_with_no_documents_finishes_at_once() {
    let mut t = YearTask::new(2003);
    t.step(TaskEvent::Started);
    let a = t.step(TaskEvent::Discovered { count: 0 });
    assert_eq!(a, Some(TaskAction::FinishDone));
    assert_eq!(t.state, TaskState::Done);
}

#[test]
fn a_failure_aborts_the_task_and_attaches_the_year() {
    let mut t = YearTask::new(2018);
    t.step(TaskEvent::Started);
    let cause = DownloadError::Fetch { url: "https://h/papers.17-18/".to_string() };
    let a = t.step(TaskEvent::Failed(cause.clone()));
    assert_eq!(a, Some(TaskAction::ReportFailure));
    assert_eq!(t.state, TaskState::Failed(TaskError { year: 2018, cause }));

    let a = t.step(TaskEvent::Discovered { count: 3 });
    assert_eq!(a, None);
    assert!(matches!(t.state, TaskState::Failed(_)));
}

#[test]
fn one_failed_year_fails_the_run_but_not_its_siblings() {
    let mut collector = RunCollector::new();

    let mut y2018 = YearTask::new(2018);
    y2018.step(TaskEvent::Started);
    let cause = DownloadError::Fetch { url: "https://h/papers.17-18/".to_string() };
    y2018.step(TaskEvent::Failed(cause.clone()));
    if let TaskState::Failed(e) = &y2018.state {
        collector.record_failure(e.clone());
    }

    let mut y2019 = YearTask::new(2019);
    y2019.step(TaskEvent::Started);
    y2019.step(TaskEvent::Discovered { count: 1 });
    y2019.step(TaskEvent::FileDone);
    assert_eq!(y2019.state, TaskState::Done);

    assert!(!collector.succeeded());
    let first = collector.first_error.clone().unwrap();
    assert_eq!(first.year, 2018);
    assert_eq!(first.cause, cause);

    let later = TaskError {
        year: 2019,
        cause: DownloadError::Io { path: "x".to_string() },
    };
    collector.record_failure(later);
    assert_eq!(collector.first_error.unwrap().year, 2018);
}

#[test]
fn the_run_processes_the_contiguous_range_to_the_end() {
    let years = years_to_process(Some(2019));
    assert_eq!(years, vec![2019, 2020, 2021]);
    let defaulted = years_to_process(None);
    assert_eq!(defaulted, vec![2017, 2018, 2019, 2020, 2021]);
    assert_eq!(years_to_process(Some(2021)), vec![2021]);
    assert_eq!(years_to_process(Some(2000)).len(), 22);
}

#[test]
fn error_descriptions_name_the_url_or_path() {
    let e = DownloadError::Fetch { url: "https://h/x".to_string() };
    assert_eq!(e.describe(), "Failed to GET from 'https://h/x'");
    let e = DownloadError::MissingLength { url: "u".to_string() };
    assert_eq!(e.describe(), "Failed to get content length from 'u'");
    assert_eq!(
        DownloadError::MalformedPage.describe(),
        "An anchor on the index page has no href attribute"
    );
    let e = DownloadError::Io { path: "/tmp/x".to_string() };
    assert_eq!(e.describe(), "Failed to create or write '/tmp/x'");
}
