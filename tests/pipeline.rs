use time_for::clapper::Inputs;
use time_for::ffmpeg::JobKind;
use time_for::pipeline::{Action, Event, JobOutcome, Pipeline, Stage};
use time_for::tenor::{random_webm, SearchResponse};
use time_for::TimeForError;

fn inputs(query: Option<&str>, considered_gifs: u8) -> Inputs {
    Inputs {
        query: query.map(|q| q.to_string()),
        custom_text: None,
        considered_gifs,
        no_upload: false,
        explorer: true,
        relative: false,
        open: false,
        delay: 0,
    }
}

fn ok_jobs(n: usize) -> Event {
    Event::Transcoded((0..n).map(|_| JobOutcome::Exited { success: true, code: Some(0) }).collect())
}

fn started(query: Option<&str>, considered: u8) -> Pipeline {
    let mut p = Pipeline::new(inputs(query, considered), "/tmp/time-for".to_string());
    assert!(matches!(p.step(Event::Start), Some(Action::ProbeTool)));
    match p.step(Event::ToolChecked(true)) {
        Some(Action::CreateWorkDir(d)) => assert_eq!(d, "/tmp/time-for"),
        _ => panic!("expected the work directory"),
    }
    p
}

#[test]
fn layout_of_a_run() {
    let p = Pipeline::new(inputs(None, 5), "/tmp/time-for/".to_string());
    assert_eq!(p.reference_file.base(), "/tmp/time-for/look_at_time.webm");
    assert_eq!(p.query_file.base(), "/tmp/time-for/query.webm");
    assert_eq!(p.final_output, "/tmp/time-for/full.webm");
    assert_eq!(p.manifest, "/tmp/time-for/concat_list.txt");
    assert!(matches!(p.stage, Stage::Idle));
}

#[test]
fn coffee_run_searches_both_clips_and_stitches() {
    let mut p = started(Some("coffee"), 5);
    let searches = match p.step(Event::WorkDirReady(Ok(()))) {
        Some(Action::Search(qs)) => qs,
        _ => panic!("expected searches"),
    };
    assert_eq!(searches.len(), 2);
    assert_eq!(searches[0].term, "look at time");
    assert_eq!(searches[0].considered, 16);
    assert_eq!(searches[1].term, "coffee");
    assert_eq!(searches[1].considered, 5);

    let three = SearchResponse::Results(vec!["c0".to_string(), "c1".to_string(), "c2".to_string()]);
    let coffee = random_webm("coffee", Some(searches[1].considered), three);
    let coffee_url = coffee.as_ref().ok().unwrap().clone();
    assert!(["c0", "c1", "c2"].contains(&coffee_url.as_str()));
    let clock = Ok("clock-url".to_string());
    let fetches = match p.step(Event::Resolved(vec![clock, coffee])) {
        Some(Action::Download(fs)) => fs,
        _ => panic!("expected downloads"),
    };
    assert_eq!(fetches.len(), 2);
    assert_eq!(fetches[0].url, "clock-url");
    assert_eq!(fetches[0].path, "/tmp/time-for/look_at_time.webm");
    assert_eq!(fetches[1].url, coffee_url);
    assert_eq!(fetches[1].path, "/tmp/time-for/query.webm");

    let scales = match p.step(Event::Downloaded(Ok(()))) {
        Some(Action::Transcode(jobs)) => jobs,
        _ => panic!("expected scaling"),
    };
    assert_eq!(scales.len(), 2);
    assert!(scales.iter().all(|j| j.kind == JobKind::Scale));
    assert_eq!(scales[1].output, "/tmp/time-for/query_scaled.webm");

    let captions = match p.step(ok_jobs(2)) {
        Some(Action::Transcode(jobs)) => jobs,
        _ => panic!("expected captions"),
    };
    assert_eq!(captions[0].inputs, vec!["/tmp/time-for/look_at_time_scaled.webm"]);
    assert_eq!(captions[0].output, "/tmp/time-for/look_at_time_text.webm");
    assert!(captions[0].args[3].contains("text=It is "));
    assert!(captions[1].args[3].ends_with("text=time for coffee'"));

    let stitch = match p.step(ok_jobs(2)) {
        Some(Action::Transcode(jobs)) => jobs,
        _ => panic!("expected the stitch"),
    };
    assert_eq!(stitch.len(), 1);
    assert_eq!(stitch[0].kind, JobKind::ConcatStrict);
    assert_eq!(stitch[0].output, "/tmp/time-for/full.webm");
    assert_eq!(
        stitch[0].manifest.as_ref().unwrap().text,
        "file '/tmp/time-for/look_at_time_text.webm'\nfile '/tmp/time-for/query_text.webm'"
    );

    match p.step(ok_jobs(1)) {
        Some(Action::Upload(path)) => assert_eq!(path, "/tmp/time-for/full.webm"),
        _ => panic!("expected the upload"),
    }
    match p.step(Event::Uploaded(Some("https://i.imgur.com/x.webm.".to_string()))) {
        Some(Action::Present(pr)) => {
            assert_eq!(pr.link.as_deref(), Some("https://i.imgur.com/x.webm"));
            assert_eq!(pr.path, "/tmp/time-for/full.webm");
            assert!(pr.explorer);
            assert!(!pr.open);
        },
        _ => panic!("expected the presentation"),
    }
    assert!(p.step(Event::Presented).is_none());
    assert!(matches!(p.stage, Stage::Done));
    assert!(p.is_finished());
}

#[test]
fn without_query_only_the_clock_clip_is_made() {
    let mut p = started(None, 5);
    match p.step(Event::WorkDirReady(Ok(()))) {
        Some(Action::Search(qs)) => {
            assert_eq!(qs.len(), 1);
            assert_eq!(qs[0].term, "look at time");
        },
        _ => panic!("expected one search"),
    }
    match p.step(Event::Resolved(vec![Ok("u".to_string())])) {
        Some(Action::Download(fs)) => assert_eq!(fs.len(), 1),
        _ => panic!("expected one download"),
    }
    match p.step(Event::Downloaded(Ok(()))) {
        Some(Action::Transcode(jobs)) => assert_eq!(jobs.len(), 1),
        _ => panic!("expected one scale"),
    }
    match p.step(ok_jobs(1)) {
        Some(Action::Transcode(jobs)) => {
            assert_eq!(jobs.len(), 1);
            assert_eq!(jobs[0].kind, JobKind::Caption);
        },
        _ => panic!("expected one caption"),
    }
    match p.step(ok_jobs(1)) {
        Some(Action::Rename { from, to }) => {
            assert_eq!(from, "/tmp/time-for/look_at_time_text.webm");
            assert_eq!(to, "/tmp/time-for/full.webm");
        },
        _ => panic!("expected a rename, not a stitch"),
    }
    assert!(p.step(ok_jobs(1)).is_none());
    assert!(matches!(p.stage, Stage::Stitching));
    match p.step(Event::Renamed(Ok(()))) {
        Some(Action::Upload(path)) => assert_eq!(path, "/tmp/time-for/full.webm"),
        _ => panic!("expected the upload"),
    }
}

#[test]
fn unreadable_upload_falls_back_to_the_file() {
    let mut p = started(None, 5);
    p.step(Event::WorkDirReady(Ok(())));
    p.step(Event::Resolved(vec![Ok("u".to_string())]));
    p.step(Event::Downloaded(Ok(())));
    p.step(ok_jobs(1));
    p.step(ok_jobs(1));
    p.step(Event::Renamed(Ok(())));
    match p.step(Event::Uploaded(None)) {
        Some(Action::Present(pr)) => {
            assert!(pr.link.is_none());
            assert_eq!(pr.path, "/tmp/time-for/full.webm");
        },
        _ => panic!("expected the presentation"),
    }
    assert!(p.step(Event::Presented).is_none());
    assert!(matches!(p.stage, Stage::Done));
}

#[test]
fn missing_tool_aborts_before_any_request() {
    let mut p = Pipeline::new(inputs(Some("coffee"), 5), "/tmp/time-for".to_string());
    assert!(matches!(p.step(Event::Start), Some(Action::ProbeTool)));
    assert!(p.step(Event::ToolChecked(false)).is_none());
    assert!(matches!(p.stage, Stage::Failed(TimeForError::FfmpegNotFound)));
    assert!(p.step(Event::WorkDirReady(Ok(()))).is_none());
    assert!(p.step(Event::Resolved(vec![Ok("a".to_string()), Ok("b".to_string())])).is_none());
    assert!(p.step(Event::Uploaded(None)).is_none());
    assert!(matches!(p.stage, Stage::Failed(TimeForError::FfmpegNotFound)));
    assert!(p.is_finished());
}

#[test]
fn failed_scale_reports_the_exit_code() {
    let mut p = started(Some("tea"), 5);
    p.step(Event::WorkDirReady(Ok(())));
    p.step(Event::Resolved(vec![Ok("a".to_string()), Ok("b".to_string())]));
    p.step(Event::Downloaded(Ok(())));
    let outcomes = vec![
        JobOutcome::Exited { success: true, code: Some(0) },
        JobOutcome::Exited { success: false, code: Some(1) },
    ];
    assert!(p.step(Event::Transcoded(outcomes)).is_none());
    assert!(matches!(p.stage, Stage::Failed(TimeForError::ScalingError { exit_code: Some(1) })));
}

#[test]
fn search_error_stops_the_run() {
    let mut p = started(Some("tea"), 5);
    p.step(Event::WorkDirReady(Ok(())));
    let none = random_webm("tea", Some(5), SearchResponse::Results(vec![]));
    assert!(p.step(Event::Resolved(vec![Ok("a".to_string()), none])).is_none());
    assert!(matches!(p.stage, Stage::Failed(TimeForError::GetRandGif { .. })));
}

#[test]
fn other_failures_stop_the_run() {
    let mut p = started(None, 5);
    assert!(p.step(Event::WorkDirReady(Err("denied".to_string()))).is_none());
    assert!(matches!(p.stage, Stage::Failed(TimeForError::CreateWorkingDirectory { .. })));

    let mut p = started(None, 5);
    p.step(Event::WorkDirReady(Ok(())));
    p.step(Event::Resolved(vec![Ok("a".to_string())]));
    assert!(p.step(Event::Downloaded(Err("reset".to_string()))).is_none());
    assert!(matches!(p.stage, Stage::Failed(TimeForError::Download { .. })));
}

#[test]
fn events_out_of_turn_change_nothing() {
    let mut p = started(Some("tea"), 5);
    assert!(p.step(Event::Presented).is_none());
    assert!(matches!(p.stage, Stage::Preparing));
    p.step(Event::WorkDirReady(Ok(())));
    assert!(p.step(Event::Resolved(vec![Ok("only one".to_string())])).is_none());
    assert!(matches!(p.stage, Stage::Searching));
}
