use chevereto_upload::batch::{dispatch, report_lines, Batch, BatchOutcome};
use chevereto_upload::chevereto::{
    CheveretoUploadResponse, Image, Success, UploadAction, UploadEvent, UploadState,
};
use chevereto_upload::endpoint::EndpointConfig;
use chevereto_upload::error::UploadError;

type UploadResult = Result<CheveretoUploadResponse, UploadError>;

fn config() -> EndpointConfig {
    match EndpointConfig::new("https://cdn.example.com/api/1/upload/", "key123") {
        Ok(config) => config,
        Err(error) => panic!("{}", error.to_string()),
    }
}

fn reply(url: &str) -> CheveretoUploadResponse {
    CheveretoUploadResponse {
        status_code: 200,
        success: Success { message: String::from("image uploaded"), code: 200 },
        image: Image { url: String::from(url), ..Image::default() },
        status_txt: String::from("OK"),
    }
}

/// A host that answers every request with the status 200 and `url`, on a
/// machine where a file exists exactly when `exists` says so.
fn drive(state: UploadState, action: UploadAction, url: &str, exists: bool) -> (UploadResult, usize) {
    let mut state = state;
    let mut action = action;
    let mut sent = 0;
    let mut asked = 0;
    loop {
        asked += 1;
        assert!(asked <= 4, "the upload does not end");
        let event = match action {
            UploadAction::CheckFile { .. } => UploadEvent::FileChecked { is_file: exists },
            UploadAction::PostUrl { .. } | UploadAction::PostFile { .. } => {
                sent += 1;
                UploadEvent::Status { code: 200 }
            }
            UploadAction::ReadBody => UploadEvent::Body { decoded: Ok(reply(url)) },
            UploadAction::Finish(result) => return (result, sent),
        };
        let next = state.step(event);
        state = next.0;
        action = next.1;
    }
}

fn messages(outcome: &BatchOutcome) -> Vec<String> {
    outcome.failures().iter().map(|error| error.to_string()).collect()
}

fn urls(outcome: &BatchOutcome) -> Vec<String> {
    outcome.successes().iter().map(|response| response.image.url.clone()).collect()
}

#[test]
fn new_outcome_is_empty() {
    let outcome = BatchOutcome::new();
    assert_eq!(outcome.success_count(), 0);
    assert_eq!(outcome.failure_count(), 0);
    assert!(outcome.successes().is_empty());
    assert!(outcome.failures().is_empty());
}

#[test]
fn empty_batch_sends_nothing() {
    let uploads = dispatch(&config(), &Vec::new(), "/home/user");
    assert!(uploads.is_empty());
    let outcome = BatchOutcome::collect(Vec::new());
    assert_eq!(outcome.success_count(), 0);
    assert_eq!(outcome.failure_count(), 0);
    assert!(report_lines(&outcome, false, true).is_empty());
}

#[test]
fn dispatch_starts_one_upload_for_each_reference() {
    let references = vec![
        String::from("https://img.example.com/a.jpg"),
        String::from("/nonexistent/b.png"),
        String::from("c.png"),
        String::from("https://"),
    ];
    let uploads = dispatch(&config(), &references, "/home/user");
    assert_eq!(uploads.len(), 4);
    match &uploads[0].1 {
        UploadAction::PostUrl { url } => assert_eq!(
            url,
            "https://cdn.example.com/api/1/upload/?key=key123&format=json&source=https%3A%2F%2Fimg.example.com%2Fa.jpg"
        ),
        other => panic!("unexpected action: {:?}", other),
    }
    match &uploads[1].1 {
        UploadAction::CheckFile { path } => assert_eq!(path, "/nonexistent/b.png"),
        other => panic!("unexpected action: {:?}", other),
    }
    match &uploads[2].1 {
        UploadAction::CheckFile { path } => assert_eq!(path, "/home/user/c.png"),
        other => panic!("unexpected action: {:?}", other),
    }
    match &uploads[3].1 {
        UploadAction::Finish(Err(error)) => assert_eq!(error.to_string(), "url parse error: https://"),
        other => panic!("unexpected action: {:?}", other),
    }
}

#[test]
fn one_remote_success_and_one_missing_file() {
    let references =
        vec![String::from("https://img.example.com/a.jpg"), String::from("/nonexistent/b.png")];
    for remote_first in [true, false] {
        let mut uploads = dispatch(&config(), &references, "/home/user");
        let (state, action) = uploads.pop().unwrap();
        let (local, sent_for_local) = drive(state, action, "https://host/unused.png", false);
        let (state, action) = uploads.pop().unwrap();
        let (remote, sent_for_remote) = drive(state, action, "https://host/a.jpg", false);
        assert_eq!(sent_for_local, 0);
        assert_eq!(sent_for_remote, 1);
        let mut outcome = BatchOutcome::new();
        if remote_first {
            outcome.record(remote);
            outcome.record(local);
        } else {
            outcome.record(local);
            outcome.record(remote);
        }
        assert_eq!(outcome.success_count(), 1);
        assert_eq!(outcome.failure_count(), 1);
        assert_eq!(urls(&outcome), ["https://host/a.jpg"]);
        assert_eq!(messages(&outcome), ["/nonexistent/b.png does not exist"]);
    }
}

#[test]
fn two_local_uploads_both_succeed_in_any_order() {
    let references = vec![String::from("a.png"), String::from("b.png")];
    for first_ends_first in [true, false] {
        let mut uploads = dispatch(&config(), &references, "/home/user");
        let (state, action) = uploads.pop().unwrap();
        let (second, _) = drive(state, action, "https://host/b.png", true);
        let (state, action) = uploads.pop().unwrap();
        let (first, _) = drive(state, action, "https://host/a.png", true);
        let mut outcome = BatchOutcome::new();
        if first_ends_first {
            outcome.record(first);
            outcome.record(second);
            assert_eq!(urls(&outcome), ["https://host/a.png", "https://host/b.png"]);
        } else {
            outcome.record(second);
            outcome.record(first);
            assert_eq!(urls(&outcome), ["https://host/b.png", "https://host/a.png"]);
        }
        assert_eq!(outcome.success_count(), 2);
        assert_eq!(outcome.failure_count(), 0);
    }
}

#[test]
fn every_result_is_counted_once() {
    for n in 0..6usize {
        let mut results: Vec<UploadResult> = Vec::new();
        let mut outcome = BatchOutcome::new();
        for i in 0..n {
            let result = || -> UploadResult {
                if i % 2 == 0 {
                    Ok(reply(&format!("https://host/{}.png", i)))
                } else {
                    Err(UploadError::new(&format!("failure {}", i)))
                }
            };
            results.push(result());
            outcome.record(result());
            assert_eq!(outcome.success_count() + outcome.failure_count(), i + 1);
        }
        let collected = BatchOutcome::collect(results);
        assert_eq!(collected.success_count() + collected.failure_count(), n);
        assert_eq!(collected.success_count(), (n + 1) / 2);
        assert_eq!(urls(&collected), urls(&outcome));
        assert_eq!(messages(&collected), messages(&outcome));
    }
}

#[test]
fn collect_keeps_the_order_of_the_results() {
    let outcome = BatchOutcome::collect(vec![
        Err(UploadError::new("first")),
        Ok(reply("https://host/1.png")),
        Ok(reply("https://host/2.png")),
        Err(UploadError::new("second")),
    ]);
    assert_eq!(urls(&outcome), ["https://host/1.png", "https://host/2.png"]);
    assert_eq!(messages(&outcome), ["first", "second"]);
}

#[test]
fn reply_without_a_valid_url_is_recorded_as_a_failure() {
    let mut outcome = BatchOutcome::new();
    outcome.record(Ok(reply("x.png")));
    assert_eq!(outcome.success_count(), 0);
    assert_eq!(messages(&outcome), ["the reply names no valid image url: x.png"]);
}

fn mixed_outcome() -> BatchOutcome {
    BatchOutcome::collect(vec![
        Ok(reply("https://host/1.png")),
        Err(UploadError::new("/nonexistent/b.png does not exist")),
        Ok(reply("https://HOST/2.png")),
        Err(UploadError::new("dns error")),
    ])
}

#[test]
fn report_shows_failures_then_successes() {
    assert_eq!(
        report_lines(&mixed_outcome(), false, true),
        [
            "Errors:",
            "/nonexistent/b.png does not exist",
            "dns error",
            "Upload Success:",
            "https://host/1.png",
            "https://host/2.png",
        ]
    );
}

#[test]
fn report_leaves_failures_out_when_forced() {
    assert_eq!(
        report_lines(&mixed_outcome(), true, true),
        ["Upload Success:", "https://host/1.png", "https://host/2.png"]
    );
}

#[test]
fn report_leaves_successes_out_unless_asked() {
    assert_eq!(
        report_lines(&mixed_outcome(), false, false),
        ["Errors:", "/nonexistent/b.png does not exist", "dns error"]
    );
    assert!(report_lines(&mixed_outcome(), true, false).is_empty());
}

#[test]
fn report_has_no_heading_for_an_empty_part() {
    let only_failures = BatchOutcome::collect(vec![Err(UploadError::new("dns error"))]);
    assert_eq!(report_lines(&only_failures, false, true), ["Errors:", "dns error"]);
    let only_successes = BatchOutcome::collect(vec![Ok(reply("https://host/1.png"))]);
    assert_eq!(report_lines(&only_successes, false, true), ["Upload Success:", "https://host/1.png"]);
}

#[test]
fn batch_of_nothing_is_complete_at_once() {
    let (batch, uploads) = Batch::start(&config(), &Vec::new(), "/home/user");
    assert!(uploads.is_empty());
    assert!(batch.is_complete());
    match batch.finish() {
        Ok(outcome) => {
            assert_eq!(outcome.success_count(), 0);
            assert_eq!(outcome.failure_count(), 0);
        }
        Err(_) => panic!("an empty batch is not complete"),
    }
}

#[test]
fn batch_is_complete_only_after_every_upload() {
    let references =
        vec![String::from("https://img.example.com/a.jpg"), String::from("/nonexistent/b.png")];
    let (mut batch, mut uploads) = Batch::start(&config(), &references, "/home/user");
    assert_eq!(uploads.len(), 2);
    assert!(!batch.is_complete());
    batch = match batch.finish() {
        Ok(_) => panic!("the batch ended before its uploads"),
        Err(batch) => batch,
    };
    let (state, action) = uploads.pop().unwrap();
    let (local, _) = drive(state, action, "https://host/unused.png", false);
    assert!(batch.record(local));
    assert!(!batch.is_complete());
    batch = match batch.finish() {
        Ok(_) => panic!("the batch ended before its uploads"),
        Err(batch) => batch,
    };
    let (state, action) = uploads.pop().unwrap();
    let (remote, _) = drive(state, action, "https://host/a.jpg", false);
    assert!(batch.record(remote));
    assert!(batch.is_complete());
    match batch.finish() {
        Ok(outcome) => {
            assert_eq!(outcome.success_count(), 1);
            assert_eq!(outcome.failure_count(), 1);
            assert_eq!(urls(&outcome), ["https://host/a.jpg"]);
            assert_eq!(messages(&outcome), ["/nonexistent/b.png does not exist"]);
        }
        Err(_) => panic!("the batch is not complete"),
    }
}

#[test]
fn batch_takes_no_more_results_than_uploads() {
    let references = vec![String::from("a.png")];
    let (mut batch, _) = Batch::start(&config(), &references, "/home/user");
    assert!(batch.record(Err(UploadError::new("dns error"))));
    assert!(!batch.record(Ok(reply("https://host/a.png"))));
    assert!(!batch.record(Err(UploadError::new("late"))));
    assert!(batch.is_complete());
    match batch.finish() {
        Ok(outcome) => {
            assert_eq!(outcome.success_count(), 0);
            assert_eq!(messages(&outcome), ["dns error"]);
        }
        Err(_) => panic!("the batch is not complete"),
    }
}
