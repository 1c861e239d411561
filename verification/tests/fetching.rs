use channel_thumbnails::fetcher::{fetch_jobs, thumbnail_file_name, FetchDecision, FetchJob};

const MOCK_VIDEO_ID_1: &str = "video1";

#[test]
fn test_download_thumbnail_success() {
    let job = FetchJob::new(MOCK_VIDEO_ID_1);
    let decision = job.decide(200);
    assert_eq!(decision, FetchDecision::Store { file_name: format!("{}.jpg", MOCK_VIDEO_ID_1) });
}

#[test]
fn test_download_thumbnail_failure() {
    let job = FetchJob::new(MOCK_VIDEO_ID_1);
    let decision = job.decide(404);
    assert_eq!(decision, FetchDecision::Skip { status: 404 });
}

#[test]
fn job_of_a_video() {
    assert_eq!(
        FetchJob::new("abc"),
        FetchJob {
            video_id: "abc".to_string(),
            url: "https://img.youtube.com/vi/abc/maxresdefault.jpg".to_string(),
            file_name: "abc.jpg".to_string(),
        }
    );
    assert_eq!(thumbnail_file_name("abc"), "abc.jpg");
    assert_eq!(thumbnail_file_name(""), ".jpg");
}

#[test]
fn only_the_statuses_from_200_to_299_store() {
    let job = FetchJob::new("v");
    let store = FetchDecision::Store { file_name: "v.jpg".to_string() };
    assert_eq!(job.decide(200), store);
    assert_eq!(job.decide(204), store);
    assert_eq!(job.decide(299), store);
    assert_eq!(job.decide(199), FetchDecision::Skip { status: 199 });
    assert_eq!(job.decide(300), FetchDecision::Skip { status: 300 });
    assert_eq!(job.decide(301), FetchDecision::Skip { status: 301 });
    assert_eq!(job.decide(403), FetchDecision::Skip { status: 403 });
    assert_eq!(job.decide(500), FetchDecision::Skip { status: 500 });
    assert_eq!(job.decide(0), FetchDecision::Skip { status: 0 });
    assert_eq!(job.decide(u16::MAX), FetchDecision::Skip { status: u16::MAX });
}

#[test]
fn one_job_for_each_video_in_order() {
    let video_ids = vec!["a".to_string(), "b".to_string(), "c".to_string()];
    let jobs = fetch_jobs(&video_ids);
    assert_eq!(jobs, vec![FetchJob::new("a"), FetchJob::new("b"), FetchJob::new("c")]);
    assert_eq!(fetch_jobs(&Vec::new()), Vec::new());
}

#[test]
fn a_batch_stores_the_successes_only() {
    let video_ids = vec!["a".to_string(), "b".to_string(), "c".to_string(), "d".to_string()];
    let statuses = [200u16, 404, 200, 404];
    let jobs = fetch_jobs(&video_ids);
    let mut stored = Vec::new();
    for (job, status) in jobs.iter().zip(statuses.iter()) {
        if let FetchDecision::Store { file_name } = job.decide(*status) {
            stored.push(file_name);
        }
    }
    assert_eq!(stored, vec!["a.jpg", "c.jpg"]);
}

#[test]
fn different_videos_have_different_files() {
    assert_ne!(thumbnail_file_name("a"), thumbnail_file_name("a.jpg"));
    assert_ne!(thumbnail_file_name("a"), thumbnail_file_name("b"));
}
