use ytdlp_ty::registry::{PendingJob, PendingQueue};

fn job(id: &str) -> PendingJob {
    PendingJob {
        job_id: id.to_string(),
        url: format!("https://example.com/{id}"),
        download_to: "out".to_string(),
        parameters: vec![],
        ffmpeg_path: None,
        template_name: None,
    }
}

#[test]
fn queue_is_first_in_first_out() {
    let mut q = PendingQueue::new();
    q.push_pending(job("a"));
    q.push_pending(job("b"));
    assert_eq!(q.pop_pending().unwrap().job_id, "a");
    q.push_pending(job("c"));
    assert_eq!(q.pop_pending().unwrap().job_id, "b");
    assert_eq!(q.pop_pending().unwrap().job_id, "c");
    assert!(q.pop_pending().is_none());
}

#[test]
fn removing_a_queued_job_reports_it_and_keeps_the_rest() {
    let mut q = PendingQueue::new();
    for id in ["a", "b", "c"] {
        q.push_pending(job(id));
    }
    assert!(q.remove_pending("b"));
    assert!(!q.remove_pending("b"));
    assert!(!q.remove_pending("zzz"));
    let rest: Vec<String> = q.drain_pending().into_iter().map(|j| j.job_id).collect();
    assert_eq!(rest, ["a", "c"]);
    assert_eq!(q.len(), 0);
}
