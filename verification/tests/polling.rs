use image_lab::model::HistoryItem;
use image_lab::poll::{poll_step, PollStep, POLL_INTERVAL_SECS, POLL_MAX_ATTEMPTS};

fn item(status: &str) -> HistoryItem {
    HistoryItem {
        id: "i".to_string(),
        prompt: String::new(),
        size: String::new(),
        provider_name: String::new(),
        adapter: String::new(),
        reference_paths: vec![],
        status: status.to_string(),
        task_id: None,
        stored_path: String::new(),
        error: None,
        created_at: String::new(),
        finished_at: String::new(),
        duration_seconds: None,
    }
}

#[test]
fn the_service_is_asked_every_three_seconds_for_six_minutes() {
    assert_eq!(POLL_INTERVAL_SECS * POLL_MAX_ATTEMPTS as u64, 360);
}

#[test]
fn a_settled_item_ends_the_questions() {
    assert_eq!(poll_step(0, Ok(item("completed"))), PollStep::Stop);
    assert_eq!(poll_step(0, Ok(item("failed"))), PollStep::Stop);
}

#[test]
fn a_pending_item_is_asked_after_again() {
    assert_eq!(poll_step(0, Ok(item("pending"))), PollStep::Again);
    assert_eq!(poll_step(118, Ok(item("pending"))), PollStep::Again);
    assert_eq!(poll_step(119, Ok(item("pending"))), PollStep::Stop);
}

#[test]
fn a_passing_error_is_survived_until_the_last_question() {
    assert_eq!(poll_step(0, Err("查询任务失败".to_string())), PollStep::Again);
    assert_eq!(poll_step(118, Err("e".to_string())), PollStep::Again);
    assert_eq!(poll_step(119, Err("e".to_string())), PollStep::Fail("轮询超时：e".to_string()));
}

#[test]
fn a_final_error_ends_the_questions_at_once() {
    for e in ["历史记录不存在", "历史记录缺少 task id", "x 缺少 task id y"] {
        assert_eq!(poll_step(0, Err(e.to_string())), PollStep::Fail(e.to_string()));
        assert_eq!(poll_step(119, Err(e.to_string())), PollStep::Fail(e.to_string()));
    }
}
