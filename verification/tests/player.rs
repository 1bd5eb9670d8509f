use audio_playback::model::ConsumerOutcome;
use audio_playback::player::Player;
use audio_playback::PlaybackState;
use audio_playback::TransportError;

fn ready_player() -> Player {
    let mut p = Player::new();
    p.install_sink();
    p
}

#[test]
fn submit_then_consumer_plays_payload() {
    let mut p = ready_player();
    assert_eq!(p.submit(vec![1, 2, 3], true), Ok(()));
    assert_eq!(p.consumer_step(true, true), ConsumerOutcome::Played);
    assert_eq!(p.sink.sounds, vec![vec![1, 2, 3]]);
    assert_eq!(p.cache, Some(vec![1, 2, 3]));
}

#[test]
fn two_submissions_play_in_send_order() {
    let mut p = ready_player();
    assert_eq!(p.submit(vec![1], true), Ok(()));
    assert_eq!(p.consumer_step(true, true), ConsumerOutcome::Played);
    assert_eq!(p.sink.sounds, vec![vec![1]]);
    assert_eq!(p.submit(vec![2], true), Ok(()));
    assert_eq!(p.consumer_step(true, true), ConsumerOutcome::Played);
    // The first sound was stopped and replaced: exactly one sound pends.
    assert_eq!(p.sink.sounds, vec![vec![2]]);
}

#[test]
fn successful_enqueue_turns_state_playing() {
    let mut p = ready_player();
    assert_eq!(p.state, PlaybackState::Stopped);
    assert_eq!(p.submit(vec![9], true), Ok(()));
    assert!(p.monitor_recv());
    assert_eq!(p.state, PlaybackState::Playing);
    // A refreshing signal while already playing keeps the state.
    assert_eq!(p.consumer_step(true, true), ConsumerOutcome::Played);
    assert_eq!(p.submit(vec![8], true), Ok(()));
    assert!(p.monitor_recv());
    assert_eq!(p.state, PlaybackState::Playing);
}

#[test]
fn completion_event_fires_exactly_once() {
    let mut p = ready_player();
    assert_eq!(p.submit(vec![7], true), Ok(()));
    assert!(p.monitor_recv());
    assert_eq!(p.consumer_step(true, true), ConsumerOutcome::Played);
    // Sound still pending: the poll fires nothing.
    assert!(!p.poll_tick(true));
    p.drain_one();
    // First empty poll fires the completion event and drops the state.
    assert!(p.poll_tick(true));
    assert_eq!(p.state, PlaybackState::Stopped);
    // A second consecutive empty poll fires nothing further.
    assert!(!p.poll_tick(true));
    assert_eq!(p.state, PlaybackState::Stopped);
}

#[test]
fn pause_resume_succeed_and_keep_bookkeeping() {
    let mut p = ready_player();
    assert_eq!(p.submit(vec![5], true), Ok(()));
    assert!(p.monitor_recv());
    assert_eq!(p.consumer_step(true, true), ConsumerOutcome::Played);
    assert_eq!(p.pause(true, true), Ok(()));
    assert!(p.sink.paused);
    assert_eq!(p.state, PlaybackState::Playing);
    assert_eq!(p.resume(true, true), Ok(()));
    assert!(!p.sink.paused);
    assert_eq!(p.state, PlaybackState::Playing);
    // Pausing an already paused sink is no error at this layer.
    assert_eq!(p.pause(true, true), Ok(()));
    assert_eq!(p.pause(true, true), Ok(()));
}

#[test]
fn replay_without_cache_is_a_noop_success() {
    let mut p = ready_player();
    assert_eq!(p.replay(true, true), Ok(()));
    // No queue write and no signal happened.
    assert_eq!(p.consumer_poll(), None);
    assert!(!p.monitor_recv());
    assert_eq!(p.state, PlaybackState::Stopped);
}

#[test]
fn replay_redelivers_the_same_bytes() {
    let mut p = ready_player();
    assert_eq!(p.submit(vec![4, 5, 6], true), Ok(()));
    assert_eq!(p.consumer_step(true, true), ConsumerOutcome::Played);
    assert_eq!(p.replay(true, true), Ok(()));
    assert_eq!(p.consumer_poll(), Some(vec![4, 5, 6]));
}

#[test]
fn full_queue_rejects_submission_but_keeps_queued_payload() {
    let mut p = ready_player();
    assert_eq!(p.submit(vec![1], true), Ok(()));
    assert_eq!(p.submit(vec![2], true), Err(TransportError::QueueFull));
    // The cache keeps the newer payload, the queue the older one.
    assert_eq!(p.cache, Some(vec![2]));
    assert_eq!(p.consumer_poll(), Some(vec![1]));
}

#[test]
fn replay_reports_queue_full() {
    let mut p = ready_player();
    assert_eq!(p.submit(vec![3], true), Ok(()));
    // The slot is still occupied, so the best-effort replay fails softly.
    assert_eq!(p.replay(true, true), Err(TransportError::QueueFull));
    assert_eq!(p.consumer_poll(), Some(vec![3]));
}

#[test]
fn transport_without_sink_reports_no_active_audio() {
    let mut p = Player::new();
    assert_eq!(p.pause(true, true), Err(TransportError::NoActiveAudio));
    assert_eq!(p.resume(true, true), Err(TransportError::NoActiveAudio));
    assert_eq!(p.stop(true, true), Err(TransportError::NoActiveAudio));
}

#[test]
fn contended_locks_report_busy() {
    let mut p = ready_player();
    assert_eq!(p.pause(false, true), Err(TransportError::Busy));
    assert_eq!(p.pause(true, false), Err(TransportError::Busy));
    assert_eq!(p.resume(false, false), Err(TransportError::Busy));
    assert_eq!(p.stop(false, true), Err(TransportError::Busy));
    assert_eq!(p.replay(false, true), Err(TransportError::Busy));
    assert_eq!(p.replay(true, false), Err(TransportError::Busy));
}

#[test]
fn decode_failure_drops_payload_and_consumer_survives() {
    let mut p = ready_player();
    assert_eq!(p.submit(vec![0xff], true), Ok(()));
    assert_eq!(p.consumer_step(true, false), ConsumerOutcome::DecodeFailed);
    assert!(p.sink.sounds.is_empty());
    // The queue slot is free again and the consumer keeps running.
    assert_eq!(p.consumer_step(true, true), ConsumerOutcome::Idle);
    assert_eq!(p.submit(vec![1], true), Ok(()));
    assert_eq!(p.consumer_step(true, true), ConsumerOutcome::Played);
}

#[test]
fn contended_sink_drops_payload() {
    let mut p = ready_player();
    assert_eq!(p.submit(vec![6], true), Ok(()));
    assert_eq!(p.consumer_step(false, true), ConsumerOutcome::Contended);
    assert!(p.sink.sounds.is_empty());
    // The payload left the queue and is gone; replay recovers it from the
    // cache.
    assert_eq!(p.consumer_step(true, true), ConsumerOutcome::Idle);
    assert_eq!(p.replay(true, true), Ok(()));
    assert_eq!(p.consumer_step(true, true), ConsumerOutcome::Played);
    assert_eq!(p.sink.sounds, vec![vec![6]]);
}

#[test]
fn missing_sink_drops_payload() {
    let mut p = Player::new();
    assert_eq!(p.submit(vec![7], true), Ok(()));
    assert_eq!(p.consumer_step(true, true), ConsumerOutcome::SinkMissing);
    assert!(p.sink.sounds.is_empty());
}

#[test]
fn stop_clears_pending_audio() {
    let mut p = ready_player();
    assert_eq!(p.submit(vec![2, 4], true), Ok(()));
    assert!(p.monitor_recv());
    assert_eq!(p.consumer_step(true, true), ConsumerOutcome::Played);
    assert_eq!(p.stop(true, true), Ok(()));
    assert!(p.sink.sounds.is_empty());
    // The monitor then reports the emptied sink as a completed playback.
    assert!(p.poll_tick(true));
    assert_eq!(p.state, PlaybackState::Stopped);
}

#[test]
fn poll_is_a_noop_while_stopped_or_contended() {
    let mut p = ready_player();
    // Stopped and empty: nothing fires.
    assert!(!p.poll_tick(true));
    // Playing but the sink lock is contended: nothing fires.
    assert_eq!(p.submit(vec![1], true), Ok(()));
    assert!(p.monitor_recv());
    assert_eq!(p.consumer_step(true, true), ConsumerOutcome::Played);
    p.drain_one();
    assert!(!p.poll_tick(false));
    assert_eq!(p.state, PlaybackState::Playing);
}

#[test]
fn full_playback_and_replay_scenario() {
    let p1 = vec![0x52, 0x49, 0x46, 0x46];
    let mut p = ready_player();

    // Submission reaches the consumer and plays.
    assert_eq!(p.submit(p1.clone(), true), Ok(()));
    assert!(p.monitor_recv());
    assert_eq!(p.state, PlaybackState::Playing);
    assert_eq!(p.consumer_step(true, true), ConsumerOutcome::Played);
    assert_eq!(p.sink.sounds, vec![p1.clone()]);

    // The clip plays out; the poll detects the drain and fires the
    // completion event once.
    p.drain_one();
    assert!(p.poll_tick(true));
    assert_eq!(p.state, PlaybackState::Stopped);
    assert!(!p.poll_tick(true));

    // Replay re-delivers the same bytes and the same completion follows.
    assert_eq!(p.replay(true, true), Ok(()));
    assert!(p.monitor_recv());
    assert_eq!(p.state, PlaybackState::Playing);
    assert_eq!(p.consumer_step(true, true), ConsumerOutcome::Played);
    assert_eq!(p.sink.sounds, vec![p1]);
    p.drain_one();
    assert!(p.poll_tick(true));
    assert_eq!(p.state, PlaybackState::Stopped);
    assert!(!p.poll_tick(true));
}
