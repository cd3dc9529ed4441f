use raft_core::channel::message::Message;
use raft_core::channel::queue::RecvOutcome;
use raft_core::channel::request_reply_channel::{
    apply_strategy, plan_poll, resolve_wait_outcome, ConsumerAction, SendError,
};
use raft_core::channel::signal::SharedSignal;
use raft_core::log::{LogPosition, SegmentLog};
use raft_core::payloads::{CreateBalance, CreateBalanceResponse, MyRequest, MyResponse};
use raft_core::rpc::{
    AppendEntryRequest, AppendEntryResponse, RequestVoteRequest, RequestVoteResponse,
};
use raft_core::network::RpcMessage;
use raft_core::state::{RaftState, State};

#[test]
fn resolve_wait_outcome_received_is_ok() {
    let response = MyResponse { correlation_id: 4, content: "pong".to_string() };
    let r = resolve_wait_outcome(RecvOutcome::Received(response.clone()));
    assert_eq!(r, Ok(response));
}

#[test]
fn resolve_wait_outcome_timed_out_is_timeout() {
    let r = resolve_wait_outcome::<MyResponse>(RecvOutcome::TimedOut);
    assert_eq!(r, Err(SendError::Timeout));
}

#[test]
fn resolve_wait_outcome_closed_is_lost_response() {
    let r = resolve_wait_outcome::<MyResponse>(RecvOutcome::Closed);
    assert_eq!(r, Err(SendError::LostResponse));
}

#[test]
fn plan_poll_received_replies() {
    let (reply_sender, _reply_receiver) = std::sync::mpsc::channel::<MyResponse>();
    let request = MyRequest { correlation_id: 7, content: "ping".to_string() };
    let message = Message::new(request, reply_sender);
    let action = plan_poll(RecvOutcome::Received(message));
    match action {
        ConsumerAction::Reply(m) => {
            assert_eq!(m.request.correlation_id, 7);
            assert_eq!(m.request.content, "ping".to_string());
        }
        _ => panic!("an envelope must be processed"),
    }
}

#[test]
fn plan_poll_timed_out_keeps_polling() {
    let action = plan_poll::<MyRequest, MyResponse>(RecvOutcome::TimedOut);
    assert!(matches!(action, ConsumerAction::KeepPolling));
}

#[test]
fn plan_poll_closed_shuts_down() {
    let action = plan_poll::<MyRequest, MyResponse>(RecvOutcome::Closed);
    assert!(matches!(action, ConsumerAction::Shutdown));
}

#[test]
fn apply_strategy_answers_the_given_envelope() {
    let (reply_sender, _reply_receiver) = std::sync::mpsc::channel::<MyResponse>();
    let request = MyRequest { correlation_id: 21, content: "question".to_string() };
    let message = Message::new(request, reply_sender);
    let echo = |m: &Message<MyRequest, MyResponse>| MyResponse {
        correlation_id: m.request.correlation_id,
        content: m.request.content.clone(),
    };
    let response = apply_strategy(&message, &echo);
    assert_eq!(
        response,
        MyResponse { correlation_id: 21, content: "question".to_string() }
    );
}

#[test]
fn message_new_keeps_the_request() {
    let (reply_sender, _reply_receiver) = std::sync::mpsc::channel::<CreateBalanceResponse>();
    let request = CreateBalance {
        uuid_most_significant: 11,
        uuid_least_significant: 22,
        user_id: 33,
    };
    let message = Message::new(request.clone(), reply_sender);
    assert_eq!(message.request, request);
}

#[test]
fn signal_starts_unprocessed() {
    let signal = SharedSignal::<MyResponse>::new();
    assert!(!signal.processed);
    assert!(signal.response.is_none());
    assert!(signal.wait().is_err());
}

#[test]
fn signal_complete_stores_the_response() {
    let mut signal = SharedSignal::<MyResponse>::new();
    let response = MyResponse { correlation_id: 1, content: "one".to_string() };
    signal.complete(response.clone());
    assert!(signal.processed);
    assert_eq!(signal.response, Some(response));
    assert!(signal.wait().is_ok());
}

#[test]
fn signal_second_complete_is_a_no_op() {
    let mut signal = SharedSignal::<MyResponse>::new();
    let first = MyResponse { correlation_id: 1, content: "first".to_string() };
    let second = MyResponse { correlation_id: 2, content: "second".to_string() };
    signal.complete(first.clone());
    signal.complete(second);
    assert!(signal.processed);
    assert_eq!(signal.response, Some(first));
}

#[test]
fn log_position_new_keeps_term_and_index() {
    let position = LogPosition::new(3, 14);
    assert_eq!(position.term, 3);
    assert_eq!(position.index, 14);
}

#[test]
fn segment_log_last_index_counts_commands() {
    let empty = SegmentLog::new(1, Vec::new());
    assert_eq!(empty.last_log_index(), 0);
    let segment = SegmentLog::new(1, vec![vec![1u8], vec![2u8, 3u8]]);
    assert_eq!(segment.last_log_index(), 2);
}

#[test]
fn segment_log_log_at_is_one_based() {
    let segment = SegmentLog::new(5, vec![vec![10u8], vec![20u8]]);
    assert_eq!(segment.log_at(1), Some(&vec![10u8]));
    assert_eq!(segment.log_at(2), Some(&vec![20u8]));
    assert_eq!(segment.log_at(0), None);
    assert_eq!(segment.log_at(3), None);
}

#[test]
fn raft_state_new_is_a_fresh_follower() {
    let state = RaftState::new(42);
    assert_eq!(state.current_term, 0);
    assert_eq!(state.voted_for, None);
    assert!(state.logs.is_empty());
    assert_eq!(state.commit_position, LogPosition::new(0, 0));
    assert_eq!(state.last_applied, LogPosition::new(0, 0));
    assert!(state.next_position.is_empty());
    assert!(state.match_position.is_empty());
    assert_eq!(state.state, State::Follower);
    assert_eq!(state.server_id, 42);
}

#[test]
fn raft_state_last_log_index_and_term_read_the_last_segment() {
    let mut state = RaftState::new(1);
    assert_eq!(state.last_log_index(), 0);
    assert_eq!(state.last_log_term(), 0);
    state.logs.push(SegmentLog::new(2, vec![vec![1u8]]));
    state.logs.push(SegmentLog::new(4, vec![vec![2u8], vec![3u8], vec![4u8]]));
    assert_eq!(state.last_log_index(), 3);
    assert_eq!(state.last_log_term(), 4);
}

#[test]
fn rpc_messages_carry_their_payloads() {
    let vote = RpcMessage::RequestVote(RequestVoteRequest {
        current_term: 2,
        candidate_id: 1,
        last_log_index: 9,
        last_log_term: 1,
    });
    match vote {
        RpcMessage::RequestVote(request) => {
            assert_eq!(request.current_term, 2);
            assert_eq!(request.last_log_index, 9);
        }
        _ => panic!("the variant must match what was built"),
    }
    let granted = RequestVoteResponse { term: 2, vote_granted: true };
    assert!(granted.vote_granted);
    let append = AppendEntryRequest {
        current_term: 2,
        leader_id: 1,
        prev_log_index: 8,
        prev_log_term: 1,
        append_index: 9,
        entries: vec![vec![7u8]],
        leader_commit: 8,
    };
    assert_eq!(append.entries.len(), 1);
    let ack = AppendEntryResponse { term: 2, success: false };
    assert!(!ack.success);
}
