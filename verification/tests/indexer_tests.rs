use sealevel_adapter::AbacusMessage;
use sealevel_adapter::ChainError;
use sealevel_adapter::Indexer;
use sealevel_adapter::LogMeta;
use sealevel_adapter::MailboxIndexer;
use sealevel_adapter::MockAbacusIndexer;

fn message(nonce: u32) -> AbacusMessage {
    AbacusMessage {
        version: 0,
        nonce,
        origin: 13375,
        sender: vec![1u8; 32],
        destination: 13376,
        recipient: vec![2u8; 32],
        body: vec![0xab, 0xcd],
    }
}

fn meta(block_number: u64, log_index: u64) -> LogMeta {
    LogMeta { block_number, transaction_index: 0, log_index }
}

#[test]
fn finalized_height_is_idempotent() {
    let mut mock = MockAbacusIndexer::new();
    mock.set_finalized_block_number(1000);
    let first = mock.get_finalized_block_number().unwrap();
    let second = mock.get_finalized_block_number().unwrap();
    assert_eq!(first, 1000);
    assert_eq!(first, second);
    assert_eq!(mock.finalized_block_number_calls(), 2);
}

#[test]
fn scenario_two_messages_in_range() {
    let mut mock = MockAbacusIndexer::new();
    mock.set_finalized_block_number(1000);
    let pairs = vec![(message(0), meta(3, 0)), (message(1), meta(7, 1))];
    mock.set_sorted_messages(pairs.clone());

    let height = mock.get_finalized_block_number().unwrap();
    assert_eq!(height, 1000);

    let fetched = mock.fetch_sorted_messages(1, 1000).unwrap();
    assert_eq!(fetched, pairs);
    assert_eq!(mock.fetch_sorted_messages_calls(), &vec![(1, 1000)]);
}

#[test]
fn empty_range_is_empty_not_an_error() {
    let mut mock = MockAbacusIndexer::new();
    mock.set_sorted_messages(vec![(message(0), meta(3, 0)), (message(1), meta(7, 0))]);
    let fetched = mock.fetch_sorted_messages(10, 2).unwrap();
    assert!(fetched.is_empty());

    // Even an injected fetch failure does not turn an empty range into an
    // error: the range holds no blocks to consult.
    mock.fail_fetch_sorted_messages(ChainError::Transport("node down".to_string()));
    let fetched = mock.fetch_sorted_messages(5, 4).unwrap();
    assert!(fetched.is_empty());
}

#[test]
fn fetch_filters_by_inclusive_block_range() {
    let mut mock = MockAbacusIndexer::new();
    let inside = (message(1), meta(7, 0));
    mock.set_sorted_messages(vec![
        (message(0), meta(3, 0)),
        inside.clone(),
        (message(2), meta(20, 0)),
    ]);
    let fetched = mock.fetch_sorted_messages(5, 10).unwrap();
    assert_eq!(fetched, vec![inside]);

    let all = mock.fetch_sorted_messages(3, 20).unwrap();
    assert_eq!(all.len(), 3);

    let none = mock.fetch_sorted_messages(8, 19).unwrap();
    assert!(none.is_empty());
}

#[test]
fn range_bounds_are_inclusive() {
    let mut mock = MockAbacusIndexer::new();
    mock.set_sorted_messages(vec![(message(0), meta(5, 0)), (message(1), meta(9, 0))]);
    let fetched = mock.fetch_sorted_messages(5, 9).unwrap();
    assert_eq!(fetched.len(), 2);
}

#[test]
fn injected_height_failure_is_returned() {
    let mut mock = MockAbacusIndexer::new();
    mock.fail_finalized_block_number(ChainError::Transport("timeout".to_string()));
    let r = mock.get_finalized_block_number();
    assert!(matches!(r, Err(ChainError::Transport(m)) if m == "timeout"));
    assert_eq!(mock.finalized_block_number_calls(), 1);
}

#[test]
fn injected_fetch_failure_is_returned() {
    let mut mock = MockAbacusIndexer::new();
    mock.set_sorted_messages(vec![(message(0), meta(3, 0))]);
    mock.fail_fetch_sorted_messages(ChainError::Transport("node down".to_string()));
    let r = mock.fetch_sorted_messages(1, 10);
    assert!(matches!(r, Err(ChainError::Transport(m)) if m == "node down"));
}

#[test]
fn fetch_calls_are_recorded_in_order() {
    let mut mock = MockAbacusIndexer::new();
    let _ = mock.fetch_sorted_messages(1, 2);
    let _ = mock.fetch_sorted_messages(3, 4);
    let _ = mock.fetch_sorted_messages(9, 1);
    assert_eq!(mock.fetch_sorted_messages_calls(), &vec![(1, 2), (3, 4), (9, 1)]);
}

#[test]
fn reconfiguring_the_height_overrides_an_injected_failure() {
    let mut mock = MockAbacusIndexer::new();
    mock.fail_finalized_block_number(ChainError::Transport("boot".to_string()));
    mock.set_finalized_block_number(77);
    assert_eq!(mock.get_finalized_block_number().unwrap(), 77);
}
