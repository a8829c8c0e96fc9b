use sealevel_adapter::Account;
use sealevel_adapter::ChainError;
use sealevel_adapter::CommitmentLevel;
use sealevel_adapter::U256;
use sealevel_adapter::narrow_block_height;
use sealevel_adapter::normalize_transport_result;
use sealevel_adapter::require_account;
use sealevel_adapter::widen_balance;

fn sample_account() -> Account {
    Account {
        lamports: 42,
        data: vec![1, 2, 3],
        owner: vec![7u8; 32],
        executable: false,
        rent_epoch: 9,
    }
}

#[test]
fn absent_account_is_none_not_error() {
    let possible = normalize_transport_result::<Option<Account>>(Ok(None));
    assert!(matches!(possible, Ok(None)));

    let required = require_account(None);
    assert!(matches!(required, Err(ChainError::NotFound)));
}

#[test]
fn present_account_is_returned() {
    let account = sample_account();
    let required = require_account(Some(account.clone()));
    assert_eq!(required.unwrap(), account);
}

#[test]
fn transport_fault_becomes_transport_kind() {
    let r = normalize_transport_result::<u32>(Err("connection refused".to_string()));
    match r {
        Err(e) => {
            assert!(e.is_transport_failure());
            assert!(matches!(e, ChainError::Transport(m) if m == "connection refused"));
        }
        Ok(_) => panic!("a transport fault must not pass through as a value"),
    }
}

#[test]
fn transport_value_passes_through() {
    let r = normalize_transport_result::<u32>(Ok(17));
    assert_eq!(r.unwrap(), 17);
}

#[test]
fn balance_widens_losslessly() {
    let widened = widen_balance(5_000_000_000);
    assert_eq!(widened, U256 { limb0: 5_000_000_000, limb1: 0, limb2: 0, limb3: 0 });
}

#[test]
fn block_height_narrows_within_range() {
    assert_eq!(narrow_block_height(0).unwrap(), 0);
    assert_eq!(narrow_block_height(4_294_967_295).unwrap(), u32::MAX);
}

#[test]
fn block_height_beyond_u32_is_fatal_not_wrapped() {
    let r = narrow_block_height(4_294_967_296);
    assert!(matches!(r, Err(ChainError::NumericRange)));
}

#[test]
fn error_kinds_are_distinguished() {
    assert!(!ChainError::NotFound.is_transport_failure());
    assert!(!ChainError::UnsupportedEncoding.is_transport_failure());
    assert!(ChainError::Transport("x".to_string()).is_transport_failure());
}

#[test]
fn commitment_levels_are_distinct() {
    assert_ne!(CommitmentLevel::Processed, CommitmentLevel::Finalized);
}
