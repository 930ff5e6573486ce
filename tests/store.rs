use cln_init::protocol::CreateWalletResult;
use cln_init::store::{
    fault_result, hsm_secret_path, hsm_secret_temp_path, join_path, CreateSession, IoFault,
    StoreAction, StoreEvent, StoreStage,
};

#[test]
fn paths_under_config_dir() {
    assert_eq!(hsm_secret_path("/home/u/.lightning"), "/home/u/.lightning/bitcoin/hsm_secret");
    assert_eq!(hsm_secret_path("/home/u/.lightning/"), "/home/u/.lightning/bitcoin/hsm_secret");
    assert_eq!(hsm_secret_temp_path("cfg", "41-7"), "cfg/bitcoin/hsm_secret.new-41-7");
    assert_eq!(join_path("", "x"), "x");
}

#[test]
fn fresh_directory_create_succeeds() {
    let (mut s, a) = CreateSession::new("/cfg", "t", [7u8; 32]);
    assert_eq!(a, StoreAction::WriteTemp);
    assert_eq!(s.secret, [7u8; 32]);
    assert_eq!(s.advance(StoreEvent::Done), StoreAction::LinkRecord);
    assert_eq!(s.secret, [0u8; 32]);
    assert_eq!(s.advance(StoreEvent::Done), StoreAction::RemoveTemp);
    let ok = CreateWalletResult::CreateWalletSuccess;
    assert_eq!(s.advance(StoreEvent::Done), StoreAction::Finish(ok));
    assert_eq!(s.stage, StoreStage::Finished(ok));
    assert_eq!(s.advance(StoreEvent::Done), StoreAction::Finish(ok));
}

#[test]
fn existing_record_is_reported() {
    let (mut s, _) = CreateSession::new("/cfg", "t", [1u8; 32]);
    s.advance(StoreEvent::Done);
    assert_eq!(s.advance(StoreEvent::Failed(IoFault::AlreadyExists)), StoreAction::RemoveTemp);
    let r = CreateWalletResult::CreateWalletErrorAlreadyExists;
    assert_eq!(s.advance(StoreEvent::Failed(IoFault::Other)), StoreAction::Finish(r));
}

#[test]
fn write_failures_are_classified() {
    let (mut s, _) = CreateSession::new("/cfg", "t", [1u8; 32]);
    assert_eq!(s.advance(StoreEvent::Failed(IoFault::PermissionDenied)), StoreAction::RemoveTemp);
    assert_eq!(s.secret, [0u8; 32]);
    let r = CreateWalletResult::CreateWalletErrorPermissionDenied;
    assert_eq!(s.advance(StoreEvent::Done), StoreAction::Finish(r));
    let (mut s, _) = CreateSession::new("/cfg", "t", [1u8; 32]);
    s.advance(StoreEvent::Failed(IoFault::Other));
    let r = CreateWalletResult::CreateWalletErrorUnknown;
    assert_eq!(s.advance(StoreEvent::Done), StoreAction::Finish(r));
}

#[test]
fn taken_temp_file_is_left_alone() {
    let (mut s, _) = CreateSession::new("/cfg", "t", [1u8; 32]);
    let r = CreateWalletResult::CreateWalletErrorUnknown;
    assert_eq!(s.advance(StoreEvent::Failed(IoFault::AlreadyExists)), StoreAction::Finish(r));
    assert_eq!(s.stage, StoreStage::Finished(r));
    assert_eq!(s.secret, [0u8; 32]);
}

#[test]
fn session_paths_carry_token() {
    let (s, _) = CreateSession::new("/cfg", "abc", [1u8; 32]);
    assert_eq!(s.record_path, "/cfg/bitcoin/hsm_secret");
    assert_eq!(s.temp_path, "/cfg/bitcoin/hsm_secret.new-abc");
}

#[test]
fn fault_classes() {
    assert_eq!(fault_result(IoFault::AlreadyExists, true), CreateWalletResult::CreateWalletErrorAlreadyExists);
    assert_eq!(fault_result(IoFault::AlreadyExists, false), CreateWalletResult::CreateWalletErrorUnknown);
    assert_eq!(fault_result(IoFault::PermissionDenied, false), CreateWalletResult::CreateWalletErrorPermissionDenied);
    assert_eq!(fault_result(IoFault::Other, true), CreateWalletResult::CreateWalletErrorUnknown);
}
