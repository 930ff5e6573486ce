use cln_init::daemon::{decide_start, spawn_result, ProcessInfo, StartDecision};
use cln_init::protocol::{
    CreateWalletRequest, CreateWalletResult, DeleteWalletRequest, GenSeedRequest, RpcStatus,
    StartDaemonRequest, StartDaemonResult,
};
use cln_init::service::NodeManagerService;
use cln_init::store::{StoreAction, StoreStage};

fn proc(name: &str, cwd: Option<&str>) -> ProcessInfo {
    ProcessInfo { name: name.to_string(), cwd: cwd.map(|c| c.to_string()) }
}

#[test]
fn gen_seed_rejects_bad_length() {
    let svc = NodeManagerService::new("/cfg".to_string());
    assert_eq!(svc.gen_seed(&GenSeedRequest { length: 7 }).err(), Some(RpcStatus::InvalidArgument));
    let r = svc.gen_seed(&GenSeedRequest { length: 2 }).unwrap();
    assert_eq!(r.bip39.len(), 18);
}

#[test]
fn delete_wallet_is_unimplemented() {
    let svc = NodeManagerService::default();
    assert_eq!(svc.delete_wallet(&DeleteWalletRequest {}).err(), Some(RpcStatus::Unimplemented));
}

#[test]
fn create_wallet_invalid_mnemonic() {
    let svc = NodeManagerService::new("/cfg".to_string());
    let req = CreateWalletRequest { bip39: vec!["abandon".to_string(); 12], passphrase: String::new() };
    let resp = svc.create_wallet(&req, "t").err().unwrap();
    assert_eq!(resp.result, CreateWalletResult::CreateWalletErrorInvalidMnemonic.code());
}

#[test]
fn create_wallet_starts_session() {
    let svc = NodeManagerService::new("/cfg".to_string());
    let mut bip39 = vec!["abandon".to_string(); 11];
    bip39.push("about".to_string());
    let req = CreateWalletRequest { bip39, passphrase: "TREZOR".to_string() };
    let (session, action) = svc.create_wallet(&req, "t").ok().unwrap();
    assert_eq!(action, StoreAction::WriteTemp);
    assert_eq!(session.stage, StoreStage::Writing);
    assert_eq!(session.record_path, "/cfg/bitcoin/hsm_secret");
    assert_eq!(session.temp_path, "/cfg/bitcoin/hsm_secret.new-t");
    assert_eq!(&session.secret[..4], &[0xc5, 0x52, 0x57, 0xc3]);
}

#[test]
fn create_wallet_rejects_words_merged_into_one_item() {
    let svc = NodeManagerService::new("/cfg".to_string());
    let mut bip39 = vec!["abandon abandon".to_string()];
    bip39.extend(vec!["abandon".to_string(); 9]);
    bip39.push("about".to_string());
    let req = CreateWalletRequest { bip39, passphrase: String::new() };
    let resp = svc.create_wallet(&req, "t").err().unwrap();
    assert_eq!(resp.result, CreateWalletResult::CreateWalletErrorInvalidMnemonic.code());
}

#[test]
fn start_daemon_when_absent_plans_spawn() {
    let svc = NodeManagerService::new("/cfg".to_string());
    let procs = vec![proc("bash", None), proc("lightningd", Some("/other"))];
    let plan = svc
        .start_daemon(&procs, StartDaemonRequest { args: vec!["--network=bitcoin".to_string()] })
        .ok()
        .unwrap();
    assert_eq!(plan.program, "lightningd");
    assert_eq!(plan.args, vec!["--network=bitcoin".to_string()]);
    assert_eq!(plan.work_dir, "/cfg");
    assert_eq!(svc.finish_start_daemon(true).result, StartDaemonResult::StartDaemonSuccess.code());
    assert_eq!(svc.finish_start_daemon(false).result, StartDaemonResult::StartDaemonErrorUnknown.code());
}

#[test]
fn start_daemon_when_running_refuses() {
    let svc = NodeManagerService::new("/cfg".to_string());
    for p in [proc("lightningd", Some("/cfg")), proc("lightningd", None)] {
        let resp = svc.start_daemon(&vec![p], StartDaemonRequest { args: vec![] }).err().unwrap();
        assert_eq!(resp.result, StartDaemonResult::StartDaemonErrorAlreadyRunning.code());
    }
}

#[test]
fn start_decision_and_spawn_result() {
    assert!(matches!(decide_start(&vec![], "/d", vec![]), StartDecision::Spawn(_)));
    assert!(matches!(
        decide_start(&vec![proc("lightningd", Some("/d"))], "/d", vec![]),
        StartDecision::AlreadyRunning
    ));
    assert_eq!(spawn_result(true), StartDaemonResult::StartDaemonSuccess);
    assert_eq!(spawn_result(false), StartDaemonResult::StartDaemonErrorUnknown);
}
