//! The node manager service: each request dispatched to the component that
//! serves it, and every outcome mapped to a result code.
use vstd::prelude::*;
use crate::protocol::{GenSeedLength, GenSeedRequest, GenSeedResponse, CreateWalletRequest, CreateWalletResponse, CreateWalletResult, StartDaemonRequest, StartDaemonResponse, StartDaemonResult, DeleteWalletRequest, DeleteWalletResponse, RpcStatus};
use crate::mnemonic::{generate, derive_secret, derive_outcome, phrase_valid, words_view};
use crate::store::{CreateSession, StoreAction, StoreStage, record_path_of, temp_path_of};
use crate::daemon::{ProcessInfo, SpawnPlan, StartDecision, decide_start, daemon_running, processes_view, daemon_name, spawn_result};

verus! {

/// The service of one node, bound to its configuration directory.
#[derive(Debug, Default)]
pub struct NodeManagerService {
    pub config_dir: String,
}

impl NodeManagerService {
    pub fn new(config_dir: String) -> (r: NodeManagerService)
        ensures
            r.config_dir@ == config_dir@,
    {
        NodeManagerService { config_dir }
    }

    /// A fresh mnemonic of the requested length. A length code out of range
    /// is an invalid argument; failing secure entropy is an internal error.
    pub fn gen_seed(&self, request: &GenSeedRequest) -> (r: Result<GenSeedResponse, RpcStatus>)
        ensures
            r == Err::<GenSeedResponse, RpcStatus>(RpcStatus::InvalidArgument) <==> !(0 <= request.length
                <= 4),
            r is Err ==> r == Err::<GenSeedResponse, RpcStatus>(RpcStatus::InvalidArgument) || r
                == Err::<GenSeedResponse, RpcStatus>(RpcStatus::Internal),
            r matches Ok(resp) ==> GenSeedLength::from_spec_code(request.length) matches Some(
                len,
            ) && resp.bip39@.len() == len.spec_word_count() && phrase_valid(words_view(resp.bip39@)),
    {
        match GenSeedLength::from_i32(request.length) {
            None => Err(RpcStatus::InvalidArgument),
            Some(length) => match generate(length) {
                None => Err(RpcStatus::Internal),
                Some(words) => Ok(GenSeedResponse { bip39: words }),
            },
        }
    }

    /// Begins a wallet creation: the secret is derived from the phrase and
    /// the passphrase, and a session is returned that stores it in the
    /// configuration directory. A phrase that does not parse ends the
    /// request at once with `CreateWalletErrorInvalidMnemonic`. `token`
    /// names the session's temporary file; the caller gives each session a
    /// token of its own.
    pub fn create_wallet(&self, request: &CreateWalletRequest, token: &str) -> (r: Result<
        (CreateSession, StoreAction),
        CreateWalletResponse,
    >)
        ensures
            r is Err <==> !phrase_valid(words_view(request.bip39@)),
            r is Err <==> derive_outcome(words_view(request.bip39@), request.passphrase@) is None,
            r matches Err(resp) ==> resp.result
                == CreateWalletResult::CreateWalletErrorInvalidMnemonic.spec_code(),
            r matches Ok(started) ==> derive_outcome(words_view(request.bip39@), request.passphrase@)
                == Some(started.0.secret@) && started.0.record_path@ == record_path_of(
                self.config_dir@,
            ) && started.0.temp_path@ == temp_path_of(self.config_dir@, token@) && started.0.stage
                == StoreStage::Writing && started.1 == StoreAction::WriteTemp,
    {
        match derive_secret(&request.bip39, request.passphrase.as_str()) {
            Err(_) => Err(
                CreateWalletResponse::from_result(
                    CreateWalletResult::CreateWalletErrorInvalidMnemonic,
                ),
            ),
            Ok(secret) => Ok(CreateSession::new(self.config_dir.as_str(), token, secret)),
        }
    }

    /// Begins a daemon start, given the process table: where the daemon of
    /// the configuration directory runs, the request ends at once with
    /// `StartDaemonErrorAlreadyRunning`; else the plan to spawn it with the
    /// request's arguments in the configuration directory.
    pub fn start_daemon(&self, processes: &Vec<ProcessInfo>, request: StartDaemonRequest) -> (r: Result<
        SpawnPlan,
        StartDaemonResponse,
    >)
        ensures
            r is Err <==> daemon_running(processes_view(processes@), self.config_dir@),
            r matches Err(resp) ==> resp.result
                == StartDaemonResult::StartDaemonErrorAlreadyRunning.spec_code(),
            r matches Ok(plan) ==> plan.program@ == daemon_name() && plan.args@ == request.args@
                && plan.work_dir@ == self.config_dir@,
    {
        match decide_start(processes, self.config_dir.as_str(), request.args) {
            StartDecision::AlreadyRunning => Err(
                StartDaemonResponse::from_result(StartDaemonResult::StartDaemonErrorAlreadyRunning),
            ),
            StartDecision::Spawn(plan) => Ok(plan),
        }
    }

    /// Ends a daemon start whose spawn was attempted.
    pub fn finish_start_daemon(&self, spawned: bool) -> (r: StartDaemonResponse)
        ensures
            spawned ==> r.result == StartDaemonResult::StartDaemonSuccess.spec_code(),
            !spawned ==> r.result == StartDaemonResult::StartDaemonErrorUnknown.spec_code(),
    {
        StartDaemonResponse::from_result(spawn_result(spawned))
    }

    /// Wallet deletion is not offered.
    pub fn delete_wallet(&self, request: &DeleteWalletRequest) -> (r: Result<DeleteWalletResponse, RpcStatus>)
        ensures
            r == Err::<DeleteWalletResponse, RpcStatus>(RpcStatus::Unimplemented),
    {
        Err(RpcStatus::Unimplemented)
    }
}

} // verus!
