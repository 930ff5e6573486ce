//! The create-once protocol for the secret file.
//!
//! The secret is first written to a temporary file beside the record, one
//! that each creation names with a token of its own and creates exclusively,
//! then hard-linked to the record's path, which fails where a record is already
//! there: the test for an existing record and its creation are one atomic
//! step, and a record never exists half written. The protocol is a step
//! machine; the caller performs each action on the file system and hands back
//! what happened.
use vstd::prelude::*;
use vstd::string::StrSliceExecFns;
use vstd::string::StringExecFns;
use crate::protocol::CreateWalletResult;

verus! {

/// `comp` appended to `base` as a path component.
pub open spec fn path_join(base: Seq<char>, comp: Seq<char>) -> Seq<char> {
    if base.len() == 0 {
        comp
    } else if base.last() == '/' {
        base + comp
    } else {
        base + seq!['/'] + comp
    }
}

pub open spec fn record_path_of(config_dir: Seq<char>) -> Seq<char> {
    path_join(path_join(config_dir, "bitcoin"@), "hsm_secret"@)
}

/// The temporary file of the creation that bears `token`.
pub open spec fn temp_path_of(config_dir: Seq<char>, token: Seq<char>) -> Seq<char> {
    path_join(path_join(config_dir, "bitcoin"@), "hsm_secret.new-"@ + token)
}

/// `comp` appended to `base` as a path component.
pub fn join_path(base: &str, comp: &str) -> (r: String)
    ensures
        r@ == path_join(base@, comp@),
{
    let mut s = String::new();
    s.append(base);
    let n = base.unicode_len();
    if n > 0 && base.get_char(n - 1) != '/' {
        proof {
            reveal_strlit("/");
        }
        s.append("/");
    }
    s.append(comp);
    s
}

/// Where the secret file of a configuration directory lives.
pub fn hsm_secret_path(config_dir: &str) -> (r: String)
    ensures
        r@ == record_path_of(config_dir@),
{
    proof {
        reveal_strlit("bitcoin");
        reveal_strlit("hsm_secret");
    }
    let network = join_path(config_dir, "bitcoin");
    join_path(network.as_str(), "hsm_secret")
}

/// Where the creation that bears `token` stages the secret before it is
/// linked into place.
pub fn hsm_secret_temp_path(config_dir: &str, token: &str) -> (r: String)
    ensures
        r@ == temp_path_of(config_dir@, token@),
{
    proof {
        reveal_strlit("bitcoin");
        reveal_strlit("hsm_secret.new-");
    }
    let network = join_path(config_dir, "bitcoin");
    let mut name = String::new();
    name.append("hsm_secret.new-");
    name.append(token);
    join_path(network.as_str(), name.as_str())
}

/// What a file-system operation reported.
#[derive(Clone, Copy, Debug, PartialEq, Eq, Structural)]
pub enum IoFault {
    /// The target path is already taken.
    AlreadyExists,
    /// The file system refused access.
    PermissionDenied,
    /// Any other failure.
    Other,
}

/// What the caller does next on the file system.
#[derive(Clone, Copy, Debug, PartialEq, Eq, Structural)]
pub enum StoreAction {
    /// Create the temporary file, failing with `AlreadyExists` where its
    /// path is taken; write the 32 secret bytes to it, readable and writable
    /// by the owner alone, and flush them to disk.
    WriteTemp,
    /// Hard-link the temporary file to the record path; this fails with
    /// `AlreadyExists` where the record path is taken.
    LinkRecord,
    /// Remove the temporary file.
    RemoveTemp,
    /// Stop, and report the result.
    Finish(CreateWalletResult),
}

/// What came of the last action.
#[derive(Clone, Copy, Debug, PartialEq, Eq, Structural)]
pub enum StoreEvent {
    Done,
    Failed(IoFault),
}

/// Where a wallet creation stands.
#[derive(Clone, Copy, Debug, PartialEq, Eq, Structural)]
pub enum StoreStage {
    /// The temporary file is being written.
    Writing,
    /// The temporary file is being linked into place.
    Linking,
    /// The temporary file is being removed; the result is known.
    Cleaning(CreateWalletResult),
    /// Over, with this result.
    Finished(CreateWalletResult),
}

/// The result that a failed write or link reports.
pub open spec fn fault_result_spec(f: IoFault, linking: bool) -> CreateWalletResult {
    match f {
        IoFault::AlreadyExists => if linking {
            CreateWalletResult::CreateWalletErrorAlreadyExists
        } else {
            CreateWalletResult::CreateWalletErrorUnknown
        },
        IoFault::PermissionDenied => CreateWalletResult::CreateWalletErrorPermissionDenied,
        IoFault::Other => CreateWalletResult::CreateWalletErrorUnknown,
    }
}

/// The next stage and action, from the stage and what the last action
/// reported. A temporary file that could not be created because its path was
/// taken belongs to someone else, and is left alone.
pub open spec fn step_spec(stage: StoreStage, event: StoreEvent) -> (StoreStage, StoreAction) {
    match stage {
        StoreStage::Writing => match event {
            StoreEvent::Done => (StoreStage::Linking, StoreAction::LinkRecord),
            StoreEvent::Failed(IoFault::AlreadyExists) => (
                StoreStage::Finished(CreateWalletResult::CreateWalletErrorUnknown),
                StoreAction::Finish(CreateWalletResult::CreateWalletErrorUnknown),
            ),
            StoreEvent::Failed(f) => (
                StoreStage::Cleaning(fault_result_spec(f, false)),
                StoreAction::RemoveTemp,
            ),
        },
        StoreStage::Linking => match event {
            StoreEvent::Done => (
                StoreStage::Cleaning(CreateWalletResult::CreateWalletSuccess),
                StoreAction::RemoveTemp,
            ),
            StoreEvent::Failed(f) => (
                StoreStage::Cleaning(fault_result_spec(f, true)),
                StoreAction::RemoveTemp,
            ),
        },
        StoreStage::Cleaning(res) => (StoreStage::Finished(res), StoreAction::Finish(res)),
        StoreStage::Finished(res) => (StoreStage::Finished(res), StoreAction::Finish(res)),
    }
}

/// The result that a failed write or link reports.
pub fn fault_result(f: IoFault, linking: bool) -> (r: CreateWalletResult)
    ensures
        r == fault_result_spec(f, linking),
{
    match f {
        IoFault::AlreadyExists => if linking {
            CreateWalletResult::CreateWalletErrorAlreadyExists
        } else {
            CreateWalletResult::CreateWalletErrorUnknown
        },
        IoFault::PermissionDenied => CreateWalletResult::CreateWalletErrorPermissionDenied,
        IoFault::Other => CreateWalletResult::CreateWalletErrorUnknown,
    }
}

impl StoreStage {
    /// A creation begins by writing the temporary file.
    pub fn start() -> (r: (StoreStage, StoreAction))
        ensures
            r == (StoreStage::Writing, StoreAction::WriteTemp),
    {
        (StoreStage::Writing, StoreAction::WriteTemp)
    }

    /// The next stage and action, from this stage and what the last action
    /// reported.
    pub fn step(&self, event: StoreEvent) -> (r: (StoreStage, StoreAction))
        ensures
            r == step_spec(*self, event),
    {
        match *self {
            StoreStage::Writing => match event {
                StoreEvent::Done => (StoreStage::Linking, StoreAction::LinkRecord),
                StoreEvent::Failed(IoFault::AlreadyExists) => (
                    StoreStage::Finished(CreateWalletResult::CreateWalletErrorUnknown),
                    StoreAction::Finish(CreateWalletResult::CreateWalletErrorUnknown),
                ),
                StoreEvent::Failed(f) => (
                    StoreStage::Cleaning(fault_result(f, false)),
                    StoreAction::RemoveTemp,
                ),
            },
            StoreStage::Linking => match event {
                StoreEvent::Done => (
                    StoreStage::Cleaning(CreateWalletResult::CreateWalletSuccess),
                    StoreAction::RemoveTemp,
                ),
                StoreEvent::Failed(f) => (
                    StoreStage::Cleaning(fault_result(f, true)),
                    StoreAction::RemoveTemp,
                ),
            },
            StoreStage::Cleaning(res) => (StoreStage::Finished(res), StoreAction::Finish(res)),
            StoreStage::Finished(res) => (StoreStage::Finished(res), StoreAction::Finish(res)),
        }
    }
}

/// One wallet creation in progress: the paths it works on, the secret it
/// stores and its stage. The secret is wiped as soon as the write is over.
pub struct CreateSession {
    pub record_path: String,
    pub temp_path: String,
    pub secret: [u8; 32],
    pub stage: StoreStage,
}

pub open spec fn zeros32() -> Seq<u8> {
    Seq::new(32, |i: int| 0u8)
}

impl CreateSession {
    /// A creation of the secret file of `config_dir`, and its first action.
    /// `token` names its temporary file: the caller gives each creation a
    /// token of its own.
    pub fn new(config_dir: &str, token: &str, secret: [u8; 32]) -> (r: (CreateSession, StoreAction))
        ensures
            r.0.record_path@ == record_path_of(config_dir@),
            r.0.temp_path@ == temp_path_of(config_dir@, token@),
            r.0.secret@ == secret@,
            r.0.stage == StoreStage::Writing,
            r.1 == StoreAction::WriteTemp,
    {
        let (stage, action) = StoreStage::start();
        let session = CreateSession {
            record_path: hsm_secret_path(config_dir),
            temp_path: hsm_secret_temp_path(config_dir, token),
            secret,
            stage,
        };
        (session, action)
    }

    /// Takes what the last action reported, moves to the next stage and
    /// returns the next action. Once the write is over the secret is
    /// overwritten with zeros.
    pub fn advance(&mut self, event: StoreEvent) -> (a: StoreAction)
        ensures
            (final(self).stage, a) == step_spec(old(self).stage, event),
            final(self).record_path == old(self).record_path,
            final(self).temp_path == old(self).temp_path,
            final(self).stage is Writing ==> final(self).secret@ == old(self).secret@,
            !(final(self).stage is Writing) ==> final(self).secret@ == zeros32(),
    {
        let (stage, action) = self.stage.step(event);
        self.stage = stage;
        let ghost record_path = self.record_path;
        let ghost temp_path = self.temp_path;
        if !matches!(stage, StoreStage::Writing) {
            for i in 0..32
                invariant
                    self.stage == stage,
                    self.record_path == record_path,
                    self.temp_path == temp_path,
                    self.secret@.len() == 32,
                    forall|j: int| 0 <= j < i ==> self.secret@[j] == 0u8,
            {
                self.secret[i] = 0;
            }
            assert(self.secret@ =~= zeros32());
        }
        action
    }
}

/// A directory as the protocol sees it: the record, absent or holding bytes,
/// and the temporary files, by the token of the creation that names them.
pub struct DirModel {
    pub record: Option<Seq<u8>>,
    pub temps: Map<Seq<char>, Seq<u8>>,
}

/// An action of the creation that bears `token`, performed on a directory,
/// and what it reports. Creating a temporary file and linking the record are
/// each an atomic create-if-absent.
pub open spec fn perform(d: DirModel, a: StoreAction, token: Seq<char>, secret: Seq<u8>) -> (DirModel, StoreEvent) {
    match a {
        StoreAction::WriteTemp => if d.temps.contains_key(token) {
            (d, StoreEvent::Failed(IoFault::AlreadyExists))
        } else {
            (DirModel { record: d.record, temps: d.temps.insert(token, secret) }, StoreEvent::Done)
        },
        StoreAction::LinkRecord => if d.record is Some {
            (d, StoreEvent::Failed(IoFault::AlreadyExists))
        } else if d.temps.contains_key(token) {
            (DirModel { record: Some(d.temps[token]), temps: d.temps }, StoreEvent::Done)
        } else {
            (d, StoreEvent::Failed(IoFault::Other))
        },
        StoreAction::RemoveTemp => (DirModel { record: d.record, temps: d.temps.remove(token) }, StoreEvent::Done),
        StoreAction::Finish(_) => (d, StoreEvent::Done),
    }
}

/// The directory and stage after at most `fuel` actions from `stage`, whose
/// pending action is `action`.
pub open spec fn run(
    d: DirModel,
    stage: StoreStage,
    action: StoreAction,
    token: Seq<char>,
    secret: Seq<u8>,
    fuel: nat,
) -> (DirModel, StoreStage)
    decreases fuel,
{
    if fuel == 0 || stage is Finished {
        (d, stage)
    } else {
        let (d2, event) = perform(d, action, token, secret);
        let (stage2, action2) = step_spec(stage, event);
        run(d2, stage2, action2, token, secret, (fuel - 1) as nat)
    }
}

/// One whole creation of `secret` in a directory, by the creation that bears
/// `token`.
pub open spec fn create_in(d: DirModel, token: Seq<char>, secret: Seq<u8>) -> (DirModel, StoreStage) {
    run(d, StoreStage::Writing, StoreAction::WriteTemp, token, secret, 3)
}

/// Creations of each (token, secret) in turn, one after another, and the
/// stage each one ended in.
pub open spec fn create_all(d: DirModel, sessions: Seq<(Seq<char>, Seq<u8>)>) -> (DirModel, Seq<StoreStage>)
    decreases sessions.len(),
{
    if sessions.len() == 0 {
        (d, Seq::empty())
    } else {
        let (d1, stages) = create_all(d, sessions.drop_last());
        let (d2, stage) = create_in(d1, sessions.last().0, sessions.last().1);
        (d2, stages.push(stage))
    }
}

/// A creation whose token names no temporary file: in a directory with no
/// record it succeeds and leaves the secret as the record; in a directory
/// with a record it reports that the record exists and leaves it as it was.
/// Either way the temporary files are as they were before.
pub proof fn lemma_create_in(d: DirModel, token: Seq<char>, secret: Seq<u8>)
    requires
        !d.temps.contains_key(token),
    ensures
        d.record is None ==> create_in(d, token, secret).1 == StoreStage::Finished(
            CreateWalletResult::CreateWalletSuccess,
        ),
        d.record is None ==> create_in(d, token, secret).0.record == Some(secret),
        d.record is Some ==> create_in(d, token, secret).1 == StoreStage::Finished(
            CreateWalletResult::CreateWalletErrorAlreadyExists,
        ),
        d.record is Some ==> create_in(d, token, secret).0.record == d.record,
        create_in(d, token, secret).0.temps == d.temps,
{
    reveal_with_fuel(run, 4);
    assert(d.temps.insert(token, secret).remove(token) =~= d.temps);
}

/// A creation whose token already names a temporary file changes nothing in
/// the directory: neither the record nor that file, which is not its own.
pub proof fn lemma_create_token_taken(d: DirModel, token: Seq<char>, secret: Seq<u8>)
    requires
        d.temps.contains_key(token),
    ensures
        create_in(d, token, secret).1 == StoreStage::Finished(
            CreateWalletResult::CreateWalletErrorUnknown,
        ),
        create_in(d, token, secret).0 == d,
{
    reveal_with_fuel(run, 4);
}

/// The first creation in a fresh directory succeeds and stores its secret;
/// a second one, of any secret, reports that the record exists and leaves
/// the first secret in place.
pub proof fn lemma_create_once(d: DirModel, first: (Seq<char>, Seq<u8>), second: (Seq<char>, Seq<u8>))
    requires
        d.record is None,
        !d.temps.contains_key(first.0),
        !d.temps.contains_key(second.0),
    ensures
        create_in(d, first.0, first.1).1 == StoreStage::Finished(CreateWalletResult::CreateWalletSuccess),
        create_in(d, first.0, first.1).0.record == Some(first.1),
        create_in(create_in(d, first.0, first.1).0, second.0, second.1).1 == StoreStage::Finished(
            CreateWalletResult::CreateWalletErrorAlreadyExists,
        ),
        create_in(create_in(d, first.0, first.1).0, second.0, second.1).0.record == Some(first.1),
{
    lemma_create_in(d, first.0, first.1);
    lemma_create_in(create_in(d, first.0, first.1).0, second.0, second.1);
}

/// Of `n` creations in a fresh directory, one after another, each with a
/// token that names no temporary file there, exactly the first succeeds,
/// every other reports that the record exists, the record holds the first
/// one's secret, and no temporary file is left behind.
pub proof fn lemma_serialized_creates(d: DirModel, sessions: Seq<(Seq<char>, Seq<u8>)>)
    requires
        d.record is None,
        sessions.len() >= 1,
        forall|i: int| 0 <= i < sessions.len() ==> !d.temps.contains_key(#[trigger] sessions[i].0),
    ensures
        create_all(d, sessions).1.len() == sessions.len(),
        create_all(d, sessions).1[0] == StoreStage::Finished(CreateWalletResult::CreateWalletSuccess),
        forall|i: int|
            1 <= i < sessions.len() ==> #[trigger] create_all(d, sessions).1[i] == StoreStage::Finished(
                CreateWalletResult::CreateWalletErrorAlreadyExists,
            ),
        create_all(d, sessions).0.record == Some(sessions[0].1),
        create_all(d, sessions).0.temps == d.temps,
    decreases sessions.len(),
{
    let prefix = sessions.drop_last();
    let last = sessions.last();
    assert(last == sessions[sessions.len() - 1]);
    if sessions.len() == 1 {
        assert(prefix.len() == 0);
        lemma_create_in(d, last.0, last.1);
    } else {
        assert forall|i: int| 0 <= i < prefix.len() implies !d.temps.contains_key(
            #[trigger] prefix[i].0,
        ) by {
            assert(prefix[i] == sessions[i]);
        }
        lemma_serialized_creates(d, prefix);
        let (d1, stages) = create_all(d, prefix);
        lemma_create_in(d1, last.0, last.1);
        assert(prefix[0] == sessions[0]);
        let all = create_all(d, sessions).1;
        assert(all == stages.push(create_in(d1, last.0, last.1).1));
        assert forall|i: int| 1 <= i < sessions.len() implies #[trigger] all[i] == StoreStage::Finished(
            CreateWalletResult::CreateWalletErrorAlreadyExists,
        ) by {
            if i < prefix.len() {
                assert(all[i] == stages[i]);
            }
        }
    }
}

/// A creation interrupted before its link leaves no record, whatever it left
/// in its temporary file; and a later creation, with a token that names no
/// temporary file, still succeeds and stores its own secret.
pub proof fn lemma_interrupted_create(
    d: DirModel,
    token: Seq<char>,
    secret: Seq<u8>,
    steps: nat,
    partial: Seq<u8>,
    retry_token: Seq<char>,
    retry: Seq<u8>,
)
    requires
        d.record is None,
        steps <= 1,
        retry_token != token,
        !d.temps.contains_key(retry_token),
    ensures
        run(d, StoreStage::Writing, StoreAction::WriteTemp, token, secret, steps).0.record is None,
        create_in(DirModel { record: d.record, temps: d.temps.insert(token, partial) }, retry_token, retry).1
            == StoreStage::Finished(CreateWalletResult::CreateWalletSuccess),
        create_in(DirModel { record: d.record, temps: d.temps.insert(token, partial) }, retry_token, retry).0.record
            == Some(retry),
{
    reveal_with_fuel(run, 2);
    lemma_create_in(DirModel { record: d.record, temps: d.temps.insert(token, partial) }, retry_token, retry);
}

} // verus!
