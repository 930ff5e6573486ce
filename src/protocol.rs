//! Requests, responses and result codes of the node manager service.
use vstd::prelude::*;

verus! {

/// Requested length of a generated mnemonic.
#[derive(Clone, Copy, Debug, PartialEq, Eq, Structural)]
pub enum GenSeedLength {
    GenSeed12Words,
    GenSeed15Words,
    GenSeed18Words,
    GenSeed21Words,
    GenSeed24Words,
}

impl GenSeedLength {
    /// Wire code of each length.
    pub open spec fn spec_code(self) -> i32 {
        match self {
            GenSeedLength::GenSeed12Words => 0,
            GenSeedLength::GenSeed15Words => 1,
            GenSeedLength::GenSeed18Words => 2,
            GenSeedLength::GenSeed21Words => 3,
            GenSeedLength::GenSeed24Words => 4,
        }
    }

    /// Number of words of a phrase of this length.
    pub open spec fn spec_word_count(self) -> nat {
        match self {
            GenSeedLength::GenSeed12Words => 12,
            GenSeedLength::GenSeed15Words => 15,
            GenSeedLength::GenSeed18Words => 18,
            GenSeedLength::GenSeed21Words => 21,
            GenSeedLength::GenSeed24Words => 24,
        }
    }

    /// Bits of entropy that a phrase of this length encodes.
    pub open spec fn spec_entropy_bits(self) -> nat {
        match self {
            GenSeedLength::GenSeed12Words => 128,
            GenSeedLength::GenSeed15Words => 160,
            GenSeedLength::GenSeed18Words => 192,
            GenSeedLength::GenSeed21Words => 224,
            GenSeedLength::GenSeed24Words => 256,
        }
    }

    /// The length with the given wire code.
    pub open spec fn from_spec_code(code: i32) -> Option<GenSeedLength> {
        if code == 0 {
            Some(GenSeedLength::GenSeed12Words)
        } else if code == 1 {
            Some(GenSeedLength::GenSeed15Words)
        } else if code == 2 {
            Some(GenSeedLength::GenSeed18Words)
        } else if code == 3 {
            Some(GenSeedLength::GenSeed21Words)
        } else if code == 4 {
            Some(GenSeedLength::GenSeed24Words)
        } else {
            None
        }
    }

    pub fn code(&self) -> (r: i32)
        ensures
            r == self.spec_code(),
    {
        match self {
            GenSeedLength::GenSeed12Words => 0,
            GenSeedLength::GenSeed15Words => 1,
            GenSeedLength::GenSeed18Words => 2,
            GenSeedLength::GenSeed21Words => 3,
            GenSeedLength::GenSeed24Words => 4,
        }
    }

    /// The length with the given wire code; `None` for a code out of range.
    pub fn from_i32(code: i32) -> (r: Option<GenSeedLength>)
        ensures
            r == GenSeedLength::from_spec_code(code),
            r is Some <==> 0 <= code <= 4,
            r is Some ==> r->Some_0.spec_code() == code,
    {
        if code == 0 {
            Some(GenSeedLength::GenSeed12Words)
        } else if code == 1 {
            Some(GenSeedLength::GenSeed15Words)
        } else if code == 2 {
            Some(GenSeedLength::GenSeed18Words)
        } else if code == 3 {
            Some(GenSeedLength::GenSeed21Words)
        } else if code == 4 {
            Some(GenSeedLength::GenSeed24Words)
        } else {
            None
        }
    }

    /// The length of a phrase of `n` words, if `n` is a supported count.
    pub fn from_word_count(n: usize) -> (r: Option<GenSeedLength>)
        ensures
            r is Some <==> (n == 12 || n == 15 || n == 18 || n == 21 || n == 24),
            r is Some ==> r->Some_0.spec_word_count() == n,
    {
        if n == 12 {
            Some(GenSeedLength::GenSeed12Words)
        } else if n == 15 {
            Some(GenSeedLength::GenSeed15Words)
        } else if n == 18 {
            Some(GenSeedLength::GenSeed18Words)
        } else if n == 21 {
            Some(GenSeedLength::GenSeed21Words)
        } else if n == 24 {
            Some(GenSeedLength::GenSeed24Words)
        } else {
            None
        }
    }

    pub fn word_count(&self) -> (r: usize)
        ensures
            r == self.spec_word_count(),
    {
        match self {
            GenSeedLength::GenSeed12Words => 12,
            GenSeedLength::GenSeed15Words => 15,
            GenSeedLength::GenSeed18Words => 18,
            GenSeedLength::GenSeed21Words => 21,
            GenSeedLength::GenSeed24Words => 24,
        }
    }

    /// Bytes of entropy drawn for a phrase of this length.
    pub fn entropy_bytes(&self) -> (r: usize)
        ensures
            r * 8 == self.spec_entropy_bits(),
            r * 3 == self.spec_word_count() * 4,
    {
        let bits: usize = match self {
            GenSeedLength::GenSeed12Words => 128,
            GenSeedLength::GenSeed15Words => 160,
            GenSeedLength::GenSeed18Words => 192,
            GenSeedLength::GenSeed21Words => 224,
            GenSeedLength::GenSeed24Words => 256,
        };
        bits / 8
    }
}

/// Outcome of a wallet creation.
#[derive(Clone, Copy, Debug, PartialEq, Eq, Structural)]
pub enum CreateWalletResult {
    CreateWalletSuccess,
    CreateWalletErrorAlreadyExists,
    CreateWalletErrorPermissionDenied,
    CreateWalletErrorUnknown,
    CreateWalletErrorInvalidMnemonic,
}

impl CreateWalletResult {
    pub open spec fn spec_code(self) -> i32 {
        match self {
            CreateWalletResult::CreateWalletSuccess => 0,
            CreateWalletResult::CreateWalletErrorAlreadyExists => 1,
            CreateWalletResult::CreateWalletErrorPermissionDenied => 2,
            CreateWalletResult::CreateWalletErrorUnknown => 3,
            CreateWalletResult::CreateWalletErrorInvalidMnemonic => 4,
        }
    }

    pub fn code(&self) -> (r: i32)
        ensures
            r == self.spec_code(),
    {
        match self {
            CreateWalletResult::CreateWalletSuccess => 0,
            CreateWalletResult::CreateWalletErrorAlreadyExists => 1,
            CreateWalletResult::CreateWalletErrorPermissionDenied => 2,
            CreateWalletResult::CreateWalletErrorUnknown => 3,
            CreateWalletResult::CreateWalletErrorInvalidMnemonic => 4,
        }
    }

    /// The result with the given wire code; `None` for a code out of range.
    pub fn from_i32(code: i32) -> (r: Option<CreateWalletResult>)
        ensures
            r is Some <==> 0 <= code <= 4,
            r is Some ==> r->Some_0.spec_code() == code,
    {
        if code == 0 {
            Some(CreateWalletResult::CreateWalletSuccess)
        } else if code == 1 {
            Some(CreateWalletResult::CreateWalletErrorAlreadyExists)
        } else if code == 2 {
            Some(CreateWalletResult::CreateWalletErrorPermissionDenied)
        } else if code == 3 {
            Some(CreateWalletResult::CreateWalletErrorUnknown)
        } else if code == 4 {
            Some(CreateWalletResult::CreateWalletErrorInvalidMnemonic)
        } else {
            None
        }
    }
}

/// Outcome of a daemon start.
#[derive(Clone, Copy, Debug, PartialEq, Eq, Structural)]
pub enum StartDaemonResult {
    StartDaemonSuccess,
    StartDaemonErrorAlreadyRunning,
    StartDaemonErrorUnknown,
}

impl StartDaemonResult {
    pub open spec fn spec_code(self) -> i32 {
        match self {
            StartDaemonResult::StartDaemonSuccess => 0,
            StartDaemonResult::StartDaemonErrorAlreadyRunning => 1,
            StartDaemonResult::StartDaemonErrorUnknown => 2,
        }
    }

    pub fn code(&self) -> (r: i32)
        ensures
            r == self.spec_code(),
    {
        match self {
            StartDaemonResult::StartDaemonSuccess => 0,
            StartDaemonResult::StartDaemonErrorAlreadyRunning => 1,
            StartDaemonResult::StartDaemonErrorUnknown => 2,
        }
    }

    /// The result with the given wire code; `None` for a code out of range.
    pub fn from_i32(code: i32) -> (r: Option<StartDaemonResult>)
        ensures
            r is Some <==> 0 <= code <= 2,
            r is Some ==> r->Some_0.spec_code() == code,
    {
        if code == 0 {
            Some(StartDaemonResult::StartDaemonSuccess)
        } else if code == 1 {
            Some(StartDaemonResult::StartDaemonErrorAlreadyRunning)
        } else if code == 2 {
            Some(StartDaemonResult::StartDaemonErrorUnknown)
        } else {
            None
        }
    }
}

/// Failure of a call as a whole, as opposed to a result code in its response.
#[derive(Clone, Copy, Debug, PartialEq, Eq, Structural)]
pub enum RpcStatus {
    /// A field of the request holds a value out of its range.
    InvalidArgument,
    /// The operation is not offered.
    Unimplemented,
    /// The service could not do its part (no secure entropy, for one).
    Internal,
}

pub struct GenSeedRequest {
    pub length: i32,
}

pub struct GenSeedResponse {
    pub bip39: Vec<String>,
}

pub struct CreateWalletRequest {
    pub bip39: Vec<String>,
    pub passphrase: String,
}

pub struct CreateWalletResponse {
    pub result: i32,
}

pub struct StartDaemonRequest {
    pub args: Vec<String>,
}

pub struct StartDaemonResponse {
    pub result: i32,
}

pub struct DeleteWalletRequest {}

pub struct DeleteWalletResponse {
    pub result: i32,
}

impl CreateWalletResponse {
    pub fn from_result(result: CreateWalletResult) -> (r: CreateWalletResponse)
        ensures
            r.result == result.spec_code(),
    {
        CreateWalletResponse { result: result.code() }
    }
}

impl StartDaemonResponse {
    pub fn from_result(result: StartDaemonResult) -> (r: StartDaemonResponse)
        ensures
            r.result == result.spec_code(),
    {
        StartDaemonResponse { result: result.code() }
    }
}

} // verus!
