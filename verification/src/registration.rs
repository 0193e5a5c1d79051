//! Program registration rules: the validation the escrow contract
//! applies before it registers a program or a batch of programs.  The
//! host performs the storage reads, authorization and token transfers
//! around these decisions and passes in what they need: whether the
//! contract is initialized and which program identifiers are already
//! taken.

use vstd::prelude::*;

verus! {

/// The escrow contract's error codes.
#[derive(Clone, Copy, Debug, PartialEq, Eq, PartialOrd, Ord, Structural)]
pub enum Error {
    /// The contract was initialized before.
    AlreadyInitialized,
    /// The contract was never initialized.
    NotInitialized,
    /// The program identifier is already registered.
    ProgramExists,
    /// No program is registered under the identifier.
    ProgramNotFound,
    /// The caller may not perform the operation.
    Unauthorized,
    /// The batch is empty or larger than the batch limit.
    InvalidBatchSize,
    /// Two items of one batch share a program identifier.
    DuplicateProgramId,
    /// The funding amount is zero or negative.
    InvalidAmount,
    /// The program name is empty.
    InvalidName,
    /// The jurisdiction requires KYC and none was attested.
    JurisdictionKycRequired,
    /// The funding exceeds the jurisdiction's limit.
    JurisdictionFundingLimitExceeded,
    /// The jurisdiction has paused registrations.
    JurisdictionPaused,
}

/// The stable numeric code of each error, as the contract ABI reports
/// it.
pub open spec fn error_code(error: Error) -> u32 {
    match error {
        Error::AlreadyInitialized => 1,
        Error::NotInitialized => 2,
        Error::ProgramExists => 3,
        Error::ProgramNotFound => 4,
        Error::Unauthorized => 5,
        Error::InvalidBatchSize => 6,
        Error::DuplicateProgramId => 7,
        Error::InvalidAmount => 8,
        Error::InvalidName => 9,
        Error::JurisdictionKycRequired => 10,
        Error::JurisdictionFundingLimitExceeded => 11,
        Error::JurisdictionPaused => 12,
    }
}

impl Error {
    /// The error's stable numeric code.
    pub fn code(&self) -> (code: u32)
        ensures
            code == error_code(*self),
    {
        match self {
            Error::AlreadyInitialized => 1,
            Error::NotInitialized => 2,
            Error::ProgramExists => 3,
            Error::ProgramNotFound => 4,
            Error::Unauthorized => 5,
            Error::InvalidBatchSize => 6,
            Error::DuplicateProgramId => 7,
            Error::InvalidAmount => 8,
            Error::InvalidName => 9,
            Error::JurisdictionKycRequired => 10,
            Error::JurisdictionFundingLimitExceeded => 11,
            Error::JurisdictionPaused => 12,
        }
    }
}

/// Lifecycle state of a registered program.
#[derive(Clone, Copy, Debug, PartialEq, Eq, Structural)]
pub enum ProgramStatus {
    /// The program can pay out.
    Active,
    /// The program finished.
    Completed,
    /// The program was cancelled.
    Cancelled,
}

/// Storage keys under which the host persists the contract's records.
#[derive(Clone, Copy, Debug, PartialEq, Eq, Structural)]
pub enum DataKey {
    /// The contract administrator.
    Admin,
    /// The token the contract escrows.
    Token,
    /// One registered program, by identifier.
    Program(u64),
}

/// Jurisdiction controls attached to a program.
#[derive(Clone, Debug, PartialEq, Eq)]
pub struct ProgramJurisdictionConfig {
    /// Jurisdiction tag, if any.
    pub tag: Option<String>,
    /// Whether registrations must attest KYC.
    pub requires_kyc: bool,
    /// Upper bound on the program's funding, if any.
    pub max_funding: Option<i128>,
    /// Whether new registrations are paused.
    pub registration_paused: bool,
}

/// A registered program.
#[derive(Clone, Debug, PartialEq, Eq)]
pub struct Program {
    /// The account administering the program.
    pub admin: u64,
    /// The program's name, non-empty.
    pub name: String,
    /// The funding escrowed for the program, positive.
    pub total_funding: i128,
    /// Lifecycle state.
    pub status: ProgramStatus,
    /// Jurisdiction controls, if any.
    pub jurisdiction: Option<ProgramJurisdictionConfig>,
}

/// One item of a plain batch registration.
#[derive(Clone, Debug, PartialEq, Eq)]
pub struct ProgramRegistrationItem {
    /// The identifier to register under.
    pub program_id: u64,
    /// The account administering the program.
    pub admin: u64,
    /// The program's name.
    pub name: String,
    /// The funding to escrow.
    pub total_funding: i128,
}

/// One item of a batch registration with jurisdiction controls.
#[derive(Clone, Debug, PartialEq, Eq)]
pub struct ProgramRegistrationWithJurisdictionItem {
    /// The identifier to register under.
    pub program_id: u64,
    /// The account administering the program.
    pub admin: u64,
    /// The program's name.
    pub name: String,
    /// The funding to escrow.
    pub total_funding: i128,
    /// Jurisdiction controls, if any.
    pub jurisdiction: Option<ProgramJurisdictionConfig>,
    /// Whether the registrant attested KYC.
    pub kyc_attested: Option<bool>,
}

/// Largest number of items one batch registration accepts.
pub const MAX_BATCH_SIZE: u32 = 20;

/// The outcome of validating one program's name and funding: the
/// funding must be positive and the name non-empty, checked in that
/// order.
pub open spec fn program_input_validation(name: Seq<char>, total_funding: i128) -> Result<
    (),
    Error,
> {
    if total_funding <= 0 {
        Err(Error::InvalidAmount)
    } else if name.len() == 0 {
        Err(Error::InvalidName)
    } else {
        Ok(())
    }
}

/// The outcome of checking jurisdiction rules: a paused jurisdiction
/// rejects, then the funding limit, then the KYC requirement (met
/// only by an explicit positive attestation), in that order; no
/// jurisdiction config accepts everything.
pub open spec fn jurisdiction_validation(
    jurisdiction: Option<ProgramJurisdictionConfig>,
    total_funding: i128,
    kyc_attested: Option<bool>,
) -> Result<(), Error> {
    match jurisdiction {
        None => Ok(()),
        Some(config) => {
            if config.registration_paused {
                Err(Error::JurisdictionPaused)
            } else if config.max_funding matches Some(max_funding) && total_funding > max_funding {
                Err(Error::JurisdictionFundingLimitExceeded)
            } else if config.requires_kyc && kyc_attested != Some(true) {
                Err(Error::JurisdictionKycRequired)
            } else {
                Ok(())
            }
        },
    }
}

/// Marker type of the escrow contract; it owns the registration
/// rules.
#[derive(Clone, Copy, Debug, PartialEq, Eq, Structural)]
pub struct ProgramEscrowContract;

impl ProgramEscrowContract {
    /// Validate one program's name and funding.
    pub fn validate_program_input(name: &String, total_funding: i128) -> (result: Result<
        (),
        Error,
    >)
        ensures
            result == program_input_validation(name@, total_funding),
    {
        if total_funding <= 0 {
            return Err(Error::InvalidAmount);
        }
        if name.as_str().is_empty() {
            return Err(Error::InvalidName);
        }
        Ok(())
    }

    /// Check a registration against its jurisdiction controls, if any.
    pub fn enforce_jurisdiction_rules(
        jurisdiction: &Option<ProgramJurisdictionConfig>,
        total_funding: i128,
        kyc_attested: Option<bool>,
    ) -> (result: Result<(), Error>)
        ensures
            result == jurisdiction_validation(*jurisdiction, total_funding, kyc_attested),
    {
        match jurisdiction {
            None => Ok(()),
            Some(config) => {
                if config.registration_paused {
                    return Err(Error::JurisdictionPaused);
                }
                match config.max_funding {
                    Some(max_funding) => {
                        if total_funding > max_funding {
                            return Err(Error::JurisdictionFundingLimitExceeded);
                        }
                    },
                    None => {},
                }
                let attested = match kyc_attested {
                    Some(attested) => attested,
                    None => false,
                };
                if config.requires_kyc && !attested {
                    return Err(Error::JurisdictionKycRequired);
                }
                Ok(())
            },
        }
    }

    /// Validate a single registration as the contract checks it: the
    /// contract must be initialized, the identifier free, the input
    /// well-formed and the jurisdiction rules met, in that order.
    /// The host passes whether it is initialized and whether the
    /// identifier is already registered.
    pub fn validate_registration(
        initialized: bool,
        already_registered: bool,
        name: &String,
        total_funding: i128,
        jurisdiction: &Option<ProgramJurisdictionConfig>,
        kyc_attested: Option<bool>,
    ) -> (result: Result<(), Error>)
        ensures
            result == (if !initialized {
                Err::<(), Error>(Error::NotInitialized)
            } else if already_registered {
                Err::<(), Error>(Error::ProgramExists)
            } else if program_input_validation(name@, total_funding) is Err {
                program_input_validation(name@, total_funding)
            } else {
                jurisdiction_validation(*jurisdiction, total_funding, kyc_attested)
            }),
    {
        if !initialized {
            return Err(Error::NotInitialized);
        }
        if already_registered {
            return Err(Error::ProgramExists);
        }
        match Self::validate_program_input(name, total_funding) {
            Err(e) => {
                return Err(e);
            },
            Ok(()) => {},
        }
        Self::enforce_jurisdiction_rules(jurisdiction, total_funding, kyc_attested)
    }
}

/// Whether another item of the batch uses the same program identifier
/// as item `i`.
pub open spec fn has_duplicate_id(items: Seq<ProgramRegistrationItem>, i: int) -> bool {
    exists|j: int|
        0 <= j < items.len() && j != i && items[j].program_id == items[i].program_id
}

/// The checks one batch item must pass, in the contract's order: its
/// identifier not yet registered, its input well-formed, its
/// identifier unique within the batch.
pub open spec fn batch_item_check(
    items: Seq<ProgramRegistrationItem>,
    registered: Seq<bool>,
    i: int,
) -> Result<(), Error> {
    if registered[i] {
        Err(Error::ProgramExists)
    } else {
        match program_input_validation(items[i].name@, items[i].total_funding) {
            Err(e) => Err(e),
            Ok(()) => if has_duplicate_id(items, i) {
                Err(Error::DuplicateProgramId)
            } else {
                Ok(())
            },
        }
    }
}

/// The outcome of the batch validation pass from item `i` on: the
/// first failing item's error, if any.
pub open spec fn batch_items_validation(
    items: Seq<ProgramRegistrationItem>,
    registered: Seq<bool>,
    i: int,
) -> Result<(), Error>
    decreases items.len() - i,
{
    if i < 0 || i >= items.len() {
        Ok(())
    } else {
        match batch_item_check(items, registered, i) {
            Err(e) => Err(e),
            Ok(()) => batch_items_validation(items, registered, i + 1),
        }
    }
}

/// The outcome of validating a whole batch: the size limits first,
/// then every item in order.
pub open spec fn batch_validation(
    items: Seq<ProgramRegistrationItem>,
    registered: Seq<bool>,
) -> Result<(), Error> {
    if items.len() == 0 || items.len() > MAX_BATCH_SIZE {
        Err(Error::InvalidBatchSize)
    } else {
        batch_items_validation(items, registered, 0)
    }
}

/// The all-or-nothing validation pass of a batch registration: the
/// batch must be non-empty and within the batch limit, and every item
/// must pass [`batch_item_check`]; the first violation found is
/// returned and the whole batch is rejected.  `registered` says, per
/// item, whether its identifier is already registered in storage.
pub fn validate_batch_registration(
    items: &Vec<ProgramRegistrationItem>,
    registered: &Vec<bool>,
) -> (result: Result<(), Error>)
    requires
        items@.len() == registered@.len(),
    ensures
        result == batch_validation(items@, registered@),
        result is Ok ==> 1 <= items@.len() <= MAX_BATCH_SIZE && forall|i: int|
            0 <= i < items@.len() ==> batch_item_check(items@, registered@, i) is Ok,
{
    let n: usize = items.len();
    if n == 0 || n > MAX_BATCH_SIZE as usize {
        return Err(Error::InvalidBatchSize);
    }
    let mut i: usize = 0;
    while i < n
        invariant
            n == items@.len() == registered@.len(),
            1 <= n <= MAX_BATCH_SIZE,
            i <= n,
            batch_items_validation(items@, registered@, 0) == batch_items_validation(
                items@,
                registered@,
                i as int,
            ),
            forall|l: int| 0 <= l < i ==> batch_item_check(items@, registered@, l) is Ok,
        decreases n - i,
    {
        if registered[i] {
            return Err(Error::ProgramExists);
        }
        let item = &items[i];
        match ProgramEscrowContract::validate_program_input(&item.name, item.total_funding) {
            Err(e) => {
                return Err(e);
            },
            Ok(()) => {},
        }
        let mut duplicate = false;
        let mut j: usize = 0;
        while j < n
            invariant
                n == items@.len(),
                i < n,
                j <= n,
                duplicate == exists|l: int|
                    0 <= l < j && l != i && items@[l].program_id == items@[i as int].program_id,
            decreases n - j,
        {
            if j != i && items[j].program_id == items[i].program_id {
                duplicate = true;
            }
            j = j + 1;
        }
        if duplicate {
            return Err(Error::DuplicateProgramId);
        }
        i = i + 1;
    }
    Ok(())
}


/// Whether another item of the jurisdiction batch uses the same
/// program identifier as item `i`.
pub open spec fn has_duplicate_id_with_jurisdiction(
    items: Seq<ProgramRegistrationWithJurisdictionItem>,
    i: int,
) -> bool {
    exists|j: int|
        0 <= j < items.len() && j != i && items[j].program_id == items[i].program_id
}

/// The checks one jurisdiction batch item must pass, in the
/// contract's order: its identifier not yet registered, its input
/// well-formed, its jurisdiction rules met, its identifier unique
/// within the batch.
pub open spec fn batch_item_check_with_jurisdiction(
    items: Seq<ProgramRegistrationWithJurisdictionItem>,
    registered: Seq<bool>,
    i: int,
) -> Result<(), Error> {
    if registered[i] {
        Err(Error::ProgramExists)
    } else {
        match program_input_validation(items[i].name@, items[i].total_funding) {
            Err(e) => Err(e),
            Ok(()) => {
                match jurisdiction_validation(
                    items[i].jurisdiction,
                    items[i].total_funding,
                    items[i].kyc_attested,
                ) {
                    Err(e) => Err(e),
                    Ok(()) => if has_duplicate_id_with_jurisdiction(items, i) {
                        Err(Error::DuplicateProgramId)
                    } else {
                        Ok(())
                    },
                }
            },
        }
    }
}

/// The outcome of the jurisdiction batch validation pass from item
/// `i` on: the first failing item's error, if any.
pub open spec fn batch_items_validation_with_jurisdiction(
    items: Seq<ProgramRegistrationWithJurisdictionItem>,
    registered: Seq<bool>,
    i: int,
) -> Result<(), Error>
    decreases items.len() - i,
{
    if i < 0 || i >= items.len() {
        Ok(())
    } else {
        match batch_item_check_with_jurisdiction(items, registered, i) {
            Err(e) => Err(e),
            Ok(()) => batch_items_validation_with_jurisdiction(items, registered, i + 1),
        }
    }
}

/// The outcome of validating a whole jurisdiction batch: the size
/// limits first, then every item in order.
pub open spec fn batch_validation_with_jurisdiction(
    items: Seq<ProgramRegistrationWithJurisdictionItem>,
    registered: Seq<bool>,
) -> Result<(), Error> {
    if items.len() == 0 || items.len() > MAX_BATCH_SIZE {
        Err(Error::InvalidBatchSize)
    } else {
        batch_items_validation_with_jurisdiction(items, registered, 0)
    }
}

/// The all-or-nothing validation pass of a batch registration with
/// jurisdiction controls: as [`validate_batch_registration`], with
/// each item additionally checked against its jurisdiction rules; the
/// first violation found rejects the whole batch.
pub fn validate_batch_registration_with_jurisdiction(
    items: &Vec<ProgramRegistrationWithJurisdictionItem>,
    registered: &Vec<bool>,
) -> (result: Result<(), Error>)
    requires
        items@.len() == registered@.len(),
    ensures
        result == batch_validation_with_jurisdiction(items@, registered@),
        result is Ok ==> 1 <= items@.len() <= MAX_BATCH_SIZE && forall|i: int|
            0 <= i < items@.len() ==> batch_item_check_with_jurisdiction(
                items@,
                registered@,
                i,
            ) is Ok,
{
    let n: usize = items.len();
    if n == 0 || n > MAX_BATCH_SIZE as usize {
        return Err(Error::InvalidBatchSize);
    }
    let mut i: usize = 0;
    while i < n
        invariant
            n == items@.len() == registered@.len(),
            1 <= n <= MAX_BATCH_SIZE,
            i <= n,
            batch_items_validation_with_jurisdiction(items@, registered@, 0)
                == batch_items_validation_with_jurisdiction(items@, registered@, i as int),
            forall|l: int|
                0 <= l < i ==> batch_item_check_with_jurisdiction(items@, registered@, l) is Ok,
        decreases n - i,
    {
        if registered[i] {
            return Err(Error::ProgramExists);
        }
        let item = &items[i];
        match ProgramEscrowContract::validate_program_input(&item.name, item.total_funding) {
            Err(e) => {
                return Err(e);
            },
            Ok(()) => {},
        }
        match ProgramEscrowContract::enforce_jurisdiction_rules(
            &item.jurisdiction,
            item.total_funding,
            item.kyc_attested,
        ) {
            Err(e) => {
                return Err(e);
            },
            Ok(()) => {},
        }
        let mut duplicate = false;
        let mut j: usize = 0;
        while j < n
            invariant
                n == items@.len(),
                i < n,
                j <= n,
                duplicate == exists|l: int|
                    0 <= l < j && l != i && items@[l].program_id == items@[i as int].program_id,
            decreases n - j,
        {
            if j != i && items[j].program_id == items[i].program_id {
                duplicate = true;
            }
            j = j + 1;
        }
        if duplicate {
            return Err(Error::DuplicateProgramId);
        }
        i = i + 1;
    }
    Ok(())
}

} // verus!
