use vstd::prelude::*;

use crate::contract_id::{extract_contract_id, first_id};
use crate::error::LavaErrors;
use crate::keys::{
    bitcoin_address_spec, create_a_new_mnemonic, derive_identity, is_phrase, mnemonic_seed_of,
    solana_pubkey_spec, MNEMONIC_WORDS,
};
use crate::state::{verdict_of, verify_contract_state, JsonValue, StateVerdict};

verus! {

/// Seconds to let both funding transfers settle before the loan is opened.
pub const FUNDING_SETTLE_SECS: u64 = 20;

/// Seconds to let an opened loan settle before it is repaid.
pub const LOAN_SETTLE_SECS: u64 = 10;

/// Seconds to let a repayment settle before the contract state is fetched.
pub const REPAY_SETTLE_SECS: u64 = 10;

/// Where a lifecycle run stands.
pub enum Stage {
    /// Both identities are derived; funding of both has been asked for.
    Funding,
    /// The loan tool has been asked to open a loan.
    LoanOpenPending,
    /// The loan is open under `contract_id`; the tool has been asked to repay it.
    RepayPending { contract_id: String },
    /// The loan is repaid; the tool has been asked to write the contract state.
    StateFetchPending { contract_id: String },
    /// The state document was read; `verdict` says whether it confirms repayment.
    Verified { contract_id: String, verdict: StateVerdict },
    /// The run stopped on `reason`.
    Failed { reason: LavaErrors },
}

/// What the driver of a run must do next.
pub enum Action {
    /// Ask the two faucets to fund these addresses.
    Fund { bitcoin_address: String, solana_pubkey: String },
    /// After waiting `settle_secs`, run the loan tool to open a loan.
    OpenLoan { settle_secs: u64 },
    /// After waiting `settle_secs`, run the loan tool to repay the contract.
    Repay { contract_id: String, settle_secs: u64 },
    /// After waiting `settle_secs`, run the loan tool to write the contract
    /// state file, then read and parse it.
    FetchState { contract_id: String, settle_secs: u64 },
    /// Nothing: the run is over.
    Finish,
}

/// What the driver observed when it performed the last action.
pub enum Event {
    /// Both faucets answered.
    Funded,
    /// A faucet call failed; `bitcoin` tells which of the two.
    FundingFailed { bitcoin: bool },
    /// The loan tool ran; `output` is what it printed.
    ToolFinished { output: Vec<u8> },
    /// The loan tool could not be run.
    ToolFailed,
    /// The contract state file was read and parsed.
    StateRead { doc: JsonValue },
    /// The contract state file could not be read.
    StateUnreadable,
    /// The contract state file is not JSON.
    StateUnparsable,
}

/// One run: the mnemonic that both identities come from, and its stage.
pub struct LoanRun {
    pub mnemonic: String,
    pub stage: Stage,
}

/// The run's move from `stage` on `event` to `next`, with `action` to perform.
pub open spec fn transition(stage: Stage, event: Event, next: Stage, action: Action) -> bool {
    match (stage, event) {
        (Stage::Funding, Event::Funded) => next == Stage::LoanOpenPending && action == (Action::OpenLoan {
            settle_secs: FUNDING_SETTLE_SECS,
        }),
        (Stage::Funding, Event::FundingFailed { bitcoin }) => next == (Stage::Failed {
            reason: if bitcoin {
                LavaErrors::FailedToUpdateBtcBalance
            } else {
                LavaErrors::FailedToUpdateSolBalance
            },
        }) && action == Action::Finish,
        (Stage::LoanOpenPending, Event::ToolFinished { output }) => match first_id(output@) {
            None => next == (Stage::Failed { reason: LavaErrors::NoContractID })
                && action == Action::Finish,
            Some(id) => (next matches Stage::RepayPending { contract_id } && contract_id@ == id
                && action == (Action::Repay { contract_id, settle_secs: LOAN_SETTLE_SECS })),
        },
        (Stage::RepayPending { contract_id }, Event::ToolFinished { .. }) => next == (
        Stage::StateFetchPending { contract_id }) && action == (Action::FetchState {
            contract_id,
            settle_secs: REPAY_SETTLE_SECS,
        }),
        (Stage::LoanOpenPending, Event::ToolFailed) | (Stage::RepayPending { .. }, Event::ToolFailed)
        | (Stage::StateFetchPending { .. }, Event::ToolFailed) => next == (Stage::Failed {
            reason: LavaErrors::SubprocessFailure,
        }) && action == Action::Finish,
        (Stage::StateFetchPending { contract_id }, Event::StateRead { doc }) => next == (
        Stage::Verified { contract_id, verdict: verdict_of(doc) }) && action == Action::Finish,
        (Stage::StateFetchPending { .. }, Event::StateUnreadable) => next == (Stage::Failed {
            reason: LavaErrors::StateFileUnreadable,
        }) && action == Action::Finish,
        (Stage::StateFetchPending { .. }, Event::StateUnparsable) => next == (Stage::Failed {
            reason: LavaErrors::StateParseFailure,
        }) && action == Action::Finish,
        _ => next == stage && action == Action::Finish,
    }
}

/// How a run that starts from `mnemonic` begins.
pub open spec fn started(mnemonic: Seq<char>, stage: Stage, action: Action) -> bool {
    match (bitcoin_address_spec(mnemonic), solana_pubkey_spec(mnemonic)) {
        (Ok(btc), Ok(sol)) => stage == Stage::Funding && (action matches Action::Fund {
            bitcoin_address,
            solana_pubkey,
        } && bitcoin_address@ == btc && solana_pubkey@ == sol),
        (_, Err(e)) => stage == (Stage::Failed { reason: e }) && action == Action::Finish,
        (Err(e), Ok(_)) => stage == (Stage::Failed { reason: e }) && action == Action::Finish,
    }
}

impl LoanRun {
    /// Begins a run on a given mnemonic: derives both identities and asks for
    /// them to be funded, or stops on the first derivation error.
    pub fn start_with(mnemonic: String) -> (r: (LoanRun, Action))
        ensures
            r.0.mnemonic == mnemonic,
            started(mnemonic@, r.0.stage, r.1),
    {
        match derive_identity(mnemonic.as_str()) {
            Ok(id) => {
                let action = Action::Fund {
                    bitcoin_address: id.bitcoin_address,
                    solana_pubkey: id.solana_pubkey,
                };
                (LoanRun { mnemonic, stage: Stage::Funding }, action)
            },
            Err(e) => (LoanRun { mnemonic, stage: Stage::Failed { reason: e } }, Action::Finish),
        }
    }

    /// Begins a run on a fresh mnemonic; `GenerationFailure` where none could
    /// be generated.
    pub fn start() -> (r: Result<(LoanRun, Action), LavaErrors>)
        ensures
            r matches Err(e) ==> e == LavaErrors::GenerationFailure,
            r matches Ok(p) ==> started(p.0.mnemonic@, p.0.stage, p.1) && is_phrase(
                p.0.mnemonic@,
                MNEMONIC_WORDS as nat,
            ) && forall|q: Seq<char>| #[trigger] mnemonic_seed_of(p.0.mnemonic@, q) is Some,
    {
        match create_a_new_mnemonic() {
            Ok(m) => Ok(LoanRun::start_with(m)),
            Err(e) => Err(e),
        }
    }

    /// Takes the run one step on what the driver observed.
    pub fn step(&mut self, event: Event) -> (action: Action)
        ensures
            final(self).mnemonic == old(self).mnemonic,
            transition(old(self).stage, event, final(self).stage, action),
    {
        let mut stage = Stage::Failed { reason: LavaErrors::SubprocessFailure };
        core::mem::swap(&mut stage, &mut self.stage);
        let (next, action) = next_step(stage, event);
        self.stage = next;
        action
    }

    /// Whether the run is over.
    pub fn is_finished(&self) -> (r: bool)
        ensures
            r == (self.stage is Verified || self.stage is Failed),
    {
        match self.stage {
            Stage::Verified { .. } | Stage::Failed { .. } => true,
            _ => false,
        }
    }
}

fn next_step(stage: Stage, event: Event) -> (r: (Stage, Action))
    ensures
        transition(stage, event, r.0, r.1),
{
    match (stage, event) {
        (Stage::Funding, Event::Funded) => (
            Stage::LoanOpenPending,
            Action::OpenLoan { settle_secs: FUNDING_SETTLE_SECS },
        ),
        (Stage::Funding, Event::FundingFailed { bitcoin }) => {
            let reason = if bitcoin {
                LavaErrors::FailedToUpdateBtcBalance
            } else {
                LavaErrors::FailedToUpdateSolBalance
            };
            (Stage::Failed { reason }, Action::Finish)
        },
        (Stage::LoanOpenPending, Event::ToolFinished { output }) => {
            match extract_contract_id(output.as_slice()) {
                None => (Stage::Failed { reason: LavaErrors::NoContractID }, Action::Finish),
                Some(id) => {
                    let action = Action::Repay { contract_id: id.clone(), settle_secs: LOAN_SETTLE_SECS };
                    (Stage::RepayPending { contract_id: id }, action)
                },
            }
        },
        (Stage::RepayPending { contract_id }, Event::ToolFinished { .. }) => {
            let action = Action::FetchState {
                contract_id: contract_id.clone(),
                settle_secs: REPAY_SETTLE_SECS,
            };
            (Stage::StateFetchPending { contract_id }, action)
        },
        (Stage::LoanOpenPending, Event::ToolFailed) => (
            Stage::Failed { reason: LavaErrors::SubprocessFailure },
            Action::Finish,
        ),
        (Stage::RepayPending { .. }, Event::ToolFailed) => (
            Stage::Failed { reason: LavaErrors::SubprocessFailure },
            Action::Finish,
        ),
        (Stage::StateFetchPending { .. }, Event::ToolFailed) => (
            Stage::Failed { reason: LavaErrors::SubprocessFailure },
            Action::Finish,
        ),
        (Stage::StateFetchPending { contract_id }, Event::StateRead { doc }) => {
            let verdict = verify_contract_state(&doc);
            (Stage::Verified { contract_id, verdict }, Action::Finish)
        },
        (Stage::StateFetchPending { .. }, Event::StateUnreadable) => (
            Stage::Failed { reason: LavaErrors::StateFileUnreadable },
            Action::Finish,
        ),
        (Stage::StateFetchPending { .. }, Event::StateUnparsable) => (
            Stage::Failed { reason: LavaErrors::StateParseFailure },
            Action::Finish,
        ),
        (stage, _) => (stage, Action::Finish),
    }
}

/// Where the loan tool's output holds no contract identifier, the run fails
/// with `NoContractID` and the tool is not asked to repay.
pub proof fn missing_contract_id_stops_the_run(output: Vec<u8>, next: Stage, action: Action)
    requires
        forall|i: int| !crate::contract_id::id_at(output@, i),
        transition(Stage::LoanOpenPending, Event::ToolFinished { output }, next, action),
    ensures
        next == (Stage::Failed { reason: LavaErrors::NoContractID }),
        !(action is Repay),
        action == Action::Finish,
{
}

/// Where the loan tool's output holds an identifier, the run asks to repay
/// exactly that contract.
pub proof fn found_contract_id_is_repaid(output: Vec<u8>, next: Stage, action: Action)
    requires
        exists|i: int| crate::contract_id::id_at(output@, i),
        transition(Stage::LoanOpenPending, Event::ToolFinished { output }, next, action),
    ensures
        action matches Action::Repay { contract_id, .. } && Some(contract_id@) == first_id(output@),
{
}

/// A state document that does not confirm repayment still ends in the
/// `Verified` stage, whose verdict records that; the stage is not `Failed`.
pub proof fn unconfirmed_state_is_advisory(contract_id: String, doc: JsonValue, next: Stage, action: Action)
    requires
        transition(Stage::StateFetchPending { contract_id }, Event::StateRead { doc }, next, action),
    ensures
        next matches Stage::Verified { verdict, .. } && verdict == verdict_of(doc),
        !(next is Failed),
        action == Action::Finish,
{
}

pub open spec fn views(v: Seq<String>) -> Seq<Seq<char>> {
    v.map_values(|s: String| s@)
}

/// The program path of the loan tool under its install directory.
pub fn loan_tool_path(cli_path: &String) -> (r: String)
    ensures
        r@ == cli_path@ + "./loans-borrower-cli"@,
{
    cli_path.clone().concat("./loans-borrower-cli")
}

/// The name of the file that the tool writes the state of `contract_id` to.
pub fn state_file_name(contract_id: &String) -> (r: String)
    ensures
        r@ == contract_id@ + ".json"@,
{
    contract_id.clone().concat(".json")
}

/// The loan tool's arguments that open a loan: 50% loan-to-value, 4 days, an
/// amount of 2 in the Solana test dollar asset.
pub fn open_loan_args() -> (r: Vec<String>)
    ensures
        views(r@) == seq![
            "--testnet"@, "--disable-backup-contracts"@, "borrow"@, "init"@,
            "--loan-capital-asset"@, "solana-lava-usd"@, "--ltv-ratio-bp"@, "5000"@,
            "--loan-duration-days"@, "4"@, "--loan-amount"@, "2"@, "--finalize"@,
        ],
{
    let r = vec![
        String::from_str("--testnet"),
        String::from_str("--disable-backup-contracts"),
        String::from_str("borrow"),
        String::from_str("init"),
        String::from_str("--loan-capital-asset"),
        String::from_str("solana-lava-usd"),
        String::from_str("--ltv-ratio-bp"),
        String::from_str("5000"),
        String::from_str("--loan-duration-days"),
        String::from_str("4"),
        String::from_str("--loan-amount"),
        String::from_str("2"),
        String::from_str("--finalize"),
    ];
    assert(views(r@) =~= seq![
        "--testnet"@, "--disable-backup-contracts"@, "borrow"@, "init"@,
        "--loan-capital-asset"@, "solana-lava-usd"@, "--ltv-ratio-bp"@, "5000"@,
        "--loan-duration-days"@, "4"@, "--loan-amount"@, "2"@, "--finalize"@,
    ]);
    r
}

/// The loan tool's arguments that repay `contract_id`.
pub fn repay_args(contract_id: &String) -> (r: Vec<String>)
    ensures
        views(r@) == seq![
            "--testnet"@, "--disable-backup-contracts"@, "borrow"@, "repay"@, "--contract-id"@,
            contract_id@,
        ],
{
    let r = vec![
        String::from_str("--testnet"),
        String::from_str("--disable-backup-contracts"),
        String::from_str("borrow"),
        String::from_str("repay"),
        String::from_str("--contract-id"),
        contract_id.clone(),
    ];
    assert(views(r@) =~= seq![
        "--testnet"@, "--disable-backup-contracts"@, "borrow"@, "repay"@, "--contract-id"@,
        contract_id@,
    ]);
    r
}

/// The loan tool's arguments that write the state of `contract_id` to
/// `<contract_id>.json`.
pub fn fetch_state_args(contract_id: &String) -> (r: Vec<String>)
    ensures
        views(r@) == seq![
            "--testnet"@, "--disable-backup-contracts"@, "get-contract"@, "--contract-id"@,
            contract_id@, "--verbose"@, "--output-file"@, contract_id@ + ".json"@,
        ],
{
    let r = vec![
        String::from_str("--testnet"),
        String::from_str("--disable-backup-contracts"),
        String::from_str("get-contract"),
        String::from_str("--contract-id"),
        contract_id.clone(),
        String::from_str("--verbose"),
        String::from_str("--output-file"),
        state_file_name(contract_id),
    ];
    assert(views(r@) =~= seq![
        "--testnet"@, "--disable-backup-contracts"@, "get-contract"@, "--contract-id"@,
        contract_id@, "--verbose"@, "--output-file"@, contract_id@ + ".json"@,
    ]);
    r
}

} // verus!
