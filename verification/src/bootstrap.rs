//! The bootstrap of a test chain as a state machine. The machine decides
//! what is done next; whoever drives it does it and reports what came back.
//!
//! The states of the bootstrap follow each other without a way back:
//! uninitialized ([`Phase::CreatingWallet`]), wallet created
//! ([`Phase::CreatingAccount`]), accounts created
//! ([`Phase::FetchingPrimaryAddress`], [`Phase::Generating`] the seed), seed
//! blocks generated ([`Phase::Polling`] and [`Phase::Sleeping`] after the
//! seed), then for each funded party funding ([`Phase::CheckingFunds`],
//! [`Phase::Transferring`], [`Phase::Generating`] the top-up) and sync wait
//! ([`Phase::Polling`] and [`Phase::Sleeping`] after the top-up), then
//! [`Phase::StartingMiner`] and, once the miner is started, [`Phase::Ready`].

use crate::failure::Failure;
use crate::wallet::{CreateAccount, CreateAccountView, ACCOUNT_INDEX_PRIMARY};
use vstd::prelude::*;

verus! {

/// What a bootstrap can be told.
#[derive(Clone, Copy, Debug, PartialEq, Eq, Structural)]
pub struct Config {
    /// Blocks mined to the primary account before anything is funded.
    pub seed_blocks: u32,
    /// Blocks mined after each funding transfer.
    pub top_up_blocks_per_funding: u32,
    /// Seconds between two blocks of the background miner.
    pub block_interval_seconds: u64,
    /// Milliseconds between two looks at the wallet's height.
    pub wallet_sync_poll_interval_millis: u64,
    /// What the first party gets; 0 for nothing.
    pub first_party_funding: u64,
    /// What the second party gets; 0 for nothing.
    pub second_party_funding: u64,
}

impl Default for Config {
    fn default() -> (config: Config)
        ensures
            config == (Config {
                seed_blocks: 70,
                top_up_blocks_per_funding: 10,
                block_interval_seconds: 1,
                wallet_sync_poll_interval_millis: 1000,
                first_party_funding: 0,
                second_party_funding: 0,
            }),
    {
        Config {
            seed_blocks: 70,
            top_up_blocks_per_funding: 10,
            block_interval_seconds: 1,
            wallet_sync_poll_interval_millis: 1000,
            first_party_funding: 0,
            second_party_funding: 0,
        }
    }
}

/// What the first party gets where nothing else is said.
pub const DEFAULT_FIRST_PARTY_FUNDING: u64 = 1000;

impl Config {
    /// The configuration of a bootstrap with the default accounts: all
    /// defaults, the first party funded with 1000, the second with nothing.
    pub fn with_default_accounts() -> (config: Config)
        ensures
            config == (Config {
                seed_blocks: 70,
                top_up_blocks_per_funding: 10,
                block_interval_seconds: 1,
                wallet_sync_poll_interval_millis: 1000,
                first_party_funding: 1000,
                second_party_funding: 0,
            }),
    {
        Config {
            seed_blocks: 70,
            top_up_blocks_per_funding: 10,
            block_interval_seconds: 1,
            wallet_sync_poll_interval_millis: 1000,
            first_party_funding: DEFAULT_FIRST_PARTY_FUNDING,
            second_party_funding: 0,
        }
    }

    /// The funding requested for `party`.
    pub open spec fn funding(self, party: Party) -> u64 {
        match party {
            Party::First => self.first_party_funding,
            Party::Second => self.second_party_funding,
        }
    }

    /// The funding requested for `party`.
    pub fn funding_of(&self, party: Party) -> (amount: u64)
        ensures
            amount == self.funding(party),
    {
        match party {
            Party::First => self.first_party_funding,
            Party::Second => self.second_party_funding,
        }
    }

    /// What follows the sync wait of `round`: the funding of the next party
    /// that is to get anything or, when none is left, the miner.
    pub open spec fn after(self, round: Round) -> Phase {
        match round {
            Round::Seed => if self.first_party_funding > 0 {
                Phase::CheckingFunds(Party::First)
            } else if self.second_party_funding > 0 {
                Phase::CheckingFunds(Party::Second)
            } else {
                Phase::StartingMiner
            },
            Round::Funding(Party::First) => if self.second_party_funding > 0 {
                Phase::CheckingFunds(Party::Second)
            } else {
                Phase::StartingMiner
            },
            Round::Funding(Party::Second) => Phase::StartingMiner,
        }
    }

    /// What follows the sync wait of `round`.
    pub fn phase_after(&self, round: Round) -> (phase: Phase)
        ensures
            phase == self.after(round),
    {
        match round {
            Round::Seed => if self.first_party_funding > 0 {
                Phase::CheckingFunds(Party::First)
            } else if self.second_party_funding > 0 {
                Phase::CheckingFunds(Party::Second)
            } else {
                Phase::StartingMiner
            },
            Round::Funding(Party::First) => if self.second_party_funding > 0 {
                Phase::CheckingFunds(Party::Second)
            } else {
                Phase::StartingMiner
            },
            Round::Funding(Party::Second) => Phase::StartingMiner,
        }
    }
}

/// One of the two parties of a test.
#[derive(Clone, Copy, Debug, PartialEq, Eq, Structural)]
pub enum Party {
    First,
    Second,
}

/// A batch of blocks, and the sync wait that follows it.
#[derive(Clone, Copy, Debug, PartialEq, Eq, Structural)]
pub enum Round {
    /// The seed blocks.
    Seed,
    /// The top-up after the funding of a party.
    Funding(Party),
}

/// Where a bootstrap stands: what it has asked for and not yet heard of.
#[derive(Clone, Copy, Debug, PartialEq, Eq, Structural)]
pub enum Phase {
    /// Nothing exists yet; the wallet is being created.
    CreatingWallet,
    /// The wallet exists; the account of a party is being created.
    CreatingAccount(Party),
    /// The address of the primary account is being fetched.
    FetchingPrimaryAddress,
    /// Blocks are being mined to the primary account.
    Generating(Round),
    /// The wallet is being asked how far it has read the chain.
    Polling(Round),
    /// The wallet was behind; the next look at it is being waited for.
    Sleeping(Round),
    /// The spendable balance of the primary account is being fetched.
    CheckingFunds(Party),
    /// The funding of a party is being transferred.
    Transferring(Party),
    /// The background miner is being started.
    StartingMiner,
    /// The miner is started: the bootstrap is done.
    Ready,
    /// A step failed: the bootstrap is given up.
    Failed(Failure),
}

impl Phase {
    /// Whether nothing follows this phase.
    pub open spec fn is_terminal(self) -> bool {
        self is Ready || self is Failed
    }

    /// How far this phase is along the sequence of the bootstrap.
    pub open spec fn rank(self) -> nat {
        match self {
            Phase::CreatingWallet => 0,
            Phase::CreatingAccount(Party::First) => 1,
            Phase::CreatingAccount(Party::Second) => 2,
            Phase::FetchingPrimaryAddress => 3,
            Phase::Generating(Round::Seed) => 4,
            Phase::Polling(Round::Seed) => 5,
            Phase::Sleeping(Round::Seed) => 5,
            Phase::CheckingFunds(Party::First) => 6,
            Phase::Transferring(Party::First) => 7,
            Phase::Generating(Round::Funding(Party::First)) => 8,
            Phase::Polling(Round::Funding(Party::First)) => 9,
            Phase::Sleeping(Round::Funding(Party::First)) => 9,
            Phase::CheckingFunds(Party::Second) => 10,
            Phase::Transferring(Party::Second) => 11,
            Phase::Generating(Round::Funding(Party::Second)) => 12,
            Phase::Polling(Round::Funding(Party::Second)) => 13,
            Phase::Sleeping(Round::Funding(Party::Second)) => 13,
            Phase::StartingMiner => 14,
            Phase::Ready => 15,
            Phase::Failed(_) => 16,
        }
    }

    /// The party whose funding this phase belongs to.
    pub open spec fn funded_party(self) -> Option<Party> {
        match self {
            Phase::CheckingFunds(party) => Some(party),
            Phase::Transferring(party) => Some(party),
            Phase::Generating(Round::Funding(party)) => Some(party),
            Phase::Polling(Round::Funding(party)) => Some(party),
            Phase::Sleeping(Round::Funding(party)) => Some(party),
            _ => None,
        }
    }
}

/// What the driver of a machine is to do next.
#[derive(Clone, Debug, PartialEq, Eq)]
pub enum Action {
    CreateWallet { filename: String },
    CreateAccount { label: String },
    GetAddress { account_index: u32 },
    GenerateBlocks { count: u32, reward_address: String },
    GetWalletHeight,
    WaitMillis { millis: u64 },
    WaitSeconds { seconds: u64 },
    GetBalance { account_index: u32 },
    Transfer { account_index: u32, amount: u64, address: String },
    StartMiner { reward_address: String, interval_seconds: u64 },
    /// Nothing: the machine has come to its end.
    Stop,
}

pub enum ActionView {
    CreateWallet { filename: Seq<char> },
    CreateAccount { label: Seq<char> },
    GetAddress { account_index: u32 },
    GenerateBlocks { count: u32, reward_address: Seq<char> },
    GetWalletHeight,
    WaitMillis { millis: u64 },
    WaitSeconds { seconds: u64 },
    GetBalance { account_index: u32 },
    Transfer { account_index: u32, amount: u64, address: Seq<char> },
    StartMiner { reward_address: Seq<char>, interval_seconds: u64 },
    Stop,
}

impl View for Action {
    type V = ActionView;

    open spec fn view(&self) -> ActionView {
        match *self {
            Action::CreateWallet { filename } => ActionView::CreateWallet { filename: filename@ },
            Action::CreateAccount { label } => ActionView::CreateAccount { label: label@ },
            Action::GetAddress { account_index } => ActionView::GetAddress { account_index },
            Action::GenerateBlocks { count, reward_address } => ActionView::GenerateBlocks {
                count,
                reward_address: reward_address@,
            },
            Action::GetWalletHeight => ActionView::GetWalletHeight,
            Action::WaitMillis { millis } => ActionView::WaitMillis { millis },
            Action::WaitSeconds { seconds } => ActionView::WaitSeconds { seconds },
            Action::GetBalance { account_index } => ActionView::GetBalance { account_index },
            Action::Transfer { account_index, amount, address } => ActionView::Transfer {
                account_index,
                amount,
                address: address@,
            },
            Action::StartMiner { reward_address, interval_seconds } => ActionView::StartMiner {
                reward_address: reward_address@,
                interval_seconds,
            },
            Action::Stop => ActionView::Stop,
        }
    }
}

/// What the driver reports once it has done what it was asked.
#[derive(Clone, Debug, PartialEq, Eq)]
pub enum Event {
    WalletCreated,
    AccountCreated(CreateAccount),
    Address(String),
    /// The blocks exist; the chain now has this height.
    BlocksGenerated { height: u32 },
    /// The wallet has read the chain up to this height.
    WalletHeight { height: u32 },
    Waited,
    /// What the asked account can spend.
    Balance { unlocked_balance: u64 },
    Transferred,
    MinerStarted,
    /// The action failed.
    Failed(Failure),
}

pub enum EventView {
    WalletCreated,
    AccountCreated(CreateAccountView),
    Address(Seq<char>),
    BlocksGenerated { height: u32 },
    WalletHeight { height: u32 },
    Waited,
    Balance { unlocked_balance: u64 },
    Transferred,
    MinerStarted,
    Failed(Failure),
}

impl View for Event {
    type V = EventView;

    open spec fn view(&self) -> EventView {
        match *self {
            Event::WalletCreated => EventView::WalletCreated,
            Event::AccountCreated(account) => EventView::AccountCreated(account@),
            Event::Address(address) => EventView::Address(address@),
            Event::BlocksGenerated { height } => EventView::BlocksGenerated { height },
            Event::WalletHeight { height } => EventView::WalletHeight { height },
            Event::Waited => EventView::Waited,
            Event::Balance { unlocked_balance } => EventView::Balance { unlocked_balance },
            Event::Transferred => EventView::Transferred,
            Event::MinerStarted => EventView::MinerStarted,
            Event::Failed(failure) => EventView::Failed(failure),
        }
    }
}

/// The name of the wallet file that a bootstrap creates.
pub open spec fn wallet_filename() -> Seq<char> {
    "miner_wallet"@
}

/// The label of the account that a bootstrap creates for `party`.
pub open spec fn party_label(party: Party) -> Seq<char> {
    match party {
        Party::First => "first party"@,
        Party::Second => "second party"@,
    }
}

/// A bootstrap under way.
#[derive(Clone, Debug, PartialEq, Eq)]
pub struct Bootstrap {
    pub config: Config,
    /// Whether the accounts of the two parties are created and funded.
    pub with_accounts: bool,
    pub phase: Phase,
    pub first_party: Option<CreateAccount>,
    pub second_party: Option<CreateAccount>,
    /// The address that all blocks are mined to; empty until it is known.
    pub primary_address: String,
    /// The chain height that the wallet has to reach in the sync wait.
    pub target_height: u32,
}

/// A bootstrap under way, as a mathematical value.
pub struct BootstrapView {
    pub config: Config,
    pub with_accounts: bool,
    pub phase: Phase,
    pub first_party: Option<CreateAccountView>,
    pub second_party: Option<CreateAccountView>,
    pub primary_address: Seq<char>,
    pub target_height: u32,
}

impl View for Bootstrap {
    type V = BootstrapView;

    open spec fn view(&self) -> BootstrapView {
        BootstrapView {
            config: self.config,
            with_accounts: self.with_accounts,
            phase: self.phase,
            first_party: match self.first_party {
                Some(account) => Some(account@),
                None => None,
            },
            second_party: match self.second_party {
                Some(account) => Some(account@),
                None => None,
            },
            primary_address: self.primary_address@,
            target_height: self.target_height,
        }
    }
}

impl BootstrapView {
    /// The state in which a bootstrap with `config` begins.
    pub open spec fn initial(config: Config, with_accounts: bool) -> BootstrapView {
        BootstrapView {
            config,
            with_accounts,
            phase: Phase::CreatingWallet,
            first_party: None,
            second_party: None,
            primary_address: Seq::empty(),
            target_height: 0,
        }
    }

    /// The account recorded for `party`.
    pub open spec fn account(self, party: Party) -> Option<CreateAccountView> {
        match party {
            Party::First => self.first_party,
            Party::Second => self.second_party,
        }
    }

    /// What holds of every state that a bootstrap passes through: without
    /// accounts nothing is created, waited for or funded; a funding under way
    /// is that of a party whose requested amount is not zero; and once the
    /// accounts are created they are recorded.
    pub open spec fn well_formed(self) -> bool {
        &&& match self.phase {
            Phase::CreatingAccount(_) => self.with_accounts,
            Phase::Polling(_) => self.with_accounts,
            Phase::Sleeping(_) => self.with_accounts,
            Phase::CheckingFunds(_) => self.with_accounts,
            Phase::Transferring(_) => self.with_accounts,
            Phase::Generating(Round::Funding(_)) => self.with_accounts,
            _ => true,
        }
        &&& match self.phase.funded_party() {
            Some(party) => self.config.funding(party) > 0,
            None => true,
        }
        &&& (self.with_accounts && 2 <= self.phase.rank() <= 14 ==> self.first_party is Some)
        &&& (self.with_accounts && 3 <= self.phase.rank() <= 14 ==> self.second_party is Some)
    }

    /// The state that follows this one when `event` is reported. A state in
    /// which the bootstrap has ended stays as it is. A failure ends the
    /// bootstrap with that failure, and so does, as a malformed response, an
    /// event that does not answer what was asked.
    pub open spec fn step(self, event: EventView) -> BootstrapView {
        if self.phase.is_terminal() {
            self
        } else {
            match (self.phase, event) {
                (_, EventView::Failed(failure)) => BootstrapView {
                    phase: Phase::Failed(failure),
                    ..self
                },
                (Phase::CreatingWallet, EventView::WalletCreated) => BootstrapView {
                    phase: if self.with_accounts {
                        Phase::CreatingAccount(Party::First)
                    } else {
                        Phase::FetchingPrimaryAddress
                    },
                    ..self
                },
                (
                    Phase::CreatingAccount(Party::First),
                    EventView::AccountCreated(account),
                ) => BootstrapView {
                    phase: Phase::CreatingAccount(Party::Second),
                    first_party: Some(account),
                    ..self
                },
                (
                    Phase::CreatingAccount(Party::Second),
                    EventView::AccountCreated(account),
                ) => BootstrapView {
                    phase: Phase::FetchingPrimaryAddress,
                    second_party: Some(account),
                    ..self
                },
                (Phase::FetchingPrimaryAddress, EventView::Address(address)) => BootstrapView {
                    phase: Phase::Generating(Round::Seed),
                    primary_address: address,
                    ..self
                },
                (Phase::Generating(round), EventView::BlocksGenerated { height }) => BootstrapView {
                    phase: if self.with_accounts {
                        Phase::Polling(round)
                    } else {
                        Phase::StartingMiner
                    },
                    target_height: height,
                    ..self
                },
                (Phase::Polling(round), EventView::WalletHeight { height }) => BootstrapView {
                    phase: if height >= self.target_height {
                        self.config.after(round)
                    } else {
                        Phase::Sleeping(round)
                    },
                    ..self
                },
                (Phase::Sleeping(round), EventView::Waited) => BootstrapView {
                    phase: Phase::Polling(round),
                    ..self
                },
                (
                    Phase::CheckingFunds(party),
                    EventView::Balance { unlocked_balance },
                ) => BootstrapView {
                    phase: if self.config.funding(party) <= unlocked_balance {
                        Phase::Transferring(party)
                    } else {
                        Phase::Failed(Failure::InsufficientSeedFunds)
                    },
                    ..self
                },
                (Phase::Transferring(party), EventView::Transferred) => BootstrapView {
                    phase: Phase::Generating(Round::Funding(party)),
                    ..self
                },
                (Phase::StartingMiner, EventView::MinerStarted) => BootstrapView {
                    phase: Phase::Ready,
                    ..self
                },
                _ => BootstrapView { phase: Phase::Failed(Failure::MalformedResponse), ..self },
            }
        }
    }

    /// What is to be done in this state.
    pub open spec fn pending_action(self) -> ActionView {
        match self.phase {
            Phase::CreatingWallet => ActionView::CreateWallet { filename: wallet_filename() },
            Phase::CreatingAccount(party) => ActionView::CreateAccount { label: party_label(party) },
            Phase::FetchingPrimaryAddress => ActionView::GetAddress {
                account_index: ACCOUNT_INDEX_PRIMARY,
            },
            Phase::Generating(Round::Seed) => ActionView::GenerateBlocks {
                count: self.config.seed_blocks,
                reward_address: self.primary_address,
            },
            Phase::Generating(Round::Funding(_)) => ActionView::GenerateBlocks {
                count: self.config.top_up_blocks_per_funding,
                reward_address: self.primary_address,
            },
            Phase::Polling(_) => ActionView::GetWalletHeight,
            Phase::Sleeping(_) => ActionView::WaitMillis {
                millis: self.config.wallet_sync_poll_interval_millis,
            },
            Phase::CheckingFunds(_) => ActionView::GetBalance { account_index: ACCOUNT_INDEX_PRIMARY },
            Phase::Transferring(party) => match self.account(party) {
                Some(account) => ActionView::Transfer {
                    account_index: ACCOUNT_INDEX_PRIMARY,
                    amount: self.config.funding(party),
                    address: account.address,
                },
                None => ActionView::Stop,
            },
            Phase::StartingMiner => ActionView::StartMiner {
                reward_address: self.primary_address,
                interval_seconds: self.config.block_interval_seconds,
            },
            Phase::Ready => ActionView::Stop,
            Phase::Failed(_) => ActionView::Stop,
        }
    }

    /// The state after `events` were reported one after another.
    pub open spec fn run(self, events: Seq<EventView>) -> BootstrapView
        decreases events.len(),
    {
        if events.len() == 0 {
            self
        } else {
            self.run(events.drop_last()).step(events.last())
        }
    }

    /// How the bootstrap ended, once it has.
    pub open spec fn outcome(self) -> Option<Result<(), Failure>> {
        match self.phase {
            Phase::Ready => Some(Ok(())),
            Phase::Failed(failure) => Some(Err(failure)),
            _ => None,
        }
    }
}

impl Bootstrap {
    /// Begins the bootstrap of a chain with the accounts of two parties.
    pub fn new(config: Config) -> (machine: Bootstrap)
        ensures
            machine@ == BootstrapView::initial(config, true),
    {
        Bootstrap {
            config,
            with_accounts: true,
            phase: Phase::CreatingWallet,
            first_party: None,
            second_party: None,
            primary_address: String::new(),
            target_height: 0,
        }
    }

    /// Begins the bootstrap of a chain on which only the miner runs: the
    /// wallet, the seed blocks, the miner.
    pub fn miner_only(config: Config) -> (machine: Bootstrap)
        ensures
            machine@ == BootstrapView::initial(config, false),
    {
        Bootstrap {
            config,
            with_accounts: false,
            phase: Phase::CreatingWallet,
            first_party: None,
            second_party: None,
            primary_address: String::new(),
            target_height: 0,
        }
    }

    /// What the driver is to do now.
    pub fn pending(&self) -> (action: Action)
        ensures
            action@ == self@.pending_action(),
    {
        match self.phase {
            Phase::CreatingWallet => Action::CreateWallet { filename: "miner_wallet".to_owned() },
            Phase::CreatingAccount(Party::First) => Action::CreateAccount {
                label: "first party".to_owned(),
            },
            Phase::CreatingAccount(Party::Second) => Action::CreateAccount {
                label: "second party".to_owned(),
            },
            Phase::FetchingPrimaryAddress => Action::GetAddress {
                account_index: ACCOUNT_INDEX_PRIMARY,
            },
            Phase::Generating(Round::Seed) => Action::GenerateBlocks {
                count: self.config.seed_blocks,
                reward_address: self.primary_address.clone(),
            },
            Phase::Generating(Round::Funding(_)) => Action::GenerateBlocks {
                count: self.config.top_up_blocks_per_funding,
                reward_address: self.primary_address.clone(),
            },
            Phase::Polling(_) => Action::GetWalletHeight,
            Phase::Sleeping(_) => Action::WaitMillis {
                millis: self.config.wallet_sync_poll_interval_millis,
            },
            Phase::CheckingFunds(_) => Action::GetBalance { account_index: ACCOUNT_INDEX_PRIMARY },
            Phase::Transferring(party) => {
                let account = match party {
                    Party::First => &self.first_party,
                    Party::Second => &self.second_party,
                };
                match account {
                    Some(account) => Action::Transfer {
                        account_index: ACCOUNT_INDEX_PRIMARY,
                        amount: self.config.funding_of(party),
                        address: account.address.clone(),
                    },
                    None => Action::Stop,
                }
            },
            Phase::StartingMiner => Action::StartMiner {
                reward_address: self.primary_address.clone(),
                interval_seconds: self.config.block_interval_seconds,
            },
            Phase::Ready => Action::Stop,
            Phase::Failed(_) => Action::Stop,
        }
    }

    /// Takes in what the driver reports and moves on.
    pub fn advance(self, event: Event) -> (next: Bootstrap)
        ensures
            next@ == self@.step(event@),
    {
        let mut next = self;
        let phase = next.phase;
        match phase {
            Phase::Ready => { return next; },
            Phase::Failed(_) => { return next; },
            _ => {},
        }
        match event {
            Event::Failed(failure) => {
                next.phase = Phase::Failed(failure);
            },
            Event::WalletCreated => {
                next.phase = match phase {
                    Phase::CreatingWallet => if next.with_accounts {
                        Phase::CreatingAccount(Party::First)
                    } else {
                        Phase::FetchingPrimaryAddress
                    },
                    _ => Phase::Failed(Failure::MalformedResponse),
                };
            },
            Event::AccountCreated(account) => {
                match phase {
                    Phase::CreatingAccount(Party::First) => {
                        next.first_party = Some(account);
                        next.phase = Phase::CreatingAccount(Party::Second);
                    },
                    Phase::CreatingAccount(Party::Second) => {
                        next.second_party = Some(account);
                        next.phase = Phase::FetchingPrimaryAddress;
                    },
                    _ => {
                        next.phase = Phase::Failed(Failure::MalformedResponse);
                    },
                }
            },
            Event::Address(address) => {
                match phase {
                    Phase::FetchingPrimaryAddress => {
                        next.primary_address = address;
                        next.phase = Phase::Generating(Round::Seed);
                    },
                    _ => {
                        next.phase = Phase::Failed(Failure::MalformedResponse);
                    },
                }
            },
            Event::BlocksGenerated { height } => {
                match phase {
                    Phase::Generating(round) => {
                        next.target_height = height;
                        next.phase = if next.with_accounts {
                            Phase::Polling(round)
                        } else {
                            Phase::StartingMiner
                        };
                    },
                    _ => {
                        next.phase = Phase::Failed(Failure::MalformedResponse);
                    },
                }
            },
            Event::WalletHeight { height } => {
                next.phase = match phase {
                    Phase::Polling(round) => if height >= next.target_height {
                        next.config.phase_after(round)
                    } else {
                        Phase::Sleeping(round)
                    },
                    _ => Phase::Failed(Failure::MalformedResponse),
                };
            },
            Event::Waited => {
                next.phase = match phase {
                    Phase::Sleeping(round) => Phase::Polling(round),
                    _ => Phase::Failed(Failure::MalformedResponse),
                };
            },
            Event::Balance { unlocked_balance } => {
                next.phase = match phase {
                    Phase::CheckingFunds(party) => if next.config.funding_of(party)
                        <= unlocked_balance {
                        Phase::Transferring(party)
                    } else {
                        Phase::Failed(Failure::InsufficientSeedFunds)
                    },
                    _ => Phase::Failed(Failure::MalformedResponse),
                };
            },
            Event::Transferred => {
                next.phase = match phase {
                    Phase::Transferring(party) => Phase::Generating(Round::Funding(party)),
                    _ => Phase::Failed(Failure::MalformedResponse),
                };
            },
            Event::MinerStarted => {
                next.phase = match phase {
                    Phase::StartingMiner => Phase::Ready,
                    _ => Phase::Failed(Failure::MalformedResponse),
                };
            },
        }
        next
    }

    /// How the bootstrap ended: `None` while it is under way.
    pub fn outcome(&self) -> (end: Option<Result<(), Failure>>)
        ensures
            end == self@.outcome(),
    {
        match self.phase {
            Phase::Ready => Some(Ok(())),
            Phase::Failed(failure) => Some(Err(failure)),
            _ => None,
        }
    }
}

/// A step keeps a well-formed bootstrap well formed, and changes neither its
/// configuration nor its kind.
pub proof fn step_keeps_well_formed(state: BootstrapView, event: EventView)
    ensures
        state.well_formed() ==> state.step(event).well_formed(),
        state.step(event).config == state.config,
        state.step(event).with_accounts == state.with_accounts,
{
    if !state.phase.is_terminal() {
        match event {
            EventView::Failed(_) => {},
            EventView::WalletCreated => {},
            EventView::AccountCreated(_) => {},
            EventView::Address(_) => {},
            EventView::BlocksGenerated { .. } => {},
            EventView::WalletHeight { .. } => {},
            EventView::Waited => {},
            EventView::Balance { .. } => {},
            EventView::Transferred => {},
            EventView::MinerStarted => {},
        }
    }
}

/// Every state that a bootstrap comes to, whatever is reported to it, is
/// well formed, and the configuration and the kind it began with stay.
pub proof fn every_reached_state_is_well_formed(
    config: Config,
    with_accounts: bool,
    events: Seq<EventView>,
)
    ensures
        BootstrapView::initial(config, with_accounts).run(events).well_formed(),
        BootstrapView::initial(config, with_accounts).run(events).config == config,
        BootstrapView::initial(config, with_accounts).run(events).with_accounts == with_accounts,
    decreases events.len(),
{
    let initial = BootstrapView::initial(config, with_accounts);
    if events.len() > 0 {
        every_reached_state_is_well_formed(config, with_accounts, events.drop_last());
        step_keeps_well_formed(initial.run(events.drop_last()), events.last());
    }
}

/// A transfer is asked for only as the funding of a party: from the primary
/// account, to the address recorded for that party, of the amount requested
/// for it, which is not zero.
pub proof fn transfer_is_a_requested_funding(state: BootstrapView)
    requires
        state.well_formed(),
    ensures
        match state.pending_action() {
            ActionView::Transfer { account_index, amount, address } => {
                &&& state.phase matches Phase::Transferring(party)
                &&& account_index == ACCOUNT_INDEX_PRIMARY
                &&& amount == state.config.funding(party)
                &&& amount > 0
                &&& state.account(party) matches Some(account)
                &&& address == account.address
            },
            _ => true,
        },
{
}

/// A party for which nothing is requested gets nothing: whatever is reported
/// to a bootstrap from its beginning on, it never comes to fund that party,
/// and every transfer it asks for is the funding of the other party.
pub proof fn zero_funding_is_never_transferred(
    config: Config,
    with_accounts: bool,
    events: Seq<EventView>,
    party: Party,
)
    requires
        config.funding(party) == 0,
    ensures
        BootstrapView::initial(config, with_accounts).run(events).phase.funded_party() != Some(
            party,
        ),
        BootstrapView::initial(config, with_accounts).run(events).pending_action() is Transfer
            ==> BootstrapView::initial(config, with_accounts).run(events).phase
            != Phase::Transferring(party),
{
    every_reached_state_is_well_formed(config, with_accounts, events);
}

/// Without a requested funding, and without accounts, a bootstrap never
/// asks for a transfer.
pub proof fn no_funding_no_transfer(config: Config, with_accounts: bool, events: Seq<EventView>)
    requires
        !with_accounts || (config.first_party_funding == 0 && config.second_party_funding == 0),
    ensures
        !(BootstrapView::initial(config, with_accounts).run(events).pending_action() is Transfer),
{
    every_reached_state_is_well_formed(config, with_accounts, events);
    transfer_is_a_requested_funding(BootstrapView::initial(config, with_accounts).run(events));
}

/// A bootstrap that has ended, ready or failed, takes no further notice of
/// what is reported, and asks for nothing.
pub proof fn ended_bootstrap_stays(state: BootstrapView, events: Seq<EventView>)
    requires
        state.phase.is_terminal(),
    ensures
        state.run(events) == state,
        state.pending_action() is Stop,
    decreases events.len(),
{
    if events.len() > 0 {
        ended_bootstrap_stays(state, events.drop_last());
    }
}

/// The first failure ends a bootstrap: it is what the bootstrap ends with,
/// whatever is reported afterwards, and nothing more is asked for. What was
/// done before it stays as it is.
pub proof fn first_failure_ends_the_bootstrap(
    state: BootstrapView,
    failure: Failure,
    later: Seq<EventView>,
)
    requires
        !state.phase.is_terminal(),
    ensures
        state.step(EventView::Failed(failure)).run(later) == (BootstrapView {
            phase: Phase::Failed(failure),
            ..state
        }),
        state.step(EventView::Failed(failure)).run(later).outcome() == Some(
            Err::<(), Failure>(failure),
        ),
        state.step(EventView::Failed(failure)).run(later).pending_action() is Stop,
{
    ended_bootstrap_stays(state.step(EventView::Failed(failure)), later);
}

/// No step of a bootstrap leads back: the phase after an event is never
/// earlier in the sequence than the phase before it.
pub proof fn step_never_goes_back(state: BootstrapView, event: EventView)
    ensures
        state.step(event).phase.rank() >= state.phase.rank(),
{
}

/// No run of a bootstrap leads back.
pub proof fn run_never_goes_back(state: BootstrapView, events: Seq<EventView>)
    ensures
        state.run(events).phase.rank() >= state.phase.rank(),
    decreases events.len(),
{
    if events.len() > 0 {
        run_never_goes_back(state, events.drop_last());
        step_never_goes_back(state.run(events.drop_last()), events.last());
    }
}

/// The sync wait ends exactly when the wallet reports a height that is not
/// below the height the daemon returned; until then each report is followed
/// by a pause and another look.
pub proof fn sync_wait_ends_at_the_target(state: BootstrapView, round: Round, height: u32)
    requires
        state.phase == Phase::Polling(round),
    ensures
        height < state.target_height ==> state.step(EventView::WalletHeight { height }).phase
            == Phase::Sleeping(round),
        height < state.target_height ==> state.step(EventView::WalletHeight { height }).step(
            EventView::Waited,
        ) == state,
        height >= state.target_height ==> state.step(EventView::WalletHeight { height }).phase
            == state.config.after(round),
{
}

/// The funding of a party runs in this order: the transfer, then the top-up
/// blocks to the primary address, then the sync wait for the height that the
/// daemon returned for them.
pub proof fn funding_transfers_before_it_generates(
    state: BootstrapView,
    party: Party,
    unlocked_balance: u64,
    height: u32,
)
    requires
        state.well_formed(),
        state.phase == Phase::CheckingFunds(party),
        state.config.funding(party) <= unlocked_balance,
    ensures
        ({
            let checked = state.step(EventView::Balance { unlocked_balance });
            let paid = checked.step(EventView::Transferred);
            let mined = paid.step(EventView::BlocksGenerated { height });
            &&& checked.pending_action() is Transfer
            &&& paid.pending_action() == (ActionView::GenerateBlocks {
                count: state.config.top_up_blocks_per_funding,
                reward_address: state.primary_address,
            })
            &&& mined.pending_action() is GetWalletHeight
            &&& mined.target_height == height
            &&& mined.phase == Phase::Polling(Round::Funding(party))
        }),
{
}

/// A bootstrap becomes ready in one way only: the miner is reported started
/// while its start is what the bootstrap asked for.
pub proof fn ready_only_by_the_miner(state: BootstrapView, event: EventView)
    requires
        state.phase != Phase::Ready,
        state.step(event).phase == Phase::Ready,
    ensures
        state.phase == Phase::StartingMiner,
        event is MinerStarted,
        state.pending_action() is StartMiner,
{
}

/// A look at the primary account's spendable balance stands before every
/// transfer: a funding that the balance does not cover ends the bootstrap
/// with `InsufficientSeedFunds`, and no transfer is asked for.
pub proof fn uncovered_funding_is_not_transferred(
    state: BootstrapView,
    party: Party,
    unlocked_balance: u64,
)
    requires
        state.phase == Phase::CheckingFunds(party),
        state.config.funding(party) > unlocked_balance,
    ensures
        state.step(EventView::Balance { unlocked_balance }).outcome() == Some(
            Err::<(), Failure>(Failure::InsufficientSeedFunds),
        ),
        state.step(EventView::Balance { unlocked_balance }).pending_action() is Stop,
{
}

/// What is reported one event later is one step later.
pub proof fn run_after_one_more(state: BootstrapView, events: Seq<EventView>, event: EventView)
    ensures
        state.run(events.push(event)) == state.run(events).step(event),
{
    assert(events.push(event).drop_last() =~= events);
}

/// What is reported in two parts leads where it leads when reported in one.
pub proof fn run_in_two_parts(state: BootstrapView, first: Seq<EventView>, second: Seq<EventView>)
    ensures
        state.run(first + second) == state.run(first).run(second),
    decreases second.len(),
{
    if second.len() == 0 {
        assert(first + second =~= first);
    } else {
        assert((first + second).drop_last() =~= first + second.drop_last());
        run_in_two_parts(state, first, second.drop_last());
    }
}

/// What is reported while the funding of `party` goes well: a balance, the
/// transfer, the top-up blocks, and a wallet that has caught up at the first
/// look. Nothing where nothing is requested for the party.
pub open spec fn smooth_funding(
    config: Config,
    party: Party,
    unlocked_balance: u64,
    height: u32,
) -> Seq<EventView> {
    if config.funding(party) > 0 {
        seq![
            EventView::Balance { unlocked_balance },
            EventView::Transferred,
            EventView::BlocksGenerated { height },
            EventView::WalletHeight { height },
        ]
    } else {
        Seq::empty()
    }
}

/// What is reported while the accounts are created and the seed is mined
/// without a failure, with a wallet that has caught up at the first look.
pub open spec fn smooth_seeding(
    first: CreateAccountView,
    second: CreateAccountView,
    primary_address: Seq<char>,
    height: u32,
) -> Seq<EventView> {
    seq![
        EventView::WalletCreated,
        EventView::AccountCreated(first),
        EventView::AccountCreated(second),
        EventView::Address(primary_address),
        EventView::BlocksGenerated { height },
        EventView::WalletHeight { height },
    ]
}

/// The funding of a party that goes well ends where the next party's
/// funding, or the miner, begins, and changes nothing but the height waited
/// for.
pub proof fn smooth_funding_leads_on(
    state: BootstrapView,
    party: Party,
    unlocked_balance: u64,
    height: u32,
)
    requires
        state.phase == Phase::CheckingFunds(party),
        state.with_accounts,
        state.config.funding(party) > 0,
        state.config.funding(party) <= unlocked_balance,
    ensures
        state.run(smooth_funding(state.config, party, unlocked_balance, height)) == (BootstrapView {
            phase: state.config.after(Round::Funding(party)),
            target_height: height,
            ..state
        }),
{
    let a = EventView::Balance { unlocked_balance };
    let b = EventView::Transferred;
    let c = EventView::BlocksGenerated { height };
    let d = EventView::WalletHeight { height };
    let none = Seq::<EventView>::empty();
    run_after_one_more(state, none, a);
    run_after_one_more(state, none.push(a), b);
    run_after_one_more(state, none.push(a).push(b), c);
    run_after_one_more(state, none.push(a).push(b).push(c), d);
    assert(none.push(a).push(b).push(c).push(d) =~= smooth_funding(
        state.config,
        party,
        unlocked_balance,
        height,
    ));
}

/// A bootstrap in which every call succeeds, the wallet has caught up at
/// each first look and the primary account covers each requested funding
/// becomes ready, with both accounts and the primary address recorded.
pub proof fn smooth_bootstrap_becomes_ready(
    config: Config,
    first: CreateAccountView,
    second: CreateAccountView,
    primary_address: Seq<char>,
    heights: (u32, u32, u32),
    balances: (u64, u64),
)
    requires
        config.first_party_funding <= balances.0,
        config.second_party_funding <= balances.1,
    ensures
        ({
            let events = smooth_seeding(first, second, primary_address, heights.0) + smooth_funding(
                config,
                Party::First,
                balances.0,
                heights.1,
            ) + smooth_funding(config, Party::Second, balances.1, heights.2) + seq![
                EventView::MinerStarted,
            ];
            let end = BootstrapView::initial(config, true).run(events);
            &&& end.outcome() == Some(Ok::<(), Failure>(()))
            &&& end.config == config
            &&& end.first_party == Some(first)
            &&& end.second_party == Some(second)
            &&& end.primary_address == primary_address
        }),
{
    let initial = BootstrapView::initial(config, true);
    let seeding = smooth_seeding(first, second, primary_address, heights.0);
    let one = smooth_funding(config, Party::First, balances.0, heights.1);
    let two = smooth_funding(config, Party::Second, balances.1, heights.2);
    let last = seq![EventView::MinerStarted];
    let none = Seq::<EventView>::empty();
    run_after_one_more(initial, none, seeding[0]);
    run_after_one_more(initial, none.push(seeding[0]), seeding[1]);
    run_after_one_more(initial, none.push(seeding[0]).push(seeding[1]), seeding[2]);
    run_after_one_more(
        initial,
        none.push(seeding[0]).push(seeding[1]).push(seeding[2]),
        seeding[3],
    );
    run_after_one_more(
        initial,
        none.push(seeding[0]).push(seeding[1]).push(seeding[2]).push(seeding[3]),
        seeding[4],
    );
    run_after_one_more(
        initial,
        none.push(seeding[0]).push(seeding[1]).push(seeding[2]).push(seeding[3]).push(seeding[4]),
        seeding[5],
    );
    assert(none.push(seeding[0]).push(seeding[1]).push(seeding[2]).push(seeding[3]).push(
        seeding[4],
    ).push(seeding[5]) =~= seeding);
    let seeded = initial.run(seeding);
    assert(seeded == (BootstrapView {
        phase: config.after(Round::Seed),
        first_party: Some(first),
        second_party: Some(second),
        primary_address,
        target_height: heights.0,
        ..initial
    }));
    if config.first_party_funding > 0 {
        smooth_funding_leads_on(seeded, Party::First, balances.0, heights.1);
    } else {
        assert(seeded.run(one) == seeded);
    }
    let funded_one = seeded.run(one);
    if config.second_party_funding > 0 {
        smooth_funding_leads_on(funded_one, Party::Second, balances.1, heights.2);
    } else {
        assert(funded_one.run(two) == funded_one);
    }
    let funded_two = funded_one.run(two);
    assert(funded_two.phase == Phase::StartingMiner);
    run_after_one_more(funded_two, none, EventView::MinerStarted);
    assert(none.push(EventView::MinerStarted) =~= last);
    run_in_two_parts(initial, seeding, one);
    run_in_two_parts(initial, seeding + one, two);
    run_in_two_parts(initial, seeding + one + two, last);
}

} // verus!
