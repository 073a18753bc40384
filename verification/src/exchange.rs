//! How an action becomes a call to a service, and the reply to that call an
//! event.

use crate::bootstrap::{
    every_reached_state_is_well_formed, transfer_is_a_requested_funding, Action, ActionView,
    BootstrapView, Config, Event, EventView, Party, Phase,
};
use crate::encode::{decimal, object_text, quoted};
use crate::failure::Failure;
use crate::json::JsonModel;
use crate::monerod::{generate_blocks_request, generate_blocks_result, generated_of_reply};
use crate::wallet::{
    account_of_reply, account_params, address_of_reply, balance_of_reply, block_height_request,
    block_height_result, create_account_request, create_account_result, create_wallet_request,
    create_wallet_result, get_address_request, get_address_result, get_balance_request,
    get_balance_result, height_of_reply, transfer_of_reply, transfer_params, transfer_result,
    transfer_to_request, wallet_language, wallet_of_reply, DestinationView,
};
use crate::{Reply, Request};
use vstd::prelude::*;

verus! {

/// One of the two services.
#[derive(Clone, Copy, Debug, PartialEq, Eq, Structural)]
pub enum Service {
    /// The daemon, which holds the chain and mines.
    Daemon,
    /// The wallet service, which holds the accounts.
    Wallet,
}

/// A call: the service to ask, the method and the parameters as JSON text.
pub struct Call {
    pub service: Service,
    pub method: Seq<char>,
    pub params: Seq<char>,
}

impl ActionView {
    /// The call that carries out this action, where the action is a call.
    /// To wait, to start the miner and to stop are none.
    pub open spec fn call(self) -> Option<Call> {
        match self {
            ActionView::CreateWallet { filename } => Some(
                Call {
                    service: Service::Wallet,
                    method: "create_wallet"@,
                    params: object_text(
                        seq![
                            ("filename"@, quoted(filename)),
                            ("language"@, quoted(wallet_language())),
                        ],
                    ),
                },
            ),
            ActionView::CreateAccount { label } => Some(
                Call {
                    service: Service::Wallet,
                    method: "create_account"@,
                    params: object_text(seq![("label"@, quoted(label))]),
                },
            ),
            ActionView::GetAddress { account_index } => Some(
                Call {
                    service: Service::Wallet,
                    method: "get_address"@,
                    params: account_params(account_index),
                },
            ),
            ActionView::GenerateBlocks { count, reward_address } => Some(
                Call {
                    service: Service::Daemon,
                    method: "generateblocks"@,
                    params: object_text(
                        seq![
                            ("amount_of_blocks"@, decimal(count as nat)),
                            ("wallet_address"@, quoted(reward_address)),
                        ],
                    ),
                },
            ),
            ActionView::GetWalletHeight => Some(
                Call {
                    service: Service::Wallet,
                    method: "get_height"@,
                    params: quoted(Seq::<char>::empty()),
                },
            ),
            ActionView::GetBalance { account_index } => Some(
                Call {
                    service: Service::Wallet,
                    method: "get_balance"@,
                    params: account_params(account_index),
                },
            ),
            ActionView::Transfer { account_index, amount, address } => Some(
                Call {
                    service: Service::Wallet,
                    method: "transfer"@,
                    params: transfer_params(account_index, seq![(DestinationView { amount, address })]),
                },
            ),
            ActionView::WaitMillis { .. } => None,
            ActionView::WaitSeconds { .. } => None,
            ActionView::StartMiner { .. } => None,
            ActionView::Stop => None,
        }
    }

    /// The event that a reply to the call of this action is. Of the result
    /// it keeps what a machine reads; a reply that fails is that failure, and
    /// so is, as a malformed response, a reply to an action that is no call.
    pub open spec fn event_of(self, status: u16, document: Option<JsonModel>) -> EventView {
        match self {
            ActionView::CreateWallet { .. } => match wallet_of_reply(status, document) {
                Ok(_) => EventView::WalletCreated,
                Err(failure) => EventView::Failed(failure),
            },
            ActionView::CreateAccount { .. } => match account_of_reply(status, document) {
                Ok(account) => EventView::AccountCreated(account),
                Err(failure) => EventView::Failed(failure),
            },
            ActionView::GetAddress { .. } => match address_of_reply(status, document) {
                Ok(found) => EventView::Address(found.address),
                Err(failure) => EventView::Failed(failure),
            },
            ActionView::GenerateBlocks { .. } => match generated_of_reply(status, document) {
                Ok(generated) => EventView::BlocksGenerated { height: generated.height },
                Err(failure) => EventView::Failed(failure),
            },
            ActionView::GetWalletHeight => match height_of_reply(status, document) {
                Ok(seen) => EventView::WalletHeight { height: seen.height },
                Err(failure) => EventView::Failed(failure),
            },
            ActionView::GetBalance { .. } => match balance_of_reply(status, document) {
                Ok(balance) => EventView::Balance { unlocked_balance: balance.unlocked_balance },
                Err(failure) => EventView::Failed(failure),
            },
            ActionView::Transfer { .. } => match transfer_of_reply(status, document) {
                Ok(_) => EventView::Transferred,
                Err(failure) => EventView::Failed(failure),
            },
            ActionView::WaitMillis { .. } => EventView::Failed(Failure::MalformedResponse),
            ActionView::WaitSeconds { .. } => EventView::Failed(Failure::MalformedResponse),
            ActionView::StartMiner { .. } => EventView::Failed(Failure::MalformedResponse),
            ActionView::Stop => EventView::Failed(Failure::MalformedResponse),
        }
    }
}

impl Action {
    /// The service to ask and the request to send for this action; `None`
    /// where the action is no call.
    pub fn call(&self) -> (call: Option<(Service, Request<String>)>)
        ensures
            match call {
                Some((service, request)) => self@.call() == Some(
                    Call {
                        service,
                        method: request.method_name(),
                        params: request.parameters()@,
                    },
                ),
                None => self@.call() is None,
            },
    {
        match self {
            Action::CreateWallet { filename } => Some(
                (Service::Wallet, create_wallet_request(filename.as_str())),
            ),
            Action::CreateAccount { label } => Some(
                (Service::Wallet, create_account_request(label.as_str())),
            ),
            Action::GetAddress { account_index } => Some(
                (Service::Wallet, get_address_request(*account_index)),
            ),
            Action::GenerateBlocks { count, reward_address } => Some(
                (Service::Daemon, generate_blocks_request(*count, reward_address.as_str())),
            ),
            Action::GetWalletHeight => Some((Service::Wallet, block_height_request())),
            Action::GetBalance { account_index } => Some(
                (Service::Wallet, get_balance_request(*account_index)),
            ),
            Action::Transfer { account_index, amount, address } => Some(
                (Service::Wallet, transfer_to_request(*account_index, *amount, address.as_str())),
            ),
            Action::WaitMillis { .. } => None,
            Action::WaitSeconds { .. } => None,
            Action::StartMiner { .. } => None,
            Action::Stop => None,
        }
    }

    /// The event that `reply`, the reply to the call of this action, is.
    pub fn event(&self, reply: &Reply) -> (event: Event)
        ensures
            event@ == self@.event_of(reply.status, reply.document_model()),
    {
        match self {
            Action::CreateWallet { .. } => match create_wallet_result(reply) {
                Ok(_) => Event::WalletCreated,
                Err(failure) => Event::Failed(failure),
            },
            Action::CreateAccount { .. } => match create_account_result(reply) {
                Ok(account) => Event::AccountCreated(account),
                Err(failure) => Event::Failed(failure),
            },
            Action::GetAddress { .. } => match get_address_result(reply) {
                Ok(found) => Event::Address(found.address),
                Err(failure) => Event::Failed(failure),
            },
            Action::GenerateBlocks { .. } => match generate_blocks_result(reply) {
                Ok(generated) => Event::BlocksGenerated { height: generated.height },
                Err(failure) => Event::Failed(failure),
            },
            Action::GetWalletHeight => match block_height_result(reply) {
                Ok(seen) => Event::WalletHeight { height: seen.height },
                Err(failure) => Event::Failed(failure),
            },
            Action::GetBalance { .. } => match get_balance_result(reply) {
                Ok(balance) => Event::Balance { unlocked_balance: balance.unlocked_balance },
                Err(failure) => Event::Failed(failure),
            },
            Action::Transfer { .. } => match transfer_result(reply) {
                Ok(_) => Event::Transferred,
                Err(failure) => Event::Failed(failure),
            },
            Action::WaitMillis { .. } => Event::Failed(Failure::MalformedResponse),
            Action::WaitSeconds { .. } => Event::Failed(Failure::MalformedResponse),
            Action::StartMiner { .. } => Event::Failed(Failure::MalformedResponse),
            Action::Stop => Event::Failed(Failure::MalformedResponse),
        }
    }
}

/// The method `transfer` is called for nothing but a transfer.
pub proof fn transfer_call_is_a_transfer(action: ActionView)
    requires
        action.call() matches Some(call) && call.method == "transfer"@,
    ensures
        action is Transfer,
{
    reveal_strlit("transfer");
    reveal_strlit("create_wallet");
    reveal_strlit("create_account");
    reveal_strlit("get_address");
    reveal_strlit("generateblocks");
    reveal_strlit("get_height");
    reveal_strlit("get_balance");
    assert("create_wallet"@.len() == 13);
    assert("create_account"@.len() == 14);
    assert("get_address"@.len() == 11);
    assert("generateblocks"@.len() == 14);
    assert("get_height"@.len() == 10);
    assert("get_balance"@.len() == 11);
}

/// A bootstrap calls `transfer` only to fund a party for which an amount
/// other than zero is requested, and then for that amount, from the primary
/// account, to the address recorded for the party.
pub proof fn transfer_is_called_for_funding_only(state: BootstrapView)
    requires
        state.well_formed(),
        state.pending_action().call() matches Some(call) && call.method == "transfer"@,
    ensures
        ({
            &&& state.phase matches Phase::Transferring(party)
            &&& state.config.funding(party) > 0
            &&& state.account(party) matches Some(account)
            &&& state.pending_action().call() == Some(
                Call {
                    service: Service::Wallet,
                    method: "transfer"@,
                    params: transfer_params(
                        crate::wallet::ACCOUNT_INDEX_PRIMARY,
                        seq![
                            (DestinationView {
                                amount: state.config.funding(party),
                                address: account.address,
                            }),
                        ],
                    ),
                },
            )
        }),
{
    transfer_call_is_a_transfer(state.pending_action());
    transfer_is_a_requested_funding(state);
}

/// Funding with the amount zero makes no call of `transfer` for that party:
/// whatever is reported to a bootstrap from its beginning on, every call of
/// `transfer` that it makes funds the other party.
pub proof fn zero_funding_makes_no_transfer_call(
    config: Config,
    with_accounts: bool,
    events: Seq<EventView>,
    party: Party,
)
    requires
        config.funding(party) == 0,
        BootstrapView::initial(config, with_accounts).run(events).pending_action().call() matches Some(
            call,
        ) && call.method == "transfer"@,
    ensures
        ({
            &&& BootstrapView::initial(config, with_accounts).run(events).phase matches Phase::Transferring(
                other,
            )
            &&& other != party
        }),
{
    every_reached_state_is_well_formed(config, with_accounts, events);
    transfer_is_called_for_funding_only(BootstrapView::initial(config, with_accounts).run(events));
}

} // verus!
