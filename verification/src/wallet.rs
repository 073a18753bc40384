//! The calls of the wallet service: what each request says, and what each
//! reply must hold.

use crate::encode::{array, array_text, decimal, number, object, object_text, pairs, quoted, string, texts};
use crate::failure::Failure;
use crate::json::{Json, JsonModel};
use crate::{Reply, Request, envelope_result};
use vstd::prelude::*;

verus! {

/// The account that comes with the wallet: it receives the mining rewards
/// and pays the fundings.
pub const ACCOUNT_INDEX_PRIMARY: u32 = 0;

/// The account of the first party.
pub const ACCOUNT_INDEX_FIRST_PARTY: u32 = 1;

/// The account of the second party.
pub const ACCOUNT_INDEX_SECOND_PARTY: u32 = 2;

/// What `get_address` returns.
#[derive(Clone, Debug, PartialEq, Eq)]
pub struct GetAddressResponse {
    pub address: String,
}

pub struct GetAddressResponseView {
    pub address: Seq<char>,
}

impl View for GetAddressResponse {
    type V = GetAddressResponseView;

    open spec fn view(&self) -> GetAddressResponseView {
        GetAddressResponseView { address: self.address@ }
    }
}

/// What `get_balance` returns. `balance` is the total; only
/// `unlocked_balance` can be spent.
#[derive(Clone, Copy, Debug, PartialEq, Eq, Structural)]
pub struct GetBalance {
    pub balance: u64,
    pub blocks_to_unlock: u32,
    pub multisig_import_needed: bool,
    pub time_to_unlock: u32,
    pub unlocked_balance: u64,
}

/// What `create_account` returns.
#[derive(Clone, Debug, PartialEq, Eq)]
pub struct CreateAccount {
    pub account_index: u32,
    pub address: String,
}

pub struct CreateAccountView {
    pub account_index: u32,
    pub address: Seq<char>,
}

impl View for CreateAccount {
    type V = CreateAccountView;

    open spec fn view(&self) -> CreateAccountView {
        CreateAccountView { account_index: self.account_index, address: self.address@ }
    }
}

/// One account as `get_accounts` lists it.
#[derive(Clone, Debug, PartialEq, Eq)]
pub struct SubAddressAccount {
    pub account_index: u32,
    pub balance: u64,
    pub base_address: String,
    pub label: String,
    pub tag: String,
    pub unlocked_balance: u64,
}

pub struct SubAddressAccountView {
    pub account_index: u32,
    pub balance: u64,
    pub base_address: Seq<char>,
    pub label: Seq<char>,
    pub tag: Seq<char>,
    pub unlocked_balance: u64,
}

impl View for SubAddressAccount {
    type V = SubAddressAccountView;

    open spec fn view(&self) -> SubAddressAccountView {
        SubAddressAccountView {
            account_index: self.account_index,
            balance: self.balance,
            base_address: self.base_address@,
            label: self.label@,
            tag: self.tag@,
            unlocked_balance: self.unlocked_balance,
        }
    }
}

/// What `get_accounts` returns.
#[derive(Clone, Debug, PartialEq, Eq)]
pub struct GetAccounts {
    pub subaddress_accounts: Vec<SubAddressAccount>,
    pub total_balance: u64,
    pub total_unlocked_balance: u64,
}

pub struct GetAccountsView {
    pub subaddress_accounts: Seq<SubAddressAccountView>,
    pub total_balance: u64,
    pub total_unlocked_balance: u64,
}

impl View for GetAccounts {
    type V = GetAccountsView;

    open spec fn view(&self) -> GetAccountsView {
        GetAccountsView {
            subaddress_accounts: Seq::new(
                self.subaddress_accounts@.len(),
                |i: int| self.subaddress_accounts@[i]@,
            ),
            total_balance: self.total_balance,
            total_unlocked_balance: self.total_unlocked_balance,
        }
    }
}

/// One payee of a transfer.
#[derive(Clone, Debug, PartialEq, Eq)]
pub struct Destination {
    pub amount: u64,
    pub address: String,
}

pub struct DestinationView {
    pub amount: u64,
    pub address: Seq<char>,
}

impl View for Destination {
    type V = DestinationView;

    open spec fn view(&self) -> DestinationView {
        DestinationView { amount: self.amount, address: self.address@ }
    }
}

impl DestinationView {
    /// This payee as the object `{"amount":..,"address":..}`.
    pub open spec fn text(self) -> Seq<char> {
        object_text(
            seq![("amount"@, decimal(self.amount as nat)), ("address"@, quoted(self.address))],
        )
    }
}

impl Destination {
    /// Writes this payee as JSON.
    pub fn encode(&self) -> (text: String)
        ensures
            text@ == self@.text(),
    {
        let mut members: Vec<(String, String)> = Vec::new();
        members.push(("amount".to_owned(), number(self.amount)));
        members.push(("address".to_owned(), string(self.address.as_str())));
        assert(pairs(members@) =~= seq![
            ("amount"@, decimal(self.amount as nat)),
            ("address"@, quoted(self.address@)),
        ]);
        object(&members)
    }
}

/// What `transfer` returns.
#[derive(Clone, Debug, PartialEq, Eq)]
pub struct Transfer {
    pub amount: u64,
    pub fee: u64,
    pub multisig_txset: String,
    pub tx_blob: String,
    pub tx_hash: String,
    pub tx_key: String,
    pub tx_metadata: String,
    pub unsigned_txset: String,
}

pub struct TransferView {
    pub amount: u64,
    pub fee: u64,
    pub multisig_txset: Seq<char>,
    pub tx_blob: Seq<char>,
    pub tx_hash: Seq<char>,
    pub tx_key: Seq<char>,
    pub tx_metadata: Seq<char>,
    pub unsigned_txset: Seq<char>,
}

impl View for Transfer {
    type V = TransferView;

    open spec fn view(&self) -> TransferView {
        TransferView {
            amount: self.amount,
            fee: self.fee,
            multisig_txset: self.multisig_txset@,
            tx_blob: self.tx_blob@,
            tx_hash: self.tx_hash@,
            tx_key: self.tx_key@,
            tx_metadata: self.tx_metadata@,
            unsigned_txset: self.unsigned_txset@,
        }
    }
}

/// The chain height as the wallet sees it.
#[derive(Clone, Copy, Debug, PartialEq, Eq, Structural)]
pub struct BlockHeight {
    pub height: u32,
}

/// The parameters `{"account_index":..}`.
pub open spec fn account_params(account_index: u32) -> Seq<char> {
    object_text(seq![("account_index"@, decimal(account_index as nat))])
}

fn write_account_params(account_index: u32) -> (text: String)
    ensures
        text@ == account_params(account_index),
{
    let mut members: Vec<(String, String)> = Vec::new();
    members.push(("account_index".to_owned(), number(account_index as u64)));
    object(&members)
}

/// The request for the address of an account.
pub fn get_address_request(account_index: u32) -> (request: Request<String>)
    ensures
        request.method_name() == "get_address"@,
        request.parameters()@ == account_params(account_index),
{
    Request::new("get_address", write_account_params(account_index))
}

/// The request for the balance of an account.
pub fn get_balance_request(account_index: u32) -> (request: Request<String>)
    ensures
        request.method_name() == "get_balance"@,
        request.parameters()@ == account_params(account_index),
{
    Request::new("get_balance", write_account_params(account_index))
}

/// The request for a new account called `label`.
pub fn create_account_request(label: &str) -> (request: Request<String>)
    ensures
        request.method_name() == "create_account"@,
        request.parameters()@ == object_text(seq![("label"@, quoted(label@))]),
{
    let mut members: Vec<(String, String)> = Vec::new();
    members.push(("label".to_owned(), string(label)));
    Request::new("create_account", object(&members))
}

/// The request for the accounts that carry `tag`; the empty tag asks for all.
pub fn get_accounts_request(tag: &str) -> (request: Request<String>)
    ensures
        request.method_name() == "get_accounts"@,
        request.parameters()@ == object_text(seq![("tag"@, quoted(tag@))]),
{
    let mut members: Vec<(String, String)> = Vec::new();
    members.push(("tag".to_owned(), string(tag)));
    Request::new("get_accounts", object(&members))
}

/// The language of every wallet this crate creates.
pub open spec fn wallet_language() -> Seq<char> {
    "English"@
}

/// The request for a new wallet file called `filename`.
pub fn create_wallet_request(filename: &str) -> (request: Request<String>)
    ensures
        request.method_name() == "create_wallet"@,
        request.parameters()@ == object_text(
            seq![("filename"@, quoted(filename@)), ("language"@, quoted(wallet_language()))],
        ),
{
    let mut members: Vec<(String, String)> = Vec::new();
    members.push(("filename".to_owned(), string(filename)));
    members.push(("language".to_owned(), string("English")));
    assert(pairs(members@) =~= seq![
        ("filename"@, quoted(filename@)),
        ("language"@, quoted(wallet_language())),
    ]);
    Request::new("create_wallet", object(&members))
}

/// The payees that a vector of destinations holds.
pub open spec fn payees(destinations: Seq<Destination>) -> Seq<DestinationView> {
    Seq::new(destinations.len(), |i: int| destinations[i]@)
}

/// The parameters of a transfer from `account_index` to `payees`.
pub open spec fn transfer_params(account_index: u32, payees: Seq<DestinationView>) -> Seq<char> {
    object_text(
        seq![
            ("account_index"@, decimal(account_index as nat)),
            ("destinations"@, array_text(Seq::new(payees.len(), |i: int| payees[i].text()))),
        ],
    )
}

/// The request for one transaction that pays every one of `destinations`
/// from the account `account_index`.
pub fn transfer_request(account_index: u32, destinations: &Vec<Destination>) -> (request: Request<
    String,
>)
    requires
        destinations@.len() > 0,
    ensures
        request.method_name() == "transfer"@,
        request.parameters()@ == transfer_params(account_index, payees(destinations@)),
{
    let mut written: Vec<String> = Vec::new();
    let mut i: usize = 0;
    while i < destinations.len()
        invariant
            i <= destinations@.len(),
            written@.len() == i,
            forall|k: int| 0 <= k < i ==> (#[trigger] written@[k])@ == destinations@[k]@.text(),
        decreases destinations@.len() - i,
    {
        written.push(destinations[i].encode());
        i += 1;
    }
    let ghost all = payees(destinations@);
    assert(texts(written@) =~= Seq::new(all.len(), |i: int| all[i].text()));
    let mut members: Vec<(String, String)> = Vec::new();
    members.push(("account_index".to_owned(), number(account_index as u64)));
    members.push(("destinations".to_owned(), array(&written)));
    assert(pairs(members@) =~= seq![
        ("account_index"@, decimal(account_index as nat)),
        ("destinations"@, array_text(Seq::new(all.len(), |i: int| all[i].text()))),
    ]);
    Request::new("transfer", object(&members))
}

/// The request for a transfer of `amount` to the one payee `address`.
pub fn transfer_to_request(account_index: u32, amount: u64, address: &str) -> (request: Request<
    String,
>)
    ensures
        request.method_name() == "transfer"@,
        request.parameters()@ == transfer_params(
            account_index,
            seq![(DestinationView { amount, address: address@ })],
        ),
{
    let mut destinations: Vec<Destination> = Vec::new();
    destinations.push(Destination { amount, address: address.to_owned() });
    transfer_request(account_index, &destinations)
}

/// The request for the height up to which the wallet has read the chain.
/// Its parameters are the empty string.
pub fn block_height_request() -> (request: Request<String>)
    ensures
        request.method_name() == "get_height"@,
        request.parameters()@ == quoted(Seq::<char>::empty()),
{
    proof {
        reveal_strlit("");
    }
    Request::new("get_height", string(""))
}

impl GetAddressResponse {
    /// The value that `result` stands for, where it has an `address`.
    pub open spec fn decoded(result: JsonModel) -> Option<GetAddressResponseView> {
        match result.text_at("address"@) {
            Some(address) => Some(GetAddressResponseView { address }),
            None => None,
        }
    }

    /// Reads the result of `get_address`.
    pub fn from_json(result: &Json) -> (r: Option<GetAddressResponse>)
        ensures
            match r {
                Some(value) => Self::decoded(result@) == Some(value@),
                None => Self::decoded(result@) is None,
            },
    {
        match result.text_at("address") {
            Some(address) => Some(GetAddressResponse { address }),
            None => None,
        }
    }
}

impl GetBalance {
    /// The value that `result` stands for, where it has all five members.
    pub open spec fn decoded(result: JsonModel) -> Option<GetBalance> {
        if result.u64_at("balance"@) is Some && result.u32_at("blocks_to_unlock"@) is Some
            && result.bool_at("multisig_import_needed"@) is Some && result.u32_at(
            "time_to_unlock"@,
        ) is Some && result.u64_at("unlocked_balance"@) is Some {
            Some(
                GetBalance {
                    balance: result.u64_at("balance"@).unwrap(),
                    blocks_to_unlock: result.u32_at("blocks_to_unlock"@).unwrap(),
                    multisig_import_needed: result.bool_at("multisig_import_needed"@).unwrap(),
                    time_to_unlock: result.u32_at("time_to_unlock"@).unwrap(),
                    unlocked_balance: result.u64_at("unlocked_balance"@).unwrap(),
                },
            )
        } else {
            None
        }
    }

    /// Reads the result of `get_balance`.
    pub fn from_json(result: &Json) -> (r: Option<GetBalance>)
        ensures
            r == Self::decoded(result@),
    {
        let balance = match result.u64_at("balance") {
            Some(n) => n,
            None => { return None; },
        };
        let blocks_to_unlock = match result.u32_at("blocks_to_unlock") {
            Some(n) => n,
            None => { return None; },
        };
        let multisig_import_needed = match result.bool_at("multisig_import_needed") {
            Some(b) => b,
            None => { return None; },
        };
        let time_to_unlock = match result.u32_at("time_to_unlock") {
            Some(n) => n,
            None => { return None; },
        };
        let unlocked_balance = match result.u64_at("unlocked_balance") {
            Some(n) => n,
            None => { return None; },
        };
        Some(
            GetBalance {
                balance,
                blocks_to_unlock,
                multisig_import_needed,
                time_to_unlock,
                unlocked_balance,
            },
        )
    }
}

impl CreateAccount {
    /// The value that `result` stands for, where it has both members.
    pub open spec fn decoded(result: JsonModel) -> Option<CreateAccountView> {
        if result.u32_at("account_index"@) is Some && result.text_at("address"@) is Some {
            Some(
                CreateAccountView {
                    account_index: result.u32_at("account_index"@).unwrap(),
                    address: result.text_at("address"@).unwrap(),
                },
            )
        } else {
            None
        }
    }

    /// Reads the result of `create_account`.
    pub fn from_json(result: &Json) -> (r: Option<CreateAccount>)
        ensures
            match r {
                Some(value) => Self::decoded(result@) == Some(value@),
                None => Self::decoded(result@) is None,
            },
    {
        let account_index = match result.u32_at("account_index") {
            Some(n) => n,
            None => { return None; },
        };
        let address = match result.text_at("address") {
            Some(s) => s,
            None => { return None; },
        };
        Some(CreateAccount { account_index, address })
    }
}

impl SubAddressAccount {
    /// The value that `entry` stands for, where it has all six members.
    pub open spec fn decoded(entry: JsonModel) -> Option<SubAddressAccountView> {
        if entry.u32_at("account_index"@) is Some && entry.u64_at("balance"@) is Some
            && entry.text_at("base_address"@) is Some && entry.text_at("label"@) is Some
            && entry.text_at("tag"@) is Some && entry.u64_at("unlocked_balance"@) is Some {
            Some(
                SubAddressAccountView {
                    account_index: entry.u32_at("account_index"@).unwrap(),
                    balance: entry.u64_at("balance"@).unwrap(),
                    base_address: entry.text_at("base_address"@).unwrap(),
                    label: entry.text_at("label"@).unwrap(),
                    tag: entry.text_at("tag"@).unwrap(),
                    unlocked_balance: entry.u64_at("unlocked_balance"@).unwrap(),
                },
            )
        } else {
            None
        }
    }

    /// Reads one entry of the list that `get_accounts` returns.
    pub fn from_json(entry: &Json) -> (r: Option<SubAddressAccount>)
        ensures
            match r {
                Some(value) => Self::decoded(entry@) == Some(value@),
                None => Self::decoded(entry@) is None,
            },
    {
        let account_index = match entry.u32_at("account_index") {
            Some(n) => n,
            None => { return None; },
        };
        let balance = match entry.u64_at("balance") {
            Some(n) => n,
            None => { return None; },
        };
        let base_address = match entry.text_at("base_address") {
            Some(s) => s,
            None => { return None; },
        };
        let label = match entry.text_at("label") {
            Some(s) => s,
            None => { return None; },
        };
        let tag = match entry.text_at("tag") {
            Some(s) => s,
            None => { return None; },
        };
        let unlocked_balance = match entry.u64_at("unlocked_balance") {
            Some(n) => n,
            None => { return None; },
        };
        Some(
            SubAddressAccount { account_index, balance, base_address, label, tag, unlocked_balance },
        )
    }
}

/// The accounts that `entries` stand for, where every entry is an account.
pub open spec fn decoded_accounts(entries: Seq<JsonModel>) -> Option<Seq<SubAddressAccountView>> {
    if forall|i: int| 0 <= i < entries.len() ==> SubAddressAccount::decoded(#[trigger] entries[i]) is Some {
        Some(Seq::new(entries.len(), |i: int| SubAddressAccount::decoded(entries[i]).unwrap()))
    } else {
        None
    }
}

impl GetAccounts {
    /// The value that `result` stands for, where it has the list of accounts
    /// and both totals.
    pub open spec fn decoded(result: JsonModel) -> Option<GetAccountsView> {
        match result.member("subaddress_accounts"@) {
            Some(JsonModel::Array(entries)) => {
                if decoded_accounts(entries) is Some && result.u64_at("total_balance"@) is Some
                    && result.u64_at("total_unlocked_balance"@) is Some {
                    Some(
                        GetAccountsView {
                            subaddress_accounts: decoded_accounts(entries).unwrap(),
                            total_balance: result.u64_at("total_balance"@).unwrap(),
                            total_unlocked_balance: result.u64_at(
                                "total_unlocked_balance"@,
                            ).unwrap(),
                        },
                    )
                } else {
                    None
                }
            },
            _ => None,
        }
    }

    /// Reads the result of `get_accounts`.
    pub fn from_json(result: &Json) -> (r: Option<GetAccounts>)
        ensures
            match r {
                Some(value) => Self::decoded(result@) == Some(value@),
                None => Self::decoded(result@) is None,
            },
    {
        let list = match result.get("subaddress_accounts") {
            Some(list) => list,
            None => { return None; },
        };
        let entries = match list.as_array() {
            Some(entries) => entries,
            None => { return None; },
        };
        let ghost models = list@->Array_0;
        let mut accounts: Vec<SubAddressAccount> = Vec::new();
        let mut i: usize = 0;
        while i < entries.len()
            invariant
                i <= entries@.len(),
                accounts@.len() == i,
                result@.member("subaddress_accounts"@) == Some(list@),
                list@ == JsonModel::Array(models),
                models.len() == entries@.len(),
                forall|k: int| 0 <= k < entries@.len() ==> #[trigger] models[k] == entries@[k]@,
                forall|k: int|
                    0 <= k < i ==> SubAddressAccount::decoded(#[trigger] models[k]) == Some(
                        accounts@[k]@,
                    ),
            decreases entries@.len() - i,
        {
            match SubAddressAccount::from_json(&entries[i]) {
                Some(account) => {
                    accounts.push(account);
                },
                None => {
                    assert(SubAddressAccount::decoded(models[i as int]) is None);
                    return None;
                },
            }
            i += 1;
        }
        let total_balance = match result.u64_at("total_balance") {
            Some(n) => n,
            None => { return None; },
        };
        let total_unlocked_balance = match result.u64_at("total_unlocked_balance") {
            Some(n) => n,
            None => { return None; },
        };
        let read = GetAccounts { subaddress_accounts: accounts, total_balance, total_unlocked_balance };
        assert(read@.subaddress_accounts =~= decoded_accounts(models).unwrap());
        Some(read)
    }
}

impl Transfer {
    /// The value that `result` stands for, where it has all eight members.
    pub open spec fn decoded(result: JsonModel) -> Option<TransferView> {
        if result.u64_at("amount"@) is Some && result.u64_at("fee"@) is Some && result.text_at(
            "multisig_txset"@,
        ) is Some && result.text_at("tx_blob"@) is Some && result.text_at("tx_hash"@) is Some
            && result.text_at("tx_key"@) is Some && result.text_at("tx_metadata"@) is Some
            && result.text_at("unsigned_txset"@) is Some {
            Some(
                TransferView {
                    amount: result.u64_at("amount"@).unwrap(),
                    fee: result.u64_at("fee"@).unwrap(),
                    multisig_txset: result.text_at("multisig_txset"@).unwrap(),
                    tx_blob: result.text_at("tx_blob"@).unwrap(),
                    tx_hash: result.text_at("tx_hash"@).unwrap(),
                    tx_key: result.text_at("tx_key"@).unwrap(),
                    tx_metadata: result.text_at("tx_metadata"@).unwrap(),
                    unsigned_txset: result.text_at("unsigned_txset"@).unwrap(),
                },
            )
        } else {
            None
        }
    }

    /// Reads the result of `transfer`.
    pub fn from_json(result: &Json) -> (r: Option<Transfer>)
        ensures
            match r {
                Some(value) => Self::decoded(result@) == Some(value@),
                None => Self::decoded(result@) is None,
            },
    {
        let amount = match result.u64_at("amount") {
            Some(n) => n,
            None => { return None; },
        };
        let fee = match result.u64_at("fee") {
            Some(n) => n,
            None => { return None; },
        };
        let multisig_txset = match result.text_at("multisig_txset") {
            Some(s) => s,
            None => { return None; },
        };
        let tx_blob = match result.text_at("tx_blob") {
            Some(s) => s,
            None => { return None; },
        };
        let tx_hash = match result.text_at("tx_hash") {
            Some(s) => s,
            None => { return None; },
        };
        let tx_key = match result.text_at("tx_key") {
            Some(s) => s,
            None => { return None; },
        };
        let tx_metadata = match result.text_at("tx_metadata") {
            Some(s) => s,
            None => { return None; },
        };
        let unsigned_txset = match result.text_at("unsigned_txset") {
            Some(s) => s,
            None => { return None; },
        };
        Some(
            Transfer {
                amount,
                fee,
                multisig_txset,
                tx_blob,
                tx_hash,
                tx_key,
                tx_metadata,
                unsigned_txset,
            },
        )
    }
}

impl BlockHeight {
    /// The value that `result` stands for, where it has a `height`.
    pub open spec fn decoded(result: JsonModel) -> Option<BlockHeight> {
        match result.u32_at("height"@) {
            Some(height) => Some(BlockHeight { height }),
            None => None,
        }
    }

    /// Reads the result of `get_height`.
    pub fn from_json(result: &Json) -> (r: Option<BlockHeight>)
        ensures
            r == Self::decoded(result@),
    {
        match result.u32_at("height") {
            Some(height) => Some(BlockHeight { height }),
            None => None,
        }
    }
}

/// What a reply to `get_address` means.
pub open spec fn address_of_reply(status: u16, document: Option<JsonModel>) -> Result<
    GetAddressResponseView,
    Failure,
> {
    match envelope_result(status, document) {
        Ok(result) => match GetAddressResponse::decoded(result) {
            Some(value) => Ok(value),
            None => Err(Failure::MalformedResponse),
        },
        Err(failure) => Err(failure),
    }
}

/// Reads the reply to `get_address`.
pub fn get_address_result(reply: &Reply) -> (r: Result<GetAddressResponse, Failure>)
    ensures
        match r {
            Ok(value) => address_of_reply(reply.status, reply.document_model()) == Ok::<
                GetAddressResponseView,
                Failure,
            >(value@),
            Err(failure) => address_of_reply(reply.status, reply.document_model()) == Err::<
                GetAddressResponseView,
                Failure,
            >(failure),
        },
{
    match reply.result() {
        Ok(result) => match GetAddressResponse::from_json(result) {
            Some(value) => Ok(value),
            None => Err(Failure::MalformedResponse),
        },
        Err(failure) => Err(failure),
    }
}

/// What a reply to `get_balance` means.
pub open spec fn balance_of_reply(status: u16, document: Option<JsonModel>) -> Result<
    GetBalance,
    Failure,
> {
    match envelope_result(status, document) {
        Ok(result) => match GetBalance::decoded(result) {
            Some(value) => Ok(value),
            None => Err(Failure::MalformedResponse),
        },
        Err(failure) => Err(failure),
    }
}

/// Reads the reply to `get_balance`.
pub fn get_balance_result(reply: &Reply) -> (r: Result<GetBalance, Failure>)
    ensures
        r == balance_of_reply(reply.status, reply.document_model()),
{
    match reply.result() {
        Ok(result) => match GetBalance::from_json(result) {
            Some(value) => Ok(value),
            None => Err(Failure::MalformedResponse),
        },
        Err(failure) => Err(failure),
    }
}

/// What a reply to `get_balance` gives as the balance of the account: the
/// total, which may be more than what can be spent.
pub fn total_balance_result(reply: &Reply) -> (r: Result<u64, Failure>)
    ensures
        r == match balance_of_reply(reply.status, reply.document_model()) {
            Ok(b) => Ok(b.balance),
            Err(f) => Err(f),
        },
{
    match get_balance_result(reply) {
        Ok(balance) => Ok(balance.balance),
        Err(failure) => Err(failure),
    }
}

/// What a reply to `create_account` means.
pub open spec fn account_of_reply(status: u16, document: Option<JsonModel>) -> Result<
    CreateAccountView,
    Failure,
> {
    match envelope_result(status, document) {
        Ok(result) => match CreateAccount::decoded(result) {
            Some(value) => Ok(value),
            None => Err(Failure::MalformedResponse),
        },
        Err(failure) => Err(failure),
    }
}

/// Reads the reply to `create_account`.
pub fn create_account_result(reply: &Reply) -> (r: Result<CreateAccount, Failure>)
    ensures
        match r {
            Ok(value) => account_of_reply(reply.status, reply.document_model()) == Ok::<
                CreateAccountView,
                Failure,
            >(value@),
            Err(failure) => account_of_reply(reply.status, reply.document_model()) == Err::<
                CreateAccountView,
                Failure,
            >(failure),
        },
{
    match reply.result() {
        Ok(result) => match CreateAccount::from_json(result) {
            Some(value) => Ok(value),
            None => Err(Failure::MalformedResponse),
        },
        Err(failure) => Err(failure),
    }
}

/// What a reply to `get_accounts` means.
pub open spec fn accounts_of_reply(status: u16, document: Option<JsonModel>) -> Result<
    GetAccountsView,
    Failure,
> {
    match envelope_result(status, document) {
        Ok(result) => match GetAccounts::decoded(result) {
            Some(value) => Ok(value),
            None => Err(Failure::MalformedResponse),
        },
        Err(failure) => Err(failure),
    }
}

/// Reads the reply to `get_accounts`.
pub fn get_accounts_result(reply: &Reply) -> (r: Result<GetAccounts, Failure>)
    ensures
        match r {
            Ok(value) => accounts_of_reply(reply.status, reply.document_model()) == Ok::<
                GetAccountsView,
                Failure,
            >(value@),
            Err(failure) => accounts_of_reply(reply.status, reply.document_model()) == Err::<
                GetAccountsView,
                Failure,
            >(failure),
        },
{
    match reply.result() {
        Ok(result) => match GetAccounts::from_json(result) {
            Some(value) => Ok(value),
            None => Err(Failure::MalformedResponse),
        },
        Err(failure) => Err(failure),
    }
}

/// What a reply to `create_wallet` means: any `result` is success.
pub open spec fn wallet_of_reply(status: u16, document: Option<JsonModel>) -> Result<(), Failure> {
    match envelope_result(status, document) {
        Ok(_) => Ok(()),
        Err(failure) => Err(failure),
    }
}

/// A wallet that the service refuses to create is never taken for created:
/// whatever else the reply holds, an `error` member in its envelope makes it
/// an `RpcError`. So does the second of two calls with one file name end.
pub proof fn refused_wallet_is_an_error(status: u16, envelope: JsonModel)
    requires
        envelope.member("error"@) is Some,
    ensures
        wallet_of_reply(status, Some(envelope)) == Err::<(), Failure>(Failure::RpcError),
{
}

/// Reads the reply to `create_wallet`.
pub fn create_wallet_result(reply: &Reply) -> (r: Result<(), Failure>)
    ensures
        r == wallet_of_reply(reply.status, reply.document_model()),
{
    match reply.result() {
        Ok(_) => Ok(()),
        Err(failure) => Err(failure),
    }
}

/// What a reply to `transfer` means.
pub open spec fn transfer_of_reply(status: u16, document: Option<JsonModel>) -> Result<
    TransferView,
    Failure,
> {
    match envelope_result(status, document) {
        Ok(result) => match Transfer::decoded(result) {
            Some(value) => Ok(value),
            None => Err(Failure::MalformedResponse),
        },
        Err(failure) => Err(failure),
    }
}

/// Reads the reply to `transfer`.
pub fn transfer_result(reply: &Reply) -> (r: Result<Transfer, Failure>)
    ensures
        match r {
            Ok(value) => transfer_of_reply(reply.status, reply.document_model()) == Ok::<
                TransferView,
                Failure,
            >(value@),
            Err(failure) => transfer_of_reply(reply.status, reply.document_model()) == Err::<
                TransferView,
                Failure,
            >(failure),
        },
{
    match reply.result() {
        Ok(result) => match Transfer::from_json(result) {
            Some(value) => Ok(value),
            None => Err(Failure::MalformedResponse),
        },
        Err(failure) => Err(failure),
    }
}

/// What a reply to `get_height` means.
pub open spec fn height_of_reply(status: u16, document: Option<JsonModel>) -> Result<
    BlockHeight,
    Failure,
> {
    match envelope_result(status, document) {
        Ok(result) => match BlockHeight::decoded(result) {
            Some(value) => Ok(value),
            None => Err(Failure::MalformedResponse),
        },
        Err(failure) => Err(failure),
    }
}

/// Reads the reply to `get_height`.
pub fn block_height_result(reply: &Reply) -> (r: Result<BlockHeight, Failure>)
    ensures
        r == height_of_reply(reply.status, reply.document_model()),
{
    match reply.result() {
        Ok(result) => match BlockHeight::from_json(result) {
            Some(value) => Ok(value),
            None => Err(Failure::MalformedResponse),
        },
        Err(failure) => Err(failure),
    }
}

} // verus!
