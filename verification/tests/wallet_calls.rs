use monero_harness::failure::Failure;
use monero_harness::json::Json;
use monero_harness::wallet::{
    block_height_request, block_height_result, create_account_request, create_account_result,
    create_wallet_request, create_wallet_result, get_accounts_request, get_accounts_result,
    get_address_request, get_address_result, get_balance_request, get_balance_result,
    total_balance_result, transfer_request, transfer_result, transfer_to_request, BlockHeight, CreateAccount,
    Destination, GetAccounts, GetAddressResponse, GetBalance, SubAddressAccount, Transfer,
    ACCOUNT_INDEX_FIRST_PARTY, ACCOUNT_INDEX_PRIMARY, ACCOUNT_INDEX_SECOND_PARTY,
};
use monero_harness::Reply;

fn wrap(result: &str) -> String {
    format!("{{\"id\":\"1\",\"jsonrpc\":\"2.0\",\"result\":{}}}", result)
}

fn envelope(method: &str, params: &str) -> String {
    format!(
        "{{\"jsonrpc\":\"2.0\",\"id\":\"1\",\"method\":\"{}\",\"params\":{}}}",
        method, params
    )
}

#[test]
fn account_indices_are_fixed() {
    assert_eq!(ACCOUNT_INDEX_PRIMARY, 0);
    assert_eq!(ACCOUNT_INDEX_FIRST_PARTY, 1);
    assert_eq!(ACCOUNT_INDEX_SECOND_PARTY, 2);
}

#[test]
fn address_request_names_the_account() {
    let request = get_address_request(0);
    assert_eq!(request.method(), "get_address");
    assert_eq!(request.encode(), envelope("get_address", "{\"account_index\":0}"));
    assert_eq!(
        get_address_request(2).encode(),
        envelope("get_address", "{\"account_index\":2}")
    );
}

#[test]
fn balance_request_names_the_account() {
    assert_eq!(
        get_balance_request(1).encode(),
        envelope("get_balance", "{\"account_index\":1}")
    );
}

#[test]
fn create_account_request_carries_the_label() {
    assert_eq!(
        create_account_request("Arbitrary Label").encode(),
        envelope("create_account", "{\"label\":\"Arbitrary Label\"}")
    );
    assert_eq!(
        create_account_request("a \"b\"").encode(),
        envelope("create_account", "{\"label\":\"a \\\"b\\\"\"}")
    );
}

#[test]
fn get_accounts_request_carries_the_tag() {
    assert_eq!(get_accounts_request("").encode(), envelope("get_accounts", "{\"tag\":\"\"}"));
    assert_eq!(
        get_accounts_request("mine").encode(),
        envelope("get_accounts", "{\"tag\":\"mine\"}")
    );
}

#[test]
fn create_wallet_request_fixes_the_language() {
    assert_eq!(
        create_wallet_request("miner_wallet").encode(),
        envelope("create_wallet", "{\"filename\":\"miner_wallet\",\"language\":\"English\"}")
    );
}

#[test]
fn transfer_request_lists_every_destination() {
    let destinations = vec![
        Destination { amount: 1000, address: "4alice".to_string() },
        Destination { amount: 500, address: "4bob".to_string() },
    ];
    assert_eq!(
        transfer_request(0, &destinations).encode(),
        envelope(
            "transfer",
            "{\"account_index\":0,\"destinations\":[{\"amount\":1000,\"address\":\"4alice\"},{\"amount\":500,\"address\":\"4bob\"}]}"
        )
    );
}

#[test]
fn transfer_to_request_has_one_destination() {
    assert_eq!(
        transfer_to_request(1, 100, "4bob").encode(),
        envelope(
            "transfer",
            "{\"account_index\":1,\"destinations\":[{\"amount\":100,\"address\":\"4bob\"}]}"
        )
    );
    let one = vec![Destination { amount: 100, address: "4bob".to_string() }];
    assert_eq!(transfer_to_request(1, 100, "4bob").encode(), transfer_request(1, &one).encode());
}

#[test]
fn destination_writes_amount_then_address() {
    let destination = Destination { amount: u64::MAX, address: "x".to_string() };
    assert_eq!(destination.encode(), "{\"amount\":18446744073709551615,\"address\":\"x\"}");
}

#[test]
fn height_request_has_an_empty_string_for_params() {
    let request = block_height_request();
    assert_eq!(request.method(), "get_height");
    assert_eq!(request.encode(), envelope("get_height", "\"\""));
}

#[test]
fn address_is_read() {
    let body = wrap("{\"address\":\"4primary\",\"addresses\":[{\"address\":\"4primary\",\"address_index\":0,\"label\":\"Primary account\",\"used\":false}]}");
    assert_eq!(
        get_address_result(&Reply::read(200, &body)),
        Ok(GetAddressResponse { address: "4primary".to_string() })
    );
    assert_eq!(
        get_address_result(&Reply::read(200, &wrap("{\"address\":4}"))),
        Err(Failure::MalformedResponse)
    );
    assert_eq!(
        get_address_result(&Reply::read(200, &wrap("{}"))),
        Err(Failure::MalformedResponse)
    );
    assert_eq!(GetAddressResponse::from_json(&Json::Null), None);
}

#[test]
fn balance_is_read() {
    let body = wrap("{\"balance\":157443303037455077,\"blocks_to_unlock\":59,\"multisig_import_needed\":false,\"per_subaddress\":[],\"time_to_unlock\":0,\"unlocked_balance\":1000}");
    assert_eq!(
        get_balance_result(&Reply::read(200, &body)),
        Ok(GetBalance {
            balance: 157443303037455077,
            blocks_to_unlock: 59,
            multisig_import_needed: false,
            time_to_unlock: 0,
            unlocked_balance: 1000,
        })
    );
}

#[test]
fn balance_of_a_fresh_wallet_is_zero() {
    let body = wrap("{\"balance\":0,\"blocks_to_unlock\":0,\"multisig_import_needed\":false,\"time_to_unlock\":0,\"unlocked_balance\":0}");
    let got = get_balance_result(&Reply::read(200, &body)).expect("failed to get balance").balance;
    let want = 0;
    assert_eq!(got, want);
}

#[test]
fn balance_needs_every_member() {
    let names =
        ["balance", "blocks_to_unlock", "multisig_import_needed", "time_to_unlock", "unlocked_balance"];
    for skip in names {
        let mut members = Vec::new();
        for name in names {
            if name != skip {
                let value =
                    if name == "multisig_import_needed" { Json::Bool(true) } else { Json::Unsigned(1) };
                members.push((name.to_string(), value));
            }
        }
        assert_eq!(GetBalance::from_json(&Json::Object(members)), None);
    }
    let body = wrap("{\"balance\":-5,\"blocks_to_unlock\":0,\"multisig_import_needed\":false,\"time_to_unlock\":0,\"unlocked_balance\":0}");
    assert_eq!(get_balance_result(&Reply::read(200, &body)), Err(Failure::MalformedResponse));
}

#[test]
fn created_account_is_read() {
    let body = wrap("{\"account_index\":1,\"address\":\"8alice\"}");
    assert_eq!(
        create_account_result(&Reply::read(200, &body)),
        Ok(CreateAccount { account_index: 1, address: "8alice".to_string() })
    );
    assert_eq!(
        create_account_result(&Reply::read(200, &wrap("{\"account_index\":1}"))),
        Err(Failure::MalformedResponse)
    );
    assert_eq!(
        create_account_result(&Reply::read(200, &wrap("{\"address\":\"8alice\"}"))),
        Err(Failure::MalformedResponse)
    );
}

#[test]
fn accounts_are_read_in_order() {
    let body = wrap("{\"subaddress_accounts\":[{\"account_index\":0,\"balance\":0,\"base_address\":\"4primary\",\"label\":\"Primary account\",\"tag\":\"\",\"unlocked_balance\":0},{\"account_index\":1,\"balance\":7,\"base_address\":\"8x\",\"label\":\"Arbitrary Label\",\"tag\":\"t\",\"unlocked_balance\":3}],\"total_balance\":7,\"total_unlocked_balance\":3}");
    assert_eq!(
        get_accounts_result(&Reply::read(200, &body)),
        Ok(GetAccounts {
            subaddress_accounts: vec![
                SubAddressAccount {
                    account_index: 0,
                    balance: 0,
                    base_address: "4primary".to_string(),
                    label: "Primary account".to_string(),
                    tag: "".to_string(),
                    unlocked_balance: 0,
                },
                SubAddressAccount {
                    account_index: 1,
                    balance: 7,
                    base_address: "8x".to_string(),
                    label: "Arbitrary Label".to_string(),
                    tag: "t".to_string(),
                    unlocked_balance: 3,
                },
            ],
            total_balance: 7,
            total_unlocked_balance: 3,
        })
    );
}

#[test]
fn accounts_may_be_none() {
    let body = wrap("{\"subaddress_accounts\":[],\"total_balance\":0,\"total_unlocked_balance\":0}");
    assert_eq!(
        get_accounts_result(&Reply::read(200, &body)),
        Ok(GetAccounts { subaddress_accounts: vec![], total_balance: 0, total_unlocked_balance: 0 })
    );
}

#[test]
fn accounts_fail_on_one_bad_entry() {
    let body = wrap("{\"subaddress_accounts\":[{\"account_index\":0,\"balance\":0,\"base_address\":\"4primary\",\"label\":\"Primary account\",\"tag\":\"\",\"unlocked_balance\":0},{\"account_index\":1}],\"total_balance\":7,\"total_unlocked_balance\":3}");
    assert_eq!(get_accounts_result(&Reply::read(200, &body)), Err(Failure::MalformedResponse));
    let body = wrap("{\"subaddress_accounts\":{},\"total_balance\":7,\"total_unlocked_balance\":3}");
    assert_eq!(get_accounts_result(&Reply::read(200, &body)), Err(Failure::MalformedResponse));
    let body = wrap("{\"subaddress_accounts\":[],\"total_balance\":7}");
    assert_eq!(get_accounts_result(&Reply::read(200, &body)), Err(Failure::MalformedResponse));
    let body = wrap("{\"total_balance\":7,\"total_unlocked_balance\":3}");
    assert_eq!(get_accounts_result(&Reply::read(200, &body)), Err(Failure::MalformedResponse));
}

#[test]
fn listed_balance_may_be_any_amount() {
    let body = wrap("{\"subaddress_accounts\":[{\"account_index\":0,\"balance\":5000000000,\"base_address\":\"4A\",\"label\":\"Primary account\",\"tag\":\"\",\"unlocked_balance\":0}],\"total_balance\":5000000000,\"total_unlocked_balance\":0}");
    let accounts = get_accounts_result(&Reply::read(200, &body)).unwrap();
    assert_eq!(accounts.subaddress_accounts.len(), 1);
    assert_eq!(accounts.subaddress_accounts[0].balance, 5000000000);
    assert_eq!(accounts.subaddress_accounts[0].unlocked_balance, 0);
    assert_eq!(accounts.total_balance, 5000000000);
    assert_eq!(accounts.total_unlocked_balance, 0);

    let entry = Json::Object(vec![
        ("account_index".to_string(), Json::Unsigned(0)),
        ("balance".to_string(), Json::Unsigned(u64::MAX)),
        ("base_address".to_string(), Json::String("4".to_string())),
        ("label".to_string(), Json::String("l".to_string())),
        ("tag".to_string(), Json::String("".to_string())),
        ("unlocked_balance".to_string(), Json::Unsigned(17592186044415)),
    ]);
    let account = SubAddressAccount::from_json(&entry).unwrap();
    assert_eq!(account.balance, u64::MAX);
    assert_eq!(account.unlocked_balance, 17592186044415);
}

#[test]
fn listed_balance_must_be_an_unsigned_number() {
    for balance in ["-1", "1.5", "\"7\"", "18446744073709551616"] {
        let body = wrap(&format!("{{\"subaddress_accounts\":[{{\"account_index\":0,\"balance\":{},\"base_address\":\"4A\",\"label\":\"Primary account\",\"tag\":\"\",\"unlocked_balance\":0}}],\"total_balance\":0,\"total_unlocked_balance\":0}}", balance));
        assert_eq!(get_accounts_result(&Reply::read(200, &body)), Err(Failure::MalformedResponse));
    }
}

#[test]
fn total_balance_is_the_total_of_the_reply() {
    let body = wrap("{\"balance\":157443303037455077,\"blocks_to_unlock\":59,\"multisig_import_needed\":false,\"time_to_unlock\":0,\"unlocked_balance\":1000}");
    assert_eq!(total_balance_result(&Reply::read(200, &body)), Ok(157443303037455077));
    assert_eq!(total_balance_result(&Reply::read(500, &body)), Err(Failure::RpcError));
    assert_eq!(
        total_balance_result(&Reply::read(200, &wrap("{\"balance\":1}"))),
        Err(Failure::MalformedResponse)
    );
}

#[test]
fn created_wallet_is_success_whatever_the_result() {
    assert_eq!(create_wallet_result(&Reply::read(200, &wrap("{}"))), Ok(()));
    assert_eq!(create_wallet_result(&Reply::read(200, &wrap("null"))), Ok(()));
}

#[test]
fn wallet_that_exists_is_rpc_error() {
    let body = "{\"error\":{\"code\":-21,\"message\":\"Cannot create wallet. Already exists.\"},\"id\":\"1\",\"jsonrpc\":\"2.0\"}";
    assert_eq!(create_wallet_result(&Reply::read(200, body)), Err(Failure::RpcError));
    assert_eq!(create_wallet_result(&Reply::read(500, &wrap("{}"))), Err(Failure::RpcError));
    assert_eq!(create_wallet_result(&Reply::read(200, "")), Err(Failure::RpcError));
    assert_eq!(
        create_wallet_result(&Reply::read(200, "{\"id\":\"1\"}")),
        Err(Failure::MalformedResponse)
    );
}

#[test]
fn transfer_is_read() {
    let body = wrap("{\"amount\":1000,\"fee\":86897600000,\"multisig_txset\":\"\",\"tx_blob\":\"\",\"tx_hash\":\"7663438de4f72b25a0e395b770ea9ecf7108cd2f0c4b75be0b14a103d3362be9\",\"tx_key\":\"25c9d8ec20045c80c93d665c9d3684aab7335f8b2cd02e1ba2638485afd1c70e236c4bdd7a2f1cb511dbf466f13421bdf8df988b7b969c448ca6239d7251490e4bf1bbf9f6ffacffdcdc93b9d1648ec499eada4d6b4e02ce92d4a1c0452e5d009fbbbf15b549df8856205a4c7bda6338d82c823f911acd00cb75850b198c5803\",\"tx_metadata\":\"\",\"unsigned_txset\":\"\"}");
    let got = transfer_result(&Reply::read(200, &body)).unwrap();
    assert_eq!(
        got,
        Transfer {
            amount: 1000,
            fee: 86897600000,
            multisig_txset: "".to_string(),
            tx_blob: "".to_string(),
            tx_hash: "7663438de4f72b25a0e395b770ea9ecf7108cd2f0c4b75be0b14a103d3362be9"
                .to_string(),
            tx_key: "25c9d8ec20045c80c93d665c9d3684aab7335f8b2cd02e1ba2638485afd1c70e236c4bdd7a2f1cb511dbf466f13421bdf8df988b7b969c448ca6239d7251490e4bf1bbf9f6ffacffdcdc93b9d1648ec499eada4d6b4e02ce92d4a1c0452e5d009fbbbf15b549df8856205a4c7bda6338d82c823f911acd00cb75850b198c5803".to_string(),
            tx_metadata: "".to_string(),
            unsigned_txset: "".to_string(),
        }
    );
}

#[test]
fn transfer_needs_every_member() {
    let names = [
        "amount",
        "fee",
        "multisig_txset",
        "tx_blob",
        "tx_hash",
        "tx_key",
        "tx_metadata",
        "unsigned_txset",
    ];
    for skip in names {
        let mut members = Vec::new();
        for name in names {
            if name != skip {
                let value = if name == "amount" || name == "fee" {
                    Json::Unsigned(1)
                } else {
                    Json::String("x".to_string())
                };
                members.push((name.to_string(), value));
            }
        }
        assert_eq!(Transfer::from_json(&Json::Object(members)), None);
    }
}

#[test]
fn transfer_without_money_is_rpc_error() {
    let body = "{\"error\":{\"code\":-17,\"message\":\"not enough money\"},\"id\":\"1\",\"jsonrpc\":\"2.0\"}";
    assert_eq!(transfer_result(&Reply::read(200, body)), Err(Failure::RpcError));
}

#[test]
fn wallet_height_is_read() {
    assert_eq!(
        block_height_result(&Reply::read(200, &wrap("{\"height\":71}"))),
        Ok(BlockHeight { height: 71 })
    );
    assert_eq!(
        block_height_result(&Reply::read(200, &wrap("{\"height\":\"71\"}"))),
        Err(Failure::MalformedResponse)
    );
    assert_eq!(
        block_height_result(&Reply::read(200, &wrap("{\"height\":4294967296}"))),
        Err(Failure::MalformedResponse)
    );
    assert_eq!(BlockHeight::from_json(&Json::Object(vec![])), None);
}
