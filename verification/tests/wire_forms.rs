use cosmwasm_std::{Binary, CosmosMsg};
use osmosis_std::shim::Duration;
use osmosis_std::types::cosmos::base::v1beta1::Coin;
use osmosis_std::types::osmosis::gamm::v1beta1::MsgJoinSwapExternAmountIn;
use osmosis_std::types::osmosis::lockup::{MsgBeginUnlocking, MsgLockTokens};
use osmosis_std::types::osmosis::superfluid::{
    MsgLockAndSuperfluidDelegate, MsgSuperfluidDelegate, MsgSuperfluidUnbondLock,
};
use vault::codec::{encode, encode_dispatch, encode_dispatches, WireDispatch, WireMessage};
use vault::correlation::CorrelationTag;
use vault::operation::{Dispatch, Operation, Transfer};

fn coin(denom: &str, amount: &str) -> Coin {
    Coin {
        denom: denom.to_string(),
        amount: amount.to_string(),
    }
}

fn as_stargate(wire: &WireMessage) -> CosmosMsg {
    CosmosMsg::Stargate {
        type_url: wire.type_url.clone(),
        value: Binary::from(wire.value.clone()),
    }
}

#[test]
fn mint_shares_is_a_join_swap_extern_amount_in() {
    let wire = encode(&Operation::MintShares {
        sender: "osmo1vault".to_string(),
        pool_id: 7,
        min_shares: 1,
        token_in: Transfer {
            denom: "ibc/ATOM".to_string(),
            amount: 500,
        },
    });
    let expected = MsgJoinSwapExternAmountIn {
        sender: "osmo1vault".to_string(),
        pool_id: 7,
        token_in: Some(coin("ibc/ATOM", "500")),
        share_out_min_amount: "1".to_string(),
    };
    assert_eq!(wire.type_url, MsgJoinSwapExternAmountIn::TYPE_URL);
    assert_eq!(
        MsgJoinSwapExternAmountIn::try_from(Binary::from(wire.value.clone())).unwrap(),
        expected
    );
    assert_eq!(as_stargate(&wire), CosmosMsg::from(expected));
}

#[test]
fn mint_shares_writes_large_amounts_in_full() {
    let wire = encode(&Operation::MintShares {
        sender: "osmo1vault".to_string(),
        pool_id: u64::MAX,
        min_shares: u64::MAX,
        token_in: Transfer {
            denom: "uosmo".to_string(),
            amount: u128::MAX,
        },
    });
    let decoded = MsgJoinSwapExternAmountIn::try_from(Binary::from(wire.value)).unwrap();
    assert_eq!(decoded.pool_id, u64::MAX);
    assert_eq!(decoded.share_out_min_amount, "18446744073709551615");
    assert_eq!(
        decoded.token_in,
        Some(coin("uosmo", "340282366920938463463374607431768211455"))
    );
}

#[test]
fn lock_and_delegate_is_a_lock_and_superfluid_delegate() {
    let wire = encode(&Operation::LockAndDelegate {
        sender: "osmo1vault".to_string(),
        shares: Transfer {
            denom: "gamm/pool/7".to_string(),
            amount: 1000,
        },
        validator: "osmovaloper1xyz".to_string(),
    });
    let expected = MsgLockAndSuperfluidDelegate {
        sender: "osmo1vault".to_string(),
        coins: vec![coin("gamm/pool/7", "1000")],
        val_addr: "osmovaloper1xyz".to_string(),
    };
    assert_eq!(wire.type_url, MsgLockAndSuperfluidDelegate::TYPE_URL);
    assert_eq!(
        MsgLockAndSuperfluidDelegate::try_from(Binary::from(wire.value.clone())).unwrap(),
        expected
    );
    assert_eq!(as_stargate(&wire), CosmosMsg::from(expected));
}

#[test]
fn lock_tokens_is_a_lock_tokens_of_whole_seconds() {
    let wire = encode(&Operation::LockTokens {
        owner: "osmo1vault".to_string(),
        duration_seconds: 1209600,
        shares: Transfer {
            denom: "gamm/pool/7".to_string(),
            amount: 250,
        },
    });
    let expected = MsgLockTokens {
        owner: "osmo1vault".to_string(),
        duration: Some(Duration {
            seconds: 1209600,
            nanos: 0,
        }),
        coins: vec![coin("gamm/pool/7", "250")],
    };
    assert_eq!(wire.type_url, MsgLockTokens::TYPE_URL);
    assert_eq!(
        MsgLockTokens::try_from(Binary::from(wire.value.clone())).unwrap(),
        expected
    );
    assert_eq!(as_stargate(&wire), CosmosMsg::from(expected));
}

#[test]
fn unbond_lock_is_a_superfluid_unbond_lock() {
    let wire = encode(&Operation::UnbondLock {
        sender: "osmo1vault".to_string(),
        lock_id: 77,
    });
    let expected = MsgSuperfluidUnbondLock {
        sender: "osmo1vault".to_string(),
        lock_id: 77,
    };
    assert_eq!(wire.type_url, MsgSuperfluidUnbondLock::TYPE_URL);
    assert_eq!(
        MsgSuperfluidUnbondLock::try_from(Binary::from(wire.value.clone())).unwrap(),
        expected
    );
    assert_eq!(as_stargate(&wire), CosmosMsg::from(expected));
}

#[test]
fn begin_unlocking_is_a_begin_unlocking() {
    let wire = encode(&Operation::BeginUnlocking {
        owner: "osmo1vault".to_string(),
        lock_id: 77,
        shares: Transfer {
            denom: "gamm/pool/7".to_string(),
            amount: 500,
        },
    });
    let expected = MsgBeginUnlocking {
        owner: "osmo1vault".to_string(),
        id: 77,
        coins: vec![coin("gamm/pool/7", "500")],
    };
    assert_eq!(wire.type_url, MsgBeginUnlocking::TYPE_URL);
    assert_eq!(
        MsgBeginUnlocking::try_from(Binary::from(wire.value.clone())).unwrap(),
        expected
    );
    assert_eq!(as_stargate(&wire), CosmosMsg::from(expected));
}

#[test]
fn delegate_is_a_superfluid_delegate() {
    let wire = encode(&Operation::Delegate {
        sender: "osmo1vault".to_string(),
        lock_id: 77,
        validator: "osmovaloper1xyz".to_string(),
    });
    let expected = MsgSuperfluidDelegate {
        sender: "osmo1vault".to_string(),
        lock_id: 77,
        val_addr: "osmovaloper1xyz".to_string(),
    };
    assert_eq!(wire.type_url, MsgSuperfluidDelegate::TYPE_URL);
    assert_eq!(
        MsgSuperfluidDelegate::try_from(Binary::from(wire.value.clone())).unwrap(),
        expected
    );
    assert_eq!(as_stargate(&wire), CosmosMsg::from(expected));
}

#[test]
fn type_urls_are_the_documented_ones() {
    let mint = encode(&Operation::MintShares {
        sender: String::new(),
        pool_id: 0,
        min_shares: 0,
        token_in: Transfer {
            denom: String::new(),
            amount: 0,
        },
    });
    assert_eq!(
        mint.type_url,
        "/osmosis.gamm.v1beta1.MsgJoinSwapExternAmountIn"
    );
    let unbond = encode(&Operation::UnbondLock {
        sender: String::new(),
        lock_id: 0,
    });
    assert_eq!(unbond.type_url, "/osmosis.superfluid.MsgSuperfluidUnbondLock");
}

#[test]
fn a_dispatch_keeps_its_message_and_the_integer_of_its_tag() {
    let operation = Operation::UnbondLock {
        sender: "osmo1vault".to_string(),
        lock_id: 77,
    };
    let tagged = encode_dispatch(&Dispatch {
        operation: operation.clone(),
        tag: Some(CorrelationTag::Unbond),
    });
    assert_eq!(
        tagged,
        WireDispatch {
            message: encode(&operation),
            reply_id: Some(4),
        }
    );
    let untagged = encode_dispatch(&Dispatch {
        operation: operation.clone(),
        tag: None,
    });
    assert_eq!(
        untagged,
        WireDispatch {
            message: encode(&operation),
            reply_id: None,
        }
    );
}

#[test]
fn dispatches_are_encoded_one_by_one_in_order() {
    let first = Dispatch {
        operation: Operation::MintShares {
            sender: "osmo1vault".to_string(),
            pool_id: 7,
            min_shares: 1,
            token_in: Transfer {
                denom: "ibc/ATOM".to_string(),
                amount: 500,
            },
        },
        tag: Some(CorrelationTag::MintShares),
    };
    let second = Dispatch {
        operation: Operation::Delegate {
            sender: "osmo1vault".to_string(),
            lock_id: 77,
            validator: "osmovaloper1xyz".to_string(),
        },
        tag: None,
    };
    let third = Dispatch {
        operation: Operation::LockTokens {
            owner: "osmo1vault".to_string(),
            duration_seconds: 60,
            shares: Transfer {
                denom: "gamm/pool/7".to_string(),
                amount: 9,
            },
        },
        tag: Some(CorrelationTag::LockTokens),
    };
    let wires = encode_dispatches(&vec![first.clone(), second.clone(), third.clone()]);
    assert_eq!(
        wires,
        vec![
            encode_dispatch(&first),
            encode_dispatch(&second),
            encode_dispatch(&third),
        ]
    );
    assert_eq!(wires[0].reply_id, Some(0));
    assert_eq!(wires[1].reply_id, None);
    assert_eq!(wires[2].reply_id, Some(3));
    assert_eq!(encode_dispatches(&vec![]), vec![]);
}
