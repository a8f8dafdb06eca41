use alloy::consensus::transaction::SignerRecoverable;
use alloy::consensus::{SignableTransaction, TxEnvelope, TxLegacy};
use alloy::primitives::{Bytes, Signature, TxKind, U256};
use validium_proxy::auth::AccessLevel;
use validium_proxy::proxy::error::{
    internal_error, invalid_params, proxy_call_failed, unauthorized, ClientError,
};
use validium_proxy::proxy::server::{
    get_access, is_visible, only_authenticated, only_authorized, only_full_access, only_sender,
    pre_check, route, rule, Gate, Method, Parties, Route, Rule, Subject, Upstream,
};
use validium_proxy::{Address, RpcError, RpcProxyImpl};

const ALL: [Method; 20] = [
    Method::BlockNumber,
    Method::ChainId,
    Method::FeeHistory,
    Method::GasPrice,
    Method::MaxPriorityFeePerGas,
    Method::BlockByHash,
    Method::BlockByNumber,
    Method::StorageAt,
    Method::GetCode,
    Method::Call,
    Method::EstimateGas,
    Method::Logs,
    Method::L1MessagesInBlock,
    Method::Balance,
    Method::TransactionCount,
    Method::TransactionByHash,
    Method::TransactionReceipt,
    Method::SendRawTransaction,
    Method::WithdrawalsByTransaction,
    Method::WithdrawalByMessageHash,
];

fn addr(byte: u8) -> Address {
    Address::new([byte; 20])
}

fn proxy() -> RpcProxyImpl {
    RpcProxyImpl::new("http://sequencer:8545", "http://proofs:8545")
}

fn denied() -> RpcError {
    RpcError {
        code: -32600,
        message: "unauthorized".to_string(),
        data: Some("unauthorized".to_string()),
    }
}

const SEQUENCER: Result<Route, RpcError> = Ok(Route::Forward(Upstream::Sequencer));
const PROOFS: Result<Route, RpcError> = Ok(Route::Forward(Upstream::WithdrawProofs));

#[test]
fn proxy_errors() {
    assert_eq!(unauthorized(), denied());
    assert_eq!(
        internal_error("boom"),
        RpcError {
            code: -32603,
            message: "internal_error".to_string(),
            data: Some("boom".to_string())
        }
    );
    assert_eq!(
        invalid_params("bad"),
        RpcError {
            code: -32602,
            message: "Invalid params".to_string(),
            data: Some("bad".to_string())
        }
    );
    let upstream = RpcError { code: 3, message: "execution reverted".to_string(), data: None };
    assert_eq!(proxy_call_failed(ClientError::Call(upstream.clone())), upstream);
    assert_eq!(
        proxy_call_failed(ClientError::Transport("connection refused".to_string())),
        RpcError {
            code: -32603,
            message: "Internal error".to_string(),
            data: Some("proxy_call_failed: connection refused".to_string())
        }
    );
}

#[test]
fn the_matrix_rows() {
    for m in [
        Method::BlockNumber,
        Method::ChainId,
        Method::FeeHistory,
        Method::GasPrice,
        Method::MaxPriorityFeePerGas,
    ] {
        assert_eq!(rule(m), Rule::Open);
    }
    for m in [
        Method::BlockByHash,
        Method::BlockByNumber,
        Method::StorageAt,
        Method::GetCode,
        Method::Call,
        Method::EstimateGas,
        Method::Logs,
        Method::L1MessagesInBlock,
    ] {
        assert_eq!(rule(m), Rule::FullOnly);
    }
    for m in [Method::Balance, Method::TransactionCount] {
        assert_eq!(rule(m), Rule::Owner);
    }
    for m in [
        Method::TransactionByHash,
        Method::TransactionReceipt,
        Method::WithdrawalsByTransaction,
        Method::WithdrawalByMessageHash,
    ] {
        assert_eq!(rule(m), Rule::Authenticated);
    }
    assert_eq!(rule(Method::SendRawTransaction), Rule::Sender);

    for m in ALL {
        let expected = match m {
            Method::GasPrice | Method::MaxPriorityFeePerGas => Route::Zero,
            Method::WithdrawalsByTransaction | Method::WithdrawalByMessageHash => {
                Route::Forward(Upstream::WithdrawProofs)
            }
            _ => Route::Forward(Upstream::Sequencer),
        };
        assert_eq!(route(m), expected);
    }
}

#[test]
fn an_anonymous_caller_reaches_only_open_methods() {
    let a = addr(1);
    for m in ALL {
        for subject in [Subject::Nothing, Subject::Account(&a), Subject::Raw(&[1, 2, 3])] {
            let res = pre_check(m, &AccessLevel::Anonymous, subject);
            if rule(m) == Rule::Open {
                assert_eq!(res, Ok(route(m)));
            } else {
                assert_eq!(res, Err(denied()));
            }
        }
    }
}

#[test]
fn a_full_caller_reaches_every_method() {
    let a = addr(1);
    for m in ALL {
        for subject in [Subject::Nothing, Subject::Account(&a), Subject::Raw(&[0xde, 0xad])] {
            assert_eq!(pre_check(m, &AccessLevel::Full, subject), Ok(route(m)));
        }
    }
}

#[test]
fn a_basic_caller_is_held_to_its_account() {
    let p = proxy();
    let me = AccessLevel::Basic(addr(0xa));
    assert_eq!(p.balance(&me, &addr(0xa)), SEQUENCER);
    assert_eq!(p.balance(&me, &addr(0xb)), Err(denied()));
    assert_eq!(p.transaction_count(&me, &addr(0xa)), SEQUENCER);
    assert_eq!(p.transaction_count(&me, &addr(0xb)), Err(denied()));
    assert_eq!(p.balance(&AccessLevel::Full, &addr(0xb)), SEQUENCER);
    assert_eq!(p.balance(&AccessLevel::Anonymous, &addr(0xa)), Err(denied()));
    // Without an account in the request only full access passes.
    assert_eq!(pre_check(Method::Balance, &me, Subject::Nothing), Err(denied()));
    assert_eq!(pre_check(Method::Balance, &AccessLevel::Full, Subject::Nothing), SEQUENCER);

    assert_eq!(p.block_number(&me), SEQUENCER);
    assert_eq!(p.chain_id(&me), SEQUENCER);
    assert_eq!(p.fee_history(&me), SEQUENCER);
    assert_eq!(p.gas_price(&me), Ok(Route::Zero));
    assert_eq!(p.max_priority_fee_per_gas(&me), Ok(Route::Zero));
    assert_eq!(p.gas_price(&AccessLevel::Anonymous), Ok(Route::Zero));

    assert_eq!(p.block_by_hash(&me), Err(denied()));
    assert_eq!(p.block_by_number(&me), Err(denied()));
    assert_eq!(p.storage_at(&me), Err(denied()));
    assert_eq!(p.get_code(&me), Err(denied()));
    assert_eq!(p.call(&me), Err(denied()));
    assert_eq!(p.estimate_gas(&me), Err(denied()));
    assert_eq!(p.logs(&me), Err(denied()));
    assert_eq!(p.l1_messages_in_block(&me), Err(denied()));
    assert_eq!(p.get_code(&AccessLevel::Full), SEQUENCER);
    assert_eq!(p.l1_messages_in_block(&AccessLevel::Full), SEQUENCER);

    assert_eq!(p.transaction_by_hash(&me), SEQUENCER);
    assert_eq!(p.transaction_receipt(&me), SEQUENCER);
    assert_eq!(p.withdrawals_by_transaction(&me), PROOFS);
    assert_eq!(p.withdrawal_by_message_hash(&me), PROOFS);
    assert_eq!(p.transaction_by_hash(&AccessLevel::Anonymous), Err(denied()));
    assert_eq!(p.withdrawals_by_transaction(&AccessLevel::Anonymous), Err(denied()));

    assert_eq!(p.url(Upstream::Sequencer), "http://sequencer:8545");
    assert_eq!(p.url(Upstream::WithdrawProofs), "http://proofs:8545");
}

#[test]
fn helpers_pass_and_refuse() {
    let me = AccessLevel::Basic(addr(0xa));
    assert_eq!(get_access(None), AccessLevel::Anonymous);
    assert_eq!(get_access(Some(&me)), me);
    assert_eq!(only_authorized(&me, &addr(0xa)), Ok(()));
    assert_eq!(only_authorized(&me, &addr(0xb)), Err(denied()));
    assert_eq!(only_full_access(&AccessLevel::Full), Ok(()));
    assert_eq!(only_full_access(&me), Err(denied()));
    assert_eq!(only_full_access(&AccessLevel::Anonymous), Err(denied()));
    assert_eq!(only_authenticated(&me), Ok(()));
    assert_eq!(only_authenticated(&AccessLevel::Full), Ok(()));
    assert_eq!(only_authenticated(&AccessLevel::Anonymous), Err(denied()));
}

#[test]
fn transaction_visibility() {
    let p = proxy();
    let me = AccessLevel::Basic(addr(0xa));
    let strangers = Parties { from: addr(0xc), to: Some(addr(0xd)) };
    let to_me = Parties { from: addr(0xc), to: Some(addr(0xa)) };
    let from_me = Parties { from: addr(0xa), to: Some(addr(0xd)) };
    let creation = Parties { from: addr(0xc), to: None };

    assert_eq!(p.transaction_by_hash_reply(&me, Some(("tx", strangers))), Err(denied()));
    assert_eq!(p.transaction_by_hash_reply(&me, Some(("tx", to_me))), Ok(Some("tx")));
    assert_eq!(p.transaction_by_hash_reply(&me, Some(("tx", from_me))), Ok(Some("tx")));
    assert_eq!(p.transaction_by_hash_reply(&me, Some(("tx", creation))), Err(denied()));
    assert_eq!(p.transaction_by_hash_reply::<&str>(&me, None), Ok(None));
    assert_eq!(
        p.transaction_by_hash_reply(&AccessLevel::Full, Some(("tx", strangers))),
        Ok(Some("tx"))
    );
    assert_eq!(
        p.transaction_by_hash_reply(&AccessLevel::Anonymous, Some(("tx", to_me))),
        Err(denied())
    );
    assert_eq!(p.transaction_by_hash_reply::<&str>(&AccessLevel::Anonymous, None), Err(denied()));

    assert_eq!(p.transaction_receipt_reply(&me, Some((1u8, strangers))), Err(denied()));
    assert_eq!(p.transaction_receipt_reply(&me, Some((1u8, to_me))), Ok(Some(1u8)));
    assert_eq!(p.transaction_receipt_reply(&me, Some((1u8, from_me))), Ok(Some(1u8)));
    assert_eq!(p.transaction_receipt_reply::<u8>(&me, None), Ok(None));

    // A missing recipient counts as the zero address.
    let zero = AccessLevel::Basic(Address::zero());
    assert!(is_visible(&zero, &creation));
    assert!(!is_visible(&zero, &strangers));
    assert!(!is_visible(&me, &creation));
}

#[test]
fn withdrawals_are_for_the_sender() {
    let p = proxy();
    let me = AccessLevel::Basic(addr(0xa));

    assert!(matches!(
        p.withdrawals_by_transaction_reply(&me, Vec::<u8>::new()),
        Ok(Gate::Return(ws)) if ws.is_empty()
    ));
    assert!(matches!(
        p.withdrawals_by_transaction_reply(&me, vec![1u8, 2]),
        Ok(Gate::LookupSender(ws)) if ws == vec![1u8, 2]
    ));
    assert!(matches!(
        p.withdrawals_by_transaction_reply(&AccessLevel::Full, vec![1u8, 2]),
        Ok(Gate::Return(ws)) if ws == vec![1u8, 2]
    ));
    assert!(matches!(
        p.withdrawals_by_transaction_reply(&AccessLevel::Anonymous, vec![1u8]),
        Err(e) if e == denied()
    ));

    assert!(matches!(
        p.withdrawal_by_message_hash_reply::<u8>(&me, None),
        Ok(Gate::Return(None))
    ));
    assert!(matches!(
        p.withdrawal_by_message_hash_reply(&me, Some(5u8)),
        Ok(Gate::LookupSender(Some(5)))
    ));
    assert!(matches!(
        p.withdrawal_by_message_hash_reply(&AccessLevel::Full, Some(5u8)),
        Ok(Gate::Return(Some(5)))
    ));
    assert!(matches!(
        p.withdrawal_by_message_hash_reply(&AccessLevel::Anonymous, Some(5u8)),
        Err(e) if e == denied()
    ));

    assert_eq!(p.withdrawal_sender_reply(&me, vec![1u8], Some(addr(0xa))), Ok(vec![1u8]));
    assert_eq!(p.withdrawal_sender_reply(&me, vec![1u8], Some(addr(0xb))), Err(denied()));
    assert_eq!(
        p.withdrawal_sender_reply(&me, vec![1u8], None),
        Err(RpcError {
            code: -32603,
            message: "internal_error".to_string(),
            data: Some("transaction not found".to_string())
        })
    );
}

// A signed legacy transaction whose signature recovers to some account,
// with that account.
fn signed_transaction(to: TxKind) -> (Vec<u8>, Address) {
    for r in 1u64..200 {
        let tx = TxLegacy {
            chain_id: Some(1),
            nonce: 0,
            gas_price: 1,
            gas_limit: 21_000,
            to,
            value: U256::ZERO,
            input: Bytes::new(),
        };
        let signed = tx.into_signed(Signature::new(U256::from(r), U256::from(1u64), false));
        let envelope = TxEnvelope::from(signed);
        if let Ok(from) = envelope.recover_signer() {
            let mut bytes = Vec::new();
            alloy_rlp::Encodable::encode(&envelope, &mut bytes);
            return (bytes, Address::new(from.into_array()));
        }
    }
    panic!("no recoverable signature found");
}

#[test]
fn raw_transactions_are_for_their_sender() {
    let p = proxy();
    let recipient = alloy::primitives::Address::repeat_byte(0x35);
    let (bytes, from) = signed_transaction(TxKind::Call(recipient));
    assert!(!from.same(&Address::zero()));
    let mut other = from.bytes;
    other[0] ^= 1;

    assert_eq!(p.send_raw_transaction(&AccessLevel::Basic(from), &bytes), SEQUENCER);
    assert_eq!(
        p.send_raw_transaction(&AccessLevel::Basic(Address::new(other)), &bytes),
        Err(denied())
    );
    // The recipient is not the sender.
    assert_eq!(
        p.send_raw_transaction(&AccessLevel::Basic(Address::new([0x35; 20])), &bytes),
        Err(denied())
    );
    assert_eq!(p.send_raw_transaction(&AccessLevel::Full, &bytes), SEQUENCER);
    assert_eq!(p.send_raw_transaction(&AccessLevel::Anonymous, &bytes), Err(denied()));
    assert_eq!(only_sender(&AccessLevel::Basic(from), &bytes), Ok(()));
}

#[test]
fn contract_creation_is_not_for_basic_access() {
    let p = proxy();
    let (bytes, from) = signed_transaction(TxKind::Create);
    assert_eq!(p.send_raw_transaction(&AccessLevel::Basic(from), &bytes), Err(denied()));
    assert_eq!(p.send_raw_transaction(&AccessLevel::Full, &bytes), SEQUENCER);
}

#[test]
fn bytes_that_are_no_transaction_are_invalid() {
    let p = proxy();
    let me = AccessLevel::Basic(addr(0xa));
    let invalid = RpcError {
        code: -32602,
        message: "Invalid params".to_string(),
        data: Some("invalid raw transaction".to_string()),
    };
    assert_eq!(p.send_raw_transaction(&me, &[]), Err(invalid.clone()));
    assert_eq!(p.send_raw_transaction(&me, &[0xff, 0x00, 0x01]), Err(invalid.clone()));
    assert_eq!(pre_check(Method::SendRawTransaction, &me, Subject::Nothing), Err(invalid));
    // Full access skips the decoding; anonymous is refused before it.
    assert_eq!(p.send_raw_transaction(&AccessLevel::Full, &[]), SEQUENCER);
    assert_eq!(p.send_raw_transaction(&AccessLevel::Anonymous, &[]), Err(denied()));
}
