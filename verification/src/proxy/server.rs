//! The access matrix of the proxy.
//!
//! Every method runs in up to three phases: a check before anything is
//! sent, the call to the upstream, and for some methods a check of what
//! came back. The functions here are the first and the third; the call
//! itself is made by the caller, who is told where to send it.

use vstd::prelude::*;
use alloy::consensus::transaction::SignerRecoverable;
use alloy::consensus::Transaction;
use crate::address::Address;
use crate::auth::access_level::{AccessLevel, AccessLevelView};
use crate::proxy::error::{
    internal_error, invalid_params, spec_internal_error, spec_invalid_params, spec_unauthorized,
    unauthorized,
};
use crate::rpc::{RpcError, RpcErrorView};

verus! {

/// The methods that the proxy serves.
#[derive(Clone, Copy, Debug, PartialEq, Eq)]
pub enum Method {
    BlockNumber,
    ChainId,
    FeeHistory,
    GasPrice,
    MaxPriorityFeePerGas,
    BlockByHash,
    BlockByNumber,
    StorageAt,
    GetCode,
    Call,
    EstimateGas,
    Logs,
    L1MessagesInBlock,
    Balance,
    TransactionCount,
    TransactionByHash,
    TransactionReceipt,
    SendRawTransaction,
    WithdrawalsByTransaction,
    WithdrawalByMessageHash,
}

/// What a method asks of the caller before anything is sent.
#[derive(Clone, Copy, Debug, PartialEq, Eq)]
pub enum Rule {
    /// Nothing.
    Open,
    /// An administrator key.
    FullOnly,
    /// Authority over the account that the request names.
    Owner,
    /// Any credential.
    Authenticated,
    /// Any credential; and of a caller with basic access, that the raw
    /// transaction is its own and has a recipient.
    Sender,
}

/// An upstream endpoint.
#[derive(Clone, Copy, Debug, PartialEq, Eq)]
pub enum Upstream {
    /// The chain's own RPC.
    Sequencer,
    /// The service that serves withdrawal proofs.
    WithdrawProofs,
}

/// Where an admitted request goes.
#[derive(Clone, Copy, Debug, PartialEq, Eq)]
pub enum Route {
    /// To this upstream.
    Forward(Upstream),
    /// Nowhere: the answer is zero.
    Zero,
}

/// The part of a request that its rule looks at.
#[derive(Clone, Copy, Debug)]
pub enum Subject<'a> {
    /// Nothing.
    Nothing,
    /// The account that the request names.
    Account(&'a Address),
    /// The raw transaction that the request carries.
    Raw(&'a [u8]),
}

/// `Subject` with its bytes as sequences.
pub enum SubjectView {
    Nothing,
    Account(Seq<u8>),
    Raw(Seq<u8>),
}

impl<'a> View for Subject<'a> {
    type V = SubjectView;

    open spec fn view(&self) -> SubjectView {
        match self {
            Subject::Nothing => SubjectView::Nothing,
            Subject::Account(address) => SubjectView::Account(address@),
            Subject::Raw(bytes) => SubjectView::Raw(bytes@),
        }
    }
}

/// Sender and recipient of a transaction or a receipt.
#[derive(Clone, Copy, Debug, PartialEq, Eq)]
pub struct Parties {
    /// The account that signed the transaction.
    pub from: Address,
    /// The account that it is sent to; none where it creates a contract.
    pub to: Option<Address>,
}

/// The rule of each method.
pub open spec fn spec_rule(method: Method) -> Rule {
    match method {
        Method::BlockNumber | Method::ChainId | Method::FeeHistory => Rule::Open,
        Method::GasPrice | Method::MaxPriorityFeePerGas => Rule::Open,
        Method::BlockByHash
        | Method::BlockByNumber
        | Method::StorageAt
        | Method::GetCode
        | Method::Call
        | Method::EstimateGas
        | Method::Logs
        | Method::L1MessagesInBlock => Rule::FullOnly,
        Method::Balance | Method::TransactionCount => Rule::Owner,
        Method::TransactionByHash
        | Method::TransactionReceipt
        | Method::WithdrawalsByTransaction
        | Method::WithdrawalByMessageHash => Rule::Authenticated,
        Method::SendRawTransaction => Rule::Sender,
    }
}

/// Where the requests of each method go.
pub open spec fn spec_route(method: Method) -> Route {
    match method {
        Method::GasPrice | Method::MaxPriorityFeePerGas => Route::Zero,
        Method::WithdrawalsByTransaction | Method::WithdrawalByMessageHash => Route::Forward(
            Upstream::WithdrawProofs,
        ),
        _ => Route::Forward(Upstream::Sequencer),
    }
}

/// The rule of a method.
pub fn rule(method: Method) -> (res: Rule)
    ensures
        res == spec_rule(method),
{
    match method {
        Method::BlockNumber | Method::ChainId | Method::FeeHistory => Rule::Open,
        Method::GasPrice | Method::MaxPriorityFeePerGas => Rule::Open,
        Method::BlockByHash
        | Method::BlockByNumber
        | Method::StorageAt
        | Method::GetCode
        | Method::Call
        | Method::EstimateGas
        | Method::Logs
        | Method::L1MessagesInBlock => Rule::FullOnly,
        Method::Balance | Method::TransactionCount => Rule::Owner,
        Method::TransactionByHash
        | Method::TransactionReceipt
        | Method::WithdrawalsByTransaction
        | Method::WithdrawalByMessageHash => Rule::Authenticated,
        Method::SendRawTransaction => Rule::Sender,
    }
}

/// Where the requests of a method go.
pub fn route(method: Method) -> (res: Route)
    ensures
        res == spec_route(method),
{
    match method {
        Method::GasPrice | Method::MaxPriorityFeePerGas => Route::Zero,
        Method::WithdrawalsByTransaction | Method::WithdrawalByMessageHash => Route::Forward(
            Upstream::WithdrawProofs,
        ),
        _ => Route::Forward(Upstream::Sequencer),
    }
}

/// Sender and recipient of the signed transaction that `alloy` decodes from
/// a byte string: `(from, to)`, or `None` where the bytes are no
/// transaction that can be submitted, or no signer can be recovered.
pub uninterp spec fn raw_transaction(bytes: Seq<u8>) -> Option<(Seq<u8>, Option<Seq<u8>>)>;

/// `alloy_rlp::Decodable::decode` of a signed transaction envelope, its
/// conversion to a `PooledTransaction`, `recover_signer` and `to`: who
/// signed the transaction in `bytes` and whom it is sent to.
#[verifier::external_body]
fn decode_raw_transaction(bytes: &[u8]) -> (res: Option<Parties>)
    ensures
        match res {
            Some(parties) => raw_transaction(bytes@) == Some(
                (parties.from@, spec_recipient(parties.to)),
            ),
            None => raw_transaction(bytes@) is None,
        },
{
    let mut rest: &[u8] = bytes;
    let signed = <alloy::consensus::EthereumTxEnvelope<alloy::consensus::TxEip4844> as alloy_rlp::Decodable>::decode(&mut rest).ok()?;
    let pooled = alloy::consensus::transaction::PooledTransaction::try_from(signed).ok()?;
    let from = pooled.recover_signer().ok()?;
    let to = pooled.to().map(|a| Address { bytes: a.into_array() });
    Some(Parties { from: Address { bytes: from.into_array() }, to })
}

/// A recipient as bytes, if there is one.
pub open spec fn spec_recipient(to: Option<Address>) -> Option<Seq<u8>> {
    match to {
        Some(address) => Some(address@),
        None => None,
    }
}

/// Whether `access` may act for the account with the bytes `user`.
pub open spec fn spec_authorized(access: AccessLevelView, user: Seq<u8>) -> bool {
    match access {
        AccessLevelView::Anonymous => false,
        AccessLevelView::Basic(address) => address == user,
        AccessLevelView::Full => true,
    }
}

/// The outcome of the check before anything is sent: where the request
/// goes, or the error that refuses it.
pub open spec fn spec_pre_check(method: Method, access: AccessLevelView, subject: SubjectView)
    -> Result<Route, RpcErrorView> {
    match spec_rule(method) {
        Rule::Open => Ok(spec_route(method)),
        Rule::FullOnly => if access is Full {
            Ok(spec_route(method))
        } else {
            Err(spec_unauthorized())
        },
        Rule::Owner => {
            let admitted = match subject {
                SubjectView::Account(user) => spec_authorized(access, user),
                _ => access is Full,
            };
            if admitted {
                Ok(spec_route(method))
            } else {
                Err(spec_unauthorized())
            }
        },
        Rule::Authenticated => if access is Anonymous {
            Err(spec_unauthorized())
        } else {
            Ok(spec_route(method))
        },
        Rule::Sender => match access {
            AccessLevelView::Anonymous => Err(spec_unauthorized()),
            AccessLevelView::Full => Ok(spec_route(method)),
            AccessLevelView::Basic(user) => match subject {
                SubjectView::Raw(bytes) => match raw_transaction(bytes) {
                    None => Err(spec_invalid_params("invalid raw transaction"@)),
                    Some((from, to)) => if from == user && to is Some {
                        Ok(spec_route(method))
                    } else {
                        Err(spec_unauthorized())
                    },
                },
                _ => Err(spec_invalid_params("invalid raw transaction"@)),
            },
        },
    }
}

/// A routing outcome with its error as plain values.
pub open spec fn spec_routed(res: Result<Route, RpcError>) -> Result<Route, RpcErrorView> {
    match res {
        Ok(route) => Ok(route),
        Err(e) => Err(e@),
    }
}

/// The access level attached to a request; anonymous where none is.
pub fn get_access(ext: Option<&AccessLevel>) -> (res: AccessLevel)
    ensures
        res == match ext {
            Some(access) => *access,
            None => AccessLevel::Anonymous,
        },
{
    match ext {
        Some(access) => *access,
        None => AccessLevel::Anonymous,
    }
}

/// Passes a caller that may act for `address`.
pub fn only_authorized(access: &AccessLevel, address: &Address) -> (res: Result<(), RpcError>)
    ensures
        res is Ok <==> spec_authorized(access@, address@),
        res matches Err(e) ==> e@ == spec_unauthorized(),
{
    if !access.is_authorized(address) {
        return Err(unauthorized());
    }
    Ok(())
}

/// Passes a caller with full access.
pub fn only_full_access(access: &AccessLevel) -> (res: Result<(), RpcError>)
    ensures
        res is Ok <==> access@ is Full,
        res matches Err(e) ==> e@ == spec_unauthorized(),
{
    match access {
        AccessLevel::Full => Ok(()),
        _ => Err(unauthorized()),
    }
}

/// Passes a caller with any credential.
pub fn only_authenticated(access: &AccessLevel) -> (res: Result<(), RpcError>)
    ensures
        res is Ok <==> !(access@ is Anonymous),
        res matches Err(e) ==> e@ == spec_unauthorized(),
{
    match access {
        AccessLevel::Anonymous => Err(unauthorized()),
        _ => Ok(()),
    }
}

/// Passes a caller that may submit the raw transaction `bytes`: anyone with
/// full access; with basic access the signer of the transaction, unless it
/// creates a contract.
pub fn only_sender(access: &AccessLevel, bytes: &[u8]) -> (res: Result<(), RpcError>)
    ensures
        match access@ {
            AccessLevelView::Anonymous => res matches Err(e) && e@ == spec_unauthorized(),
            AccessLevelView::Full => res is Ok,
            AccessLevelView::Basic(user) => match raw_transaction(bytes@) {
                None => res matches Err(e) && e@ == spec_invalid_params("invalid raw transaction"@),
                Some((from, to)) => if from == user && to is Some {
                    res is Ok
                } else {
                    res matches Err(e) && e@ == spec_unauthorized()
                },
            },
        },
{
    match access {
        AccessLevel::Anonymous => Err(unauthorized()),
        AccessLevel::Full => Ok(()),
        AccessLevel::Basic(_) => {
            let parties = match decode_raw_transaction(bytes) {
                Some(parties) => parties,
                None => {
                    return Err(invalid_params("invalid raw transaction"));
                },
            };
            if !access.is_authorized(&parties.from) || parties.to.is_none() {
                return Err(unauthorized());
            }
            Ok(())
        },
    }
}

/// The check before anything is sent, for any method.
pub fn pre_check(method: Method, access: &AccessLevel, subject: Subject) -> (res: Result<
    Route,
    RpcError,
>)
    ensures
        spec_routed(res) == spec_pre_check(method, access@, subject@),
{
    let passed = match rule(method) {
        Rule::Open => Ok(()),
        Rule::FullOnly => only_full_access(access),
        Rule::Owner => match subject {
            Subject::Account(address) => only_authorized(access, address),
            _ => only_full_access(access),
        },
        Rule::Authenticated => only_authenticated(access),
        Rule::Sender => match subject {
            Subject::Raw(bytes) => only_sender(access, bytes),
            _ => match access {
                AccessLevel::Anonymous => Err(unauthorized()),
                AccessLevel::Full => Ok(()),
                AccessLevel::Basic(_) => Err(invalid_params("invalid raw transaction")),
            },
        },
    };
    match passed {
        Ok(()) => Ok(route(method)),
        Err(e) => Err(e),
    }
}

/// The bytes of the all-zero address.
pub open spec fn spec_zero_address() -> Seq<u8> {
    Seq::new(20, |i: int| 0u8)
}

/// Whether `access` may see a transaction, or a receipt, between these
/// parties: it may act for the recipient (the zero address where there is
/// none) or for the sender.
pub open spec fn spec_visible(access: AccessLevelView, from: Seq<u8>, to: Option<Seq<u8>>) -> bool {
    let recipient = match to {
        Some(address) => address,
        None => spec_zero_address(),
    };
    spec_authorized(access, recipient) || spec_authorized(access, from)
}

/// Whether `access` may see a transaction, or a receipt, between `parties`.
pub fn is_visible(access: &AccessLevel, parties: &Parties) -> (res: bool)
    ensures
        res == spec_visible(access@, parties.from@, spec_recipient(parties.to)),
{
    let recipient = match parties.to {
        Some(address) => address,
        None => Address::zero(),
    };
    access.is_authorized(&recipient) || access.is_authorized(&parties.from)
}

/// What is done with the answer of the withdraw-proofs service.
#[derive(Debug)]
pub enum Gate<T> {
    /// It is returned as it is.
    Return(T),
    /// The transaction behind it is looked up at the sequencer first, and
    /// the answer is held until its sender is known.
    LookupSender(T),
}

/// What a caller may see of a transaction, or of a receipt, that the
/// upstream found: nothing is found, nothing is returned; what is found is
/// returned to a caller that may see it, and refused to any other.
pub open spec fn spec_lookup_reply<T>(
    access: AccessLevelView,
    found: Option<(T, Parties)>,
    res: Result<Option<T>, RpcError>,
) -> bool {
    if access is Anonymous {
        res matches Err(e) && e@ == spec_unauthorized()
    } else {
        match found {
            None => res == Ok::<Option<T>, RpcError>(None),
            Some((item, parties)) => if spec_visible(
                access,
                parties.from@,
                spec_recipient(parties.to),
            ) {
                res == Ok::<Option<T>, RpcError>(Some(item))
            } else {
                res matches Err(e) && e@ == spec_unauthorized()
            },
        }
    }
}

/// The check of what the sequencer found for a transaction or a receipt.
fn lookup_reply<T>(access: &AccessLevel, found: Option<(T, Parties)>) -> (res: Result<
    Option<T>,
    RpcError,
>)
    ensures
        spec_lookup_reply(access@, found, res),
{
    match access {
        AccessLevel::Anonymous => {
            return Err(unauthorized());
        },
        _ => {},
    }
    match found {
        None => Ok(None),
        Some((item, parties)) => {
            if is_visible(access, &parties) {
                Ok(Some(item))
            } else {
                Err(unauthorized())
            }
        },
    }
}

/// What holds of the answer to a withdrawal query once the sender of the
/// transaction behind it was looked up: without a transaction the proxy
/// fails; the sender gets the answer that was held; anyone else is refused.
pub open spec fn spec_sender_reply<T>(
    access: AccessLevelView,
    held: T,
    sender: Option<Address>,
    res: Result<T, RpcError>,
) -> bool {
    match sender {
        None => res matches Err(e) && e@ == spec_internal_error("transaction not found"@),
        Some(from) => if spec_authorized(access, from@) {
            res == Ok::<T, RpcError>(held)
        } else {
            res matches Err(e) && e@ == spec_unauthorized()
        },
    }
}

/// The proxy: an access matrix over two upstream endpoints.
pub struct RpcProxyImpl {
    validium_url: String,
    withdraw_proofs_url: String,
}

impl RpcProxyImpl {
    /// The address of the sequencer.
    pub closed spec fn spec_validium_url(&self) -> Seq<char> {
        self.validium_url@
    }

    /// The address of the withdraw-proofs service.
    pub closed spec fn spec_withdraw_proofs_url(&self) -> Seq<char> {
        self.withdraw_proofs_url@
    }

    /// A proxy in front of the two endpoints.
    pub fn new(validium_url: &str, withdraw_proofs_url: &str) -> (res: RpcProxyImpl)
        ensures
            res.spec_validium_url() == validium_url@,
            res.spec_withdraw_proofs_url() == withdraw_proofs_url@,
    {
        RpcProxyImpl {
            validium_url: validium_url.to_owned(),
            withdraw_proofs_url: withdraw_proofs_url.to_owned(),
        }
    }

    /// The address of an upstream.
    pub fn url(&self, upstream: Upstream) -> (res: &str)
        ensures
            res@ == match upstream {
                Upstream::Sequencer => self.spec_validium_url(),
                Upstream::WithdrawProofs => self.spec_withdraw_proofs_url(),
            },
    {
        match upstream {
            Upstream::Sequencer => self.validium_url.as_str(),
            Upstream::WithdrawProofs => self.withdraw_proofs_url.as_str(),
        }
    }

    /// `scroll_getL1MessagesInBlock`: full access only.
    pub fn l1_messages_in_block(&self, access: &AccessLevel) -> (res: Result<Route, RpcError>)
        ensures
            spec_routed(res) == spec_pre_check(
                Method::L1MessagesInBlock,
                access@,
                SubjectView::Nothing,
            ),
    {
        pre_check(Method::L1MessagesInBlock, access, Subject::Nothing)
    }

    /// `scroll_withdrawalsByTransaction`, before the call: any credential.
    pub fn withdrawals_by_transaction(&self, access: &AccessLevel) -> (res: Result<
        Route,
        RpcError,
    >)
        ensures
            spec_routed(res) == spec_pre_check(
                Method::WithdrawalsByTransaction,
                access@,
                SubjectView::Nothing,
            ),
    {
        pre_check(Method::WithdrawalsByTransaction, access, Subject::Nothing)
    }

    /// `scroll_withdrawalsByTransaction`, after the call: an empty list and
    /// any list for a caller with full access are returned as they are; any
    /// other list is held until the sender of the transaction is known.
    pub fn withdrawals_by_transaction_reply<T>(
        &self,
        access: &AccessLevel,
        withdrawals: Vec<T>,
    ) -> (res: Result<Gate<Vec<T>>, RpcError>)
        ensures
            match access@ {
                AccessLevelView::Anonymous => res matches Err(e) && e@ == spec_unauthorized(),
                AccessLevelView::Full => res == Ok::<Gate<Vec<T>>, RpcError>(
                    Gate::Return(withdrawals),
                ),
                AccessLevelView::Basic(_) => if withdrawals@.len() == 0 {
                    res == Ok::<Gate<Vec<T>>, RpcError>(Gate::Return(withdrawals))
                } else {
                    res == Ok::<Gate<Vec<T>>, RpcError>(Gate::LookupSender(withdrawals))
                },
            },
    {
        match access {
            AccessLevel::Anonymous => Err(unauthorized()),
            AccessLevel::Full => Ok(Gate::Return(withdrawals)),
            AccessLevel::Basic(_) => {
                if withdrawals.len() == 0 {
                    Ok(Gate::Return(withdrawals))
                } else {
                    Ok(Gate::LookupSender(withdrawals))
                }
            },
        }
    }

    /// `scroll_withdrawalByMessageHash`, before the call: any credential.
    pub fn withdrawal_by_message_hash(&self, access: &AccessLevel) -> (res: Result<
        Route,
        RpcError,
    >)
        ensures
            spec_routed(res) == spec_pre_check(
                Method::WithdrawalByMessageHash,
                access@,
                SubjectView::Nothing,
            ),
    {
        pre_check(Method::WithdrawalByMessageHash, access, Subject::Nothing)
    }

    /// `scroll_withdrawalByMessageHash`, after the call: no withdrawal and
    /// any withdrawal for a caller with full access are returned as they
    /// are; any other is held until the sender of its transaction is known.
    pub fn withdrawal_by_message_hash_reply<T>(
        &self,
        access: &AccessLevel,
        withdrawal: Option<T>,
    ) -> (res: Result<Gate<Option<T>>, RpcError>)
        ensures
            match access@ {
                AccessLevelView::Anonymous => res matches Err(e) && e@ == spec_unauthorized(),
                AccessLevelView::Full => res == Ok::<Gate<Option<T>>, RpcError>(
                    Gate::Return(withdrawal),
                ),
                AccessLevelView::Basic(_) => if withdrawal is None {
                    res == Ok::<Gate<Option<T>>, RpcError>(Gate::Return(withdrawal))
                } else {
                    res == Ok::<Gate<Option<T>>, RpcError>(Gate::LookupSender(withdrawal))
                },
            },
    {
        match access {
            AccessLevel::Anonymous => Err(unauthorized()),
            AccessLevel::Full => Ok(Gate::Return(withdrawal)),
            AccessLevel::Basic(_) => {
                if withdrawal.is_none() {
                    Ok(Gate::Return(withdrawal))
                } else {
                    Ok(Gate::LookupSender(withdrawal))
                }
            },
        }
    }

    /// The answer to a withdrawal query that was held, once the sequencer
    /// was asked for the transaction behind it: `sender` is who signed that
    /// transaction, or `None` where the sequencer does not know it.
    pub fn withdrawal_sender_reply<T>(
        &self,
        access: &AccessLevel,
        held: T,
        sender: Option<Address>,
    ) -> (res: Result<T, RpcError>)
        ensures
            spec_sender_reply(access@, held, sender, res),
    {
        match sender {
            None => Err(internal_error("transaction not found")),
            Some(from) => {
                if access.is_authorized(&from) {
                    Ok(held)
                } else {
                    Err(unauthorized())
                }
            },
        }
    }

    /// `eth_blockNumber`: open to all.
    pub fn block_number(&self, access: &AccessLevel) -> (res: Result<Route, RpcError>)
        ensures
            spec_routed(res) == spec_pre_check(Method::BlockNumber, access@, SubjectView::Nothing),
    {
        pre_check(Method::BlockNumber, access, Subject::Nothing)
    }

    /// `eth_chainId`: open to all.
    pub fn chain_id(&self, access: &AccessLevel) -> (res: Result<Route, RpcError>)
        ensures
            spec_routed(res) == spec_pre_check(Method::ChainId, access@, SubjectView::Nothing),
    {
        pre_check(Method::ChainId, access, Subject::Nothing)
    }

    /// `eth_getBlockByHash`: full access only.
    pub fn block_by_hash(&self, access: &AccessLevel) -> (res: Result<Route, RpcError>)
        ensures
            spec_routed(res) == spec_pre_check(Method::BlockByHash, access@, SubjectView::Nothing),
    {
        pre_check(Method::BlockByHash, access, Subject::Nothing)
    }

    /// `eth_getBlockByNumber`: full access only.
    pub fn block_by_number(&self, access: &AccessLevel) -> (res: Result<Route, RpcError>)
        ensures
            spec_routed(res) == spec_pre_check(
                Method::BlockByNumber,
                access@,
                SubjectView::Nothing,
            ),
    {
        pre_check(Method::BlockByNumber, access, Subject::Nothing)
    }

    /// `eth_getBalance`: for a caller that may act for `address`.
    pub fn balance(&self, access: &AccessLevel, address: &Address) -> (res: Result<
        Route,
        RpcError,
    >)
        ensures
            spec_routed(res) == spec_pre_check(
                Method::Balance,
                access@,
                SubjectView::Account(address@),
            ),
    {
        pre_check(Method::Balance, access, Subject::Account(address))
    }

    /// `eth_getStorageAt`: full access only.
    pub fn storage_at(&self, access: &AccessLevel) -> (res: Result<Route, RpcError>)
        ensures
            spec_routed(res) == spec_pre_check(Method::StorageAt, access@, SubjectView::Nothing),
    {
        pre_check(Method::StorageAt, access, Subject::Nothing)
    }

    /// `eth_getTransactionByHash`, before the call: any credential.
    pub fn transaction_by_hash(&self, access: &AccessLevel) -> (res: Result<Route, RpcError>)
        ensures
            spec_routed(res) == spec_pre_check(
                Method::TransactionByHash,
                access@,
                SubjectView::Nothing,
            ),
    {
        pre_check(Method::TransactionByHash, access, Subject::Nothing)
    }

    /// `eth_getTransactionByHash`, after the call: `found` is the
    /// transaction that the sequencer returned, with its signer and its
    /// recipient. It is returned to a caller that may act for either.
    pub fn transaction_by_hash_reply<T>(
        &self,
        access: &AccessLevel,
        found: Option<(T, Parties)>,
    ) -> (res: Result<Option<T>, RpcError>)
        ensures
            spec_lookup_reply(access@, found, res),
    {
        lookup_reply(access, found)
    }

    /// `eth_getTransactionReceipt`, before the call: any credential.
    pub fn transaction_receipt(&self, access: &AccessLevel) -> (res: Result<Route, RpcError>)
        ensures
            spec_routed(res) == spec_pre_check(
                Method::TransactionReceipt,
                access@,
                SubjectView::Nothing,
            ),
    {
        pre_check(Method::TransactionReceipt, access, Subject::Nothing)
    }

    /// `eth_getTransactionReceipt`, after the call: `found` is the receipt
    /// that the sequencer returned, with its sender and its recipient. It
    /// is returned to a caller that may act for either.
    pub fn transaction_receipt_reply<T>(
        &self,
        access: &AccessLevel,
        found: Option<(T, Parties)>,
    ) -> (res: Result<Option<T>, RpcError>)
        ensures
            spec_lookup_reply(access@, found, res),
    {
        lookup_reply(access, found)
    }

    /// `eth_getTransactionCount`: for a caller that may act for `address`.
    pub fn transaction_count(&self, access: &AccessLevel, address: &Address) -> (res: Result<
        Route,
        RpcError,
    >)
        ensures
            spec_routed(res) == spec_pre_check(
                Method::TransactionCount,
                access@,
                SubjectView::Account(address@),
            ),
    {
        pre_check(Method::TransactionCount, access, Subject::Account(address))
    }

    /// `eth_getCode`: full access only.
    pub fn get_code(&self, access: &AccessLevel) -> (res: Result<Route, RpcError>)
        ensures
            spec_routed(res) == spec_pre_check(Method::GetCode, access@, SubjectView::Nothing),
    {
        pre_check(Method::GetCode, access, Subject::Nothing)
    }

    /// `eth_call`: full access only.
    pub fn call(&self, access: &AccessLevel) -> (res: Result<Route, RpcError>)
        ensures
            spec_routed(res) == spec_pre_check(Method::Call, access@, SubjectView::Nothing),
    {
        pre_check(Method::Call, access, Subject::Nothing)
    }

    /// `eth_estimateGas`: full access only.
    pub fn estimate_gas(&self, access: &AccessLevel) -> (res: Result<Route, RpcError>)
        ensures
            spec_routed(res) == spec_pre_check(Method::EstimateGas, access@, SubjectView::Nothing),
    {
        pre_check(Method::EstimateGas, access, Subject::Nothing)
    }

    /// `eth_gasPrice`: zero, for all; gas is free on this chain.
    pub fn gas_price(&self, access: &AccessLevel) -> (res: Result<Route, RpcError>)
        ensures
            res == Ok::<Route, RpcError>(Route::Zero),
    {
        pre_check(Method::GasPrice, access, Subject::Nothing)
    }

    /// `eth_maxPriorityFeePerGas`: zero, for all; gas is free on this chain.
    pub fn max_priority_fee_per_gas(&self, access: &AccessLevel) -> (res: Result<Route, RpcError>)
        ensures
            res == Ok::<Route, RpcError>(Route::Zero),
    {
        pre_check(Method::MaxPriorityFeePerGas, access, Subject::Nothing)
    }

    /// `eth_feeHistory`: open to all.
    pub fn fee_history(&self, access: &AccessLevel) -> (res: Result<Route, RpcError>)
        ensures
            spec_routed(res) == spec_pre_check(Method::FeeHistory, access@, SubjectView::Nothing),
    {
        pre_check(Method::FeeHistory, access, Subject::Nothing)
    }

    /// `eth_sendRawTransaction`: any transaction for a caller with full
    /// access; with basic access the caller's own, unless it creates a
    /// contract. Bytes that are no transaction are refused as invalid.
    pub fn send_raw_transaction(&self, access: &AccessLevel, bytes: &[u8]) -> (res: Result<
        Route,
        RpcError,
    >)
        ensures
            spec_routed(res) == spec_pre_check(
                Method::SendRawTransaction,
                access@,
                SubjectView::Raw(bytes@),
            ),
    {
        pre_check(Method::SendRawTransaction, access, Subject::Raw(bytes))
    }

    /// `eth_getLogs`: full access only.
    pub fn logs(&self, access: &AccessLevel) -> (res: Result<Route, RpcError>)
        ensures
            spec_routed(res) == spec_pre_check(Method::Logs, access@, SubjectView::Nothing),
    {
        pre_check(Method::Logs, access, Subject::Nothing)
    }
}

/// An anonymous caller never reaches the upstream through a method that
/// checks anything: it is refused before the call, whatever it sends.
pub proof fn law_anonymous_is_refused_before_the_call(method: Method, subject: SubjectView)
    requires
        spec_rule(method) != Rule::Open,
    ensures
        spec_pre_check(method, AccessLevelView::Anonymous, subject) == Err::<Route, RpcErrorView>(
            spec_unauthorized(),
        ),
{
}

/// A caller with full access reaches every method, whatever it sends.
pub proof fn law_full_access_reaches_every_method(method: Method, subject: SubjectView)
    ensures
        spec_pre_check(method, AccessLevelView::Full, subject) == Ok::<Route, RpcErrorView>(
            spec_route(method),
        ),
{
}

/// A refused request goes nowhere, and an admitted one goes where the
/// method's row says.
pub proof fn law_route_is_fixed(method: Method, access: AccessLevelView, subject: SubjectView)
    ensures
        spec_pre_check(method, access, subject) matches Ok(route) ==> route == spec_route(method),
{
}

/// A caller with basic access sees a transaction only as its sender or its
/// recipient: where the signer is another account, and the recipient (the
/// zero address where there is none) is another account, it is refused.
pub proof fn law_transaction_of_others_is_hidden<T>(
    user: Seq<u8>,
    item: T,
    parties: Parties,
    res: Result<Option<T>, RpcError>,
)
    requires
        spec_lookup_reply(AccessLevelView::Basic(user), Some((item, parties)), res),
        parties.from@ != user,
        match parties.to {
            Some(to) => to@ != user,
            None => spec_zero_address() != user,
        },
    ensures
        res matches Err(e) && e@ == spec_unauthorized(),
{
}

/// A caller with basic access may submit exactly its own transactions that
/// have a recipient.
pub proof fn law_raw_transaction_of_sender_only(user: Seq<u8>, bytes: Seq<u8>)
    ensures
        spec_pre_check(
            Method::SendRawTransaction,
            AccessLevelView::Basic(user),
            SubjectView::Raw(bytes),
        ) is Ok <==> (raw_transaction(bytes) matches Some((from, to)) && from == user && to is Some),
{
}

} // verus!
