//! Sign-In with Ethereum: nonce, message, signature, token.
//!
//! A sign-in runs in steps. The first step parses the message and takes its
//! nonce back; only then is the signature looked at. Which scheme applies is
//! decided by the code found at the claimed address, so the check needs
//! answers from the chain. The library decides and the caller fetches: every
//! step returns the next thing to do, and the caller comes back with what it
//! got, until the step returns the response.

use vstd::prelude::*;
use vstd::slice::slice_to_vec;
use vstd::string::StringExecFns;
use crate::address::Address;
use crate::auth::erc1271::{erc1271_call_data, is_erc1271_magic, spec_call_data, spec_is_magic};
use crate::auth::error::{internal_error, invalid_params, spec_internal_error, spec_invalid_params};
use crate::auth::jwt::{spec_in_time, JwtErrorView, JwtSigner};
use crate::auth::nonce::{
    nonce_is_live, spec_consumed, spec_handed_out, spec_is_live, spec_no_entries, NonceStore,
    NONCE_CAPACITY, NONCE_TTL_SECS,
};
use crate::clock::unix_time;
use crate::rpc::{RpcError, RpcErrorView};

verus! {

/// Length of the code that marks a delegated account.
pub const EIP7702_CODE_SIZE: usize = 23;

/// What kind of account an address is, by the code found there.
#[derive(Clone, Copy, Debug, PartialEq, Eq)]
pub enum AccountType {
    /// Externally owned: no code.
    Eoa,
    /// A contract: any other code.
    Contract,
    /// Externally owned with delegated code: `ef 01 00` and an address.
    Eip7702,
}

/// The kind of account that holds `code`.
pub open spec fn spec_classify(code: Seq<u8>) -> AccountType {
    if code.len() == 0 {
        AccountType::Eoa
    } else if code.len() == EIP7702_CODE_SIZE && code[0] == 0xef && code[1] == 0x01 && code[2]
        == 0x00 {
        AccountType::Eip7702
    } else {
        AccountType::Contract
    }
}

/// Classifies an account by the code that the chain reports for it.
pub fn classify_account(code: &[u8]) -> (res: AccountType)
    ensures
        res == spec_classify(code@),
{
    if code.len() == 0 {
        return AccountType::Eoa;
    }
    if code.len() == EIP7702_CODE_SIZE && code[0] == 0xef && code[1] == 0x01 && code[2] == 0x00 {
        return AccountType::Eip7702;
    }
    AccountType::Contract
}

/// What `siwe::Message::from_str` makes of a text: the address and the
/// nonce of the message, or the parser's complaint as text.
pub uninterp spec fn siwe_parse(text: Seq<char>) -> Result<(Seq<u8>, Seq<char>), Seq<char>>;

/// The EIP-191 hash that `siwe::Message::eip191_hash` computes for the
/// message that a text parses to; `None` where the text does not parse or
/// the message cannot be written out.
pub uninterp spec fn siwe_eip191_hash(text: Seq<char>) -> Option<Seq<u8>>;

/// `siwe::Message::from_str`: the address and the nonce of an EIP-4361
/// message, or the parser's error as text.
#[verifier::external_body]
fn parse_message(text: &str) -> (res: Result<(Address, String), String>)
    ensures
        match res {
            Ok((address, nonce)) => siwe_parse(text@) == Ok::<_, Seq<char>>((address@, nonce@)),
            Err(detail) => siwe_parse(text@) == Err::<(Seq<u8>, Seq<char>), _>(detail@),
        },
{
    match text.parse::<siwe::Message>() {
        Ok(message) => Ok((Address { bytes: message.address }, message.nonce)),
        Err(e) => Err(e.to_string()),
    }
}

/// `siwe::Message::eip191_hash` of the message that `text` parses to.
#[verifier::external_body]
fn message_hash(text: &str) -> (res: Option<[u8; 32]>)
    ensures
        match res {
            Some(hash) => siwe_eip191_hash(text@) == Some(hash@),
            None => siwe_eip191_hash(text@) is None,
        },
{
    text.parse::<siwe::Message>().ok()?.eip191_hash().ok()
}

/// How the check of a signature ended.
#[derive(Clone, Copy, Debug, PartialEq, Eq)]
pub enum Verdict {
    /// The signature is the account's.
    Valid,
    /// The signature is not the account's.
    Invalid,
    /// The check could not be made.
    Failed,
}

/// Where a sign-in stands.
#[derive(Clone, Copy, Debug, PartialEq, Eq)]
pub enum SignInState {
    /// The code at the claimed address is being fetched.
    AwaitingCode,
    /// The account's `isValidSignature` is being called. With `fallback`
    /// the account is a delegated one, and the ECDSA check follows where
    /// the call does not accept the signature.
    AwaitingContract { fallback: bool },
    /// The ECDSA check is being made.
    AwaitingEoa,
    /// The response was given.
    Finished,
}

/// What the caller brings back from the chain, or from the ECDSA check.
#[derive(Clone, Debug)]
pub enum SignInEvent {
    /// The code at the claimed address.
    Code(Vec<u8>),
    /// The code could not be fetched.
    CodeFailed,
    /// What the account's `isValidSignature` returned.
    ContractReturned(Vec<u8>),
    /// The call of `isValidSignature` failed.
    ContractFailed,
    /// Whether message and signature pass the ECDSA check for the address.
    EoaVerified(bool),
}

/// What the caller has to do next.
#[derive(Debug)]
pub enum SignInAction {
    /// Fetch the code at `address`, then come back with it.
    GetCode { address: Address },
    /// Call `to` with `data`, then come back with what it returned.
    CallContract { to: Address, data: Vec<u8> },
    /// Check message and signature by ECDSA, then come back with the result.
    VerifyEoa,
    /// Answer the request with this.
    Respond(Result<String, RpcError>),
}

/// What a step decides, apart from the response itself.
pub enum Step {
    CallContract(Seq<u8>),
    VerifyEoa,
    Done(Verdict),
}

/// The state after `event` arrives in `state`, and what is decided then,
/// for a message with the EIP-191 hash `hash` and the signature `signature`.
/// An event that does not answer what was asked for ends the sign-in as
/// failed.
pub open spec fn spec_after(
    state: SignInState,
    event: SignInEvent,
    hash: Option<Seq<u8>>,
    signature: Seq<u8>,
) -> (SignInState, Step) {
    match (state, event) {
        (SignInState::AwaitingCode, SignInEvent::Code(code)) => match spec_classify(code@) {
            AccountType::Eoa => (SignInState::AwaitingEoa, Step::VerifyEoa),
            AccountType::Contract => match hash {
                Some(h) => (
                    SignInState::AwaitingContract { fallback: false },
                    Step::CallContract(spec_call_data(h, signature)),
                ),
                None => (SignInState::Finished, Step::Done(Verdict::Failed)),
            },
            AccountType::Eip7702 => match hash {
                Some(h) => (
                    SignInState::AwaitingContract { fallback: true },
                    Step::CallContract(spec_call_data(h, signature)),
                ),
                None => (SignInState::Finished, Step::Done(Verdict::Failed)),
            },
        },
        (SignInState::AwaitingContract { fallback }, SignInEvent::ContractReturned(answer)) => {
            if spec_is_magic(answer@) {
                (SignInState::Finished, Step::Done(Verdict::Valid))
            } else if fallback {
                (SignInState::AwaitingEoa, Step::VerifyEoa)
            } else {
                (SignInState::Finished, Step::Done(Verdict::Invalid))
            }
        },
        (SignInState::AwaitingContract { fallback }, SignInEvent::ContractFailed) => {
            if fallback {
                (SignInState::AwaitingEoa, Step::VerifyEoa)
            } else {
                (SignInState::Finished, Step::Done(Verdict::Failed))
            }
        },
        (SignInState::AwaitingEoa, SignInEvent::EoaVerified(ok)) => (
            SignInState::Finished,
            Step::Done(
                if ok {
                    Verdict::Valid
                } else {
                    Verdict::Invalid
                },
            ),
        ),
        _ => (SignInState::Finished, Step::Done(Verdict::Failed)),
    }
}

/// The verdict on a signature, given what the chain and the ECDSA check
/// answer: `code` is the code at the address (`None`: it could not be
/// fetched), `hash` the message's EIP-191 hash (`None`: it could not be
/// computed), `contract` what `isValidSignature` returned (`None`: the call
/// failed), `eoa` whether the ECDSA check passes.
pub open spec fn spec_verdict(
    code: Option<Seq<u8>>,
    hash: Option<Seq<u8>>,
    contract: Option<Seq<u8>>,
    eoa: bool,
) -> Verdict {
    let by_ecdsa = if eoa {
        Verdict::Valid
    } else {
        Verdict::Invalid
    };
    match code {
        None => Verdict::Failed,
        Some(code) => match spec_classify(code) {
            AccountType::Eoa => by_ecdsa,
            AccountType::Contract => match (hash, contract) {
                (None, _) => Verdict::Failed,
                (Some(_), None) => Verdict::Failed,
                (Some(_), Some(answer)) => if spec_is_magic(answer) {
                    Verdict::Valid
                } else {
                    Verdict::Invalid
                },
            },
            AccountType::Eip7702 => match (hash, contract) {
                (None, _) => Verdict::Failed,
                (Some(_), Some(answer)) => if spec_is_magic(answer) {
                    Verdict::Valid
                } else {
                    by_ecdsa
                },
                (Some(_), None) => by_ecdsa,
            },
        },
    }
}

/// One sign-in under way: a message whose nonce was taken back, and the
/// signature that came with it.
#[derive(Debug)]
pub struct SignIn {
    message: String,
    signature: Vec<u8>,
    address: Address,
    state: SignInState,
}

impl SignIn {
    /// The message, as it was sent.
    pub closed spec fn spec_message(&self) -> Seq<char> {
        self.message@
    }

    /// The signature, as it was sent.
    pub closed spec fn spec_signature(&self) -> Seq<u8> {
        self.signature@
    }

    /// The address that the message claims.
    pub closed spec fn spec_address(&self) -> Seq<u8> {
        self.address@
    }

    /// Where the sign-in stands.
    pub closed spec fn spec_state(&self) -> SignInState {
        self.state
    }

    /// The message, as it was sent.
    pub fn message(&self) -> (res: &str)
        ensures
            res@ == self.spec_message(),
    {
        self.message.as_str()
    }

    /// The signature, as it was sent.
    pub fn signature(&self) -> (res: &[u8])
        ensures
            res@ == self.spec_signature(),
    {
        self.signature.as_slice()
    }

    /// The address that the message claims.
    pub fn address(&self) -> (res: Address)
        ensures
            res@ == self.spec_address(),
    {
        self.address
    }

    /// Where the sign-in stands.
    pub fn state(&self) -> (res: SignInState)
        ensures
            res == self.spec_state(),
    {
        self.state
    }

    /// What becomes of a sign-in once its nonce was taken out of the
    /// store: it goes on where the store gave back an issue time that is no
    /// more than the lifetime ago, and is refused with the nonce otherwise.
    pub open spec fn spec_start(
        message: Seq<char>,
        signature: Seq<u8>,
        address: Seq<u8>,
        nonce: Seq<char>,
        removed: Option<u64>,
        now: u64,
        res: Result<SignIn, RpcError>,
    ) -> bool {
        if removed matches Some(issued_at) && spec_is_live(issued_at, now) {
            res matches Ok(session) && {
                &&& session.spec_message() == message
                &&& session.spec_signature() == signature
                &&& session.spec_address() == address
                &&& session.spec_state() == SignInState::AwaitingCode
            }
        } else {
            res matches Err(e) && e@ == spec_invalid_params("invalid message nonce: "@ + nonce)
        }
    }

    /// Admits or refuses a sign-in by what the store gave back for its
    /// nonce: `removed` is the second at which the nonce was handed out,
    /// or nothing where the store did not hold it.
    pub fn start(
        message: &str,
        signature: &[u8],
        address: Address,
        nonce: &str,
        removed: Option<u64>,
        now: u64,
    ) -> (res: Result<SignIn, RpcError>)
        ensures
            Self::spec_start(message@, signature@, address@, nonce@, removed, now, res),
            res is Ok <==> (removed matches Some(issued_at) && spec_is_live(issued_at, now)),
    {
        if !nonce_is_live(removed, now) {
            return Err(
                invalid_params(String::from_str("invalid message nonce: ").concat(nonce).as_str()),
            );
        }
        Ok(
            SignIn {
                message: message.to_owned(),
                signature: slice_to_vec(signature),
                address,
                state: SignInState::AwaitingCode,
            },
        )
    }

    /// The first thing to do: fetch the code at the claimed address.
    pub fn begin(&self) -> (res: SignInAction)
        ensures
            res matches SignInAction::GetCode { address } && address@ == self.spec_address(),
    {
        SignInAction::GetCode { address: self.address }
    }
}

/// The expiry of a token issued at `now` for `secs` seconds, where it can
/// be represented.
pub open spec fn spec_expiry(now: u64, secs: usize) -> Option<usize> {
    if now + secs <= usize::MAX {
        Some((now + secs) as usize)
    } else {
        None
    }
}

/// The expiry of a token issued at `now` for `secs` seconds.
pub fn expiry(now: u64, secs: usize) -> (res: Option<usize>)
    ensures
        res == spec_expiry(now, secs),
{
    if now > usize::MAX as u64 {
        return None;
    }
    (now as usize).checked_add(secs)
}

/// A response with its strings as sequences.
pub open spec fn spec_answer(res: Result<String, RpcError>) -> Result<Seq<char>, RpcErrorView> {
    match res {
        Ok(token) => Ok(token@),
        Err(e) => Err(e@),
    }
}

/// The sign-in service: hands out nonces, and turns a signed message that
/// carries one of them into a token.
pub struct SiweAuthRpcImpl {
    nonces: NonceStore,
    jwt: JwtSigner,
    jwt_expiry_secs: usize,
}

impl SiweAuthRpcImpl {
    /// The nonces that were handed out and not yet taken back.
    pub closed spec fn nonces(&self) -> Map<Seq<char>, u64> {
        self.nonces.outstanding()
    }

    /// Lifetime in seconds and bound of the nonce store.
    pub closed spec fn limits(&self) -> (u64, u64) {
        (self.nonces.lifetime(), self.nonces.capacity())
    }

    /// The signer that issues the tokens.
    pub closed spec fn signer(&self) -> JwtSigner {
        self.jwt
    }

    /// Seconds for which a token is issued.
    pub closed spec fn expiry_secs(&self) -> usize {
        self.jwt_expiry_secs
    }

    /// A service without outstanding nonces.
    pub fn new(jwt: JwtSigner, jwt_expiry_secs: usize) -> (res: SiweAuthRpcImpl)
        ensures
            res.nonces() == spec_no_entries(),
            res.limits() == (NONCE_TTL_SECS, NONCE_CAPACITY),
            res.signer() == jwt,
            res.expiry_secs() == jwt_expiry_secs,
    {
        SiweAuthRpcImpl { nonces: NonceStore::new(), jwt, jwt_expiry_secs }
    }

    /// Hands out a new nonce at the time `now`.
    pub fn get_nonce_at(&mut self, now: u64) -> (res: Result<String, RpcError>)
        ensures
            match res {
                Ok(nonce) => spec_handed_out(old(self).nonces(), final(self).nonces(), nonce@, now),
                Err(_) => false,
            },
            final(self).signer() == old(self).signer(),
            final(self).expiry_secs() == old(self).expiry_secs(),
            final(self).limits() == old(self).limits(),
    {
        let nonce = self.nonces.fresh_at(now);
        Ok(nonce)
    }

    /// `siwe.getNonce`: hands out a new nonce at the current time.
    pub fn get_nonce(&mut self) -> (res: Result<String, RpcError>)
        ensures
            match res {
                Ok(nonce) => exists|now: u64|
                    spec_handed_out(old(self).nonces(), final(self).nonces(), nonce@, now),
                Err(_) => false,
            },
            final(self).signer() == old(self).signer(),
            final(self).expiry_secs() == old(self).expiry_secs(),
            final(self).limits() == old(self).limits(),
    {
        let now = unix_time();
        self.get_nonce_at(now)
    }

    /// What holds of the first step of `siwe.signIn` made at `now`. A text
    /// that does not parse is refused with the parser's complaint and
    /// leaves the nonces as they are. Otherwise the message's nonce is
    /// taken back, and the sign-in goes on exactly if that succeeded.
    pub open spec fn spec_sign_in(
        before: Map<Seq<char>, u64>,
        after: Map<Seq<char>, u64>,
        message: Seq<char>,
        signature: Seq<u8>,
        now: u64,
        res: Result<SignIn, RpcError>,
    ) -> bool {
        match siwe_parse(message) {
            Err(detail) => {
                &&& after == before
                &&& res matches Err(e) && e@ == spec_invalid_params("invalid message: "@ + detail)
            },
            Ok((address, nonce)) => {
                &&& spec_consumed(before, after, nonce, now, res is Ok)
                &&& match res {
                    Ok(session) => {
                        &&& session.spec_message() == message
                        &&& session.spec_signature() == signature
                        &&& session.spec_address() == address
                        &&& session.spec_state() == SignInState::AwaitingCode
                    },
                    Err(e) => e@ == spec_invalid_params("invalid message nonce: "@ + nonce),
                }
            },
        }
    }

    /// `siwe.signIn`, first step, at the time `now`: parses the message,
    /// takes its nonce out of the store, and lets `SignIn::start` decide
    /// by what the store gave back, before anything is done with the
    /// signature.
    pub fn sign_in_at(&mut self, message: &str, signature: &[u8], now: u64) -> (res: Result<
        SignIn,
        RpcError,
    >)
        ensures
            Self::spec_sign_in(
                old(self).nonces(),
                final(self).nonces(),
                message@,
                signature@,
                now,
                res,
            ),
            final(self).signer() == old(self).signer(),
            final(self).expiry_secs() == old(self).expiry_secs(),
            final(self).limits() == old(self).limits(),
    {
        let (address, nonce) = match parse_message(message) {
            Ok(fields) => fields,
            Err(detail) => {
                return Err(
                    invalid_params(String::from_str("invalid message: ").concat(detail.as_str()).as_str()),
                );
            },
        };
        let removed = self.nonces.take(nonce.as_str());
        SignIn::start(message, signature, address, nonce.as_str(), removed, now)
    }

    /// `siwe.signIn`, first step, at the current time.
    pub fn sign_in(&mut self, message: &str, signature: &[u8]) -> (res: Result<SignIn, RpcError>)
        ensures
            exists|now: u64|
                Self::spec_sign_in(
                    old(self).nonces(),
                    final(self).nonces(),
                    message@,
                    signature@,
                    now,
                    res,
                ),
            final(self).signer() == old(self).signer(),
            final(self).expiry_secs() == old(self).expiry_secs(),
            final(self).limits() == old(self).limits(),
    {
        let now = unix_time();
        self.sign_in_at(message, signature, now)
    }

    /// The response to a sign-in for `address` whose signature check ended
    /// with `verdict` at the time `now`. An invalid signature and a check
    /// that could not be made are refused, each with its own error. A valid
    /// signature earns the token that the signer issues for `address` and
    /// the expiry `now + expiry_secs`; where that expiry cannot be
    /// represented, or the signer issues no token, the response is an
    /// internal error.
    pub open spec fn spec_response(&self, address: Seq<u8>, verdict: Verdict, now: u64) -> Result<
        Seq<char>,
        RpcErrorView,
    > {
        match verdict {
            Verdict::Invalid => Err(spec_invalid_params("invalid message or signature"@)),
            Verdict::Failed => Err(spec_internal_error("signature verification failed"@)),
            Verdict::Valid => match spec_expiry(now, self.expiry_secs()) {
                None => Err(spec_internal_error("unable to issue token"@)),
                Some(exp) => match self.signer().spec_create(address, exp) {
                    Some(token) => Ok(token),
                    None => Err(spec_internal_error("unable to issue token"@)),
                },
            },
        }
    }

    /// Whether `res` is the response to a sign-in for `address` whose
    /// signature check ended with `verdict` at the time `now`.
    pub open spec fn spec_responds(
        &self,
        address: Seq<u8>,
        verdict: Verdict,
        now: u64,
        res: Result<String, RpcError>,
    ) -> bool {
        spec_answer(res) == self.spec_response(address, verdict, now)
    }

    /// The response to a sign-in for `address` whose signature check ended
    /// with `verdict`: a token that expires `expiry_secs` after `now` where
    /// the signature is valid, an error where it is not.
    pub fn respond_at(&self, address: Address, verdict: Verdict, now: u64) -> (res: Result<
        String,
        RpcError,
    >)
        ensures
            spec_answer(res) == self.spec_response(address@, verdict, now),
            verdict == Verdict::Valid ==> (res is Ok <==> (spec_expiry(
                now,
                self.expiry_secs(),
            ) matches Some(exp) && exists|token: Seq<char>|
                self.signer().spec_issues(token, address@, exp))),
    {
        match verdict {
            Verdict::Invalid => Err(invalid_params("invalid message or signature")),
            Verdict::Failed => Err(internal_error("signature verification failed")),
            Verdict::Valid => {
                proof {
                    match spec_expiry(now, self.expiry_secs()) {
                        Some(exp) => {
                            JwtSigner::lemma_issues_some(self.signer(), address@, exp);
                        },
                        None => {},
                    }
                }
                let exp = match expiry(now, self.jwt_expiry_secs) {
                    Some(exp) => exp,
                    None => {
                        return Err(internal_error("unable to issue token"));
                    },
                };
                match self.jwt.create_token(address, exp) {
                    Ok(token) => Ok(token),
                    Err(_) => Err(internal_error("unable to issue token")),
                }
            },
        }
    }

    /// A valid signature earns the token, and the token carries the
    /// message's address: where the expiry `now + expiry_secs` can be
    /// represented and the signer issues a token for it, that token is the
    /// response, and the signer reads the address and that expiry in it
    /// for as long as it is in time.
    pub proof fn law_valid_signature_earns_the_token(
        service: SiweAuthRpcImpl,
        address: Seq<u8>,
        now: u64,
        exp: usize,
        token: Seq<char>,
        later: u64,
    )
        requires
            spec_expiry(now, service.expiry_secs()) == Some(exp),
            service.signer().spec_issues(token, address, exp),
        ensures
            service.spec_response(address, Verdict::Valid, now) == Ok::<Seq<char>, RpcErrorView>(
                token,
            ),
            exp == now + service.expiry_secs(),
            spec_in_time(exp, later) ==> service.signer().spec_decode(token, later) == Ok::<
                (Seq<u8>, usize),
                JwtErrorView,
            >((address, exp)),
    {
    }

    /// Whether `action` carries out `step` for a sign-in of `address`.
    pub open spec fn spec_performs(
        &self,
        address: Seq<u8>,
        step: Step,
        now: u64,
        action: SignInAction,
    ) -> bool {
        match step {
            Step::CallContract(data) => action matches SignInAction::CallContract { to, data: d }
                && to@ == address && d@ == data,
            Step::VerifyEoa => action is VerifyEoa,
            Step::Done(verdict) => action matches SignInAction::Respond(res) && self.spec_responds(
                address,
                verdict,
                now,
                res,
            ),
        }
    }

    /// What holds of one step made at `now`: message, signature and address
    /// stay, the state moves as `spec_after` says, and `action` carries out
    /// what was decided.
    pub open spec fn spec_resumed(
        &self,
        before: SignIn,
        after: SignIn,
        event: SignInEvent,
        now: u64,
        action: SignInAction,
    ) -> bool {
        let (state, step) = spec_after(
            before.spec_state(),
            event,
            siwe_eip191_hash(before.spec_message()),
            before.spec_signature(),
        );
        &&& after.spec_message() == before.spec_message()
        &&& after.spec_signature() == before.spec_signature()
        &&& after.spec_address() == before.spec_address()
        &&& after.spec_state() == state
        &&& self.spec_performs(before.spec_address(), step, now, action)
    }

    /// Takes a sign-in one step further, at the time `now`: `event` is what
    /// the caller got for the action returned last.
    pub fn resume_at(&self, session: &mut SignIn, event: SignInEvent, now: u64) -> (action:
        SignInAction)
        ensures
            self.spec_resumed(*old(session), *final(session), event, now, action),
    {
        let state = session.state;
        session.state = SignInState::Finished;
        match (state, event) {
            (SignInState::AwaitingCode, SignInEvent::Code(code)) => {
                let fallback = match classify_account(code.as_slice()) {
                    AccountType::Eoa => {
                        session.state = SignInState::AwaitingEoa;
                        return SignInAction::VerifyEoa;
                    },
                    AccountType::Contract => false,
                    AccountType::Eip7702 => true,
                };
                match message_hash(session.message.as_str()) {
                    Some(hash) => {
                        session.state = SignInState::AwaitingContract { fallback };
                        SignInAction::CallContract {
                            to: session.address,
                            data: erc1271_call_data(&hash, session.signature.as_slice()),
                        }
                    },
                    None => SignInAction::Respond(
                        self.respond_at(session.address, Verdict::Failed, now),
                    ),
                }
            },
            (SignInState::AwaitingContract { fallback }, SignInEvent::ContractReturned(answer)) => {
                if is_erc1271_magic(answer.as_slice()) {
                    SignInAction::Respond(self.respond_at(session.address, Verdict::Valid, now))
                } else if fallback {
                    session.state = SignInState::AwaitingEoa;
                    SignInAction::VerifyEoa
                } else {
                    SignInAction::Respond(self.respond_at(session.address, Verdict::Invalid, now))
                }
            },
            (SignInState::AwaitingContract { fallback }, SignInEvent::ContractFailed) => {
                if fallback {
                    session.state = SignInState::AwaitingEoa;
                    SignInAction::VerifyEoa
                } else {
                    SignInAction::Respond(self.respond_at(session.address, Verdict::Failed, now))
                }
            },
            (SignInState::AwaitingEoa, SignInEvent::EoaVerified(ok)) => {
                let verdict = if ok {
                    Verdict::Valid
                } else {
                    Verdict::Invalid
                };
                SignInAction::Respond(self.respond_at(session.address, verdict, now))
            },
            _ => SignInAction::Respond(self.respond_at(session.address, Verdict::Failed, now)),
        }
    }

    /// Takes a sign-in one step further, at the current time.
    pub fn resume(&self, session: &mut SignIn, event: SignInEvent) -> (action: SignInAction)
        ensures
            exists|now: u64| self.spec_resumed(*old(session), *final(session), event, now, action),
    {
        let now = unix_time();
        self.resume_at(session, event, now)
    }
}

/// The verdict that the steps arrive at when every action is answered: the
/// fetch of the code with `code`, the contract call with `contract`, the
/// ECDSA check with `eoa`. `None` where the steps do not end within these.
pub open spec fn spec_run(
    code: SignInEvent,
    contract: SignInEvent,
    eoa: SignInEvent,
    hash: Option<Seq<u8>>,
    signature: Seq<u8>,
) -> Option<Verdict> {
    let (s1, d1) = spec_after(SignInState::AwaitingCode, code, hash, signature);
    match d1 {
        Step::Done(verdict) => Some(verdict),
        Step::VerifyEoa => match spec_after(s1, eoa, hash, signature).1 {
            Step::Done(verdict) => Some(verdict),
            _ => None,
        },
        Step::CallContract(_) => {
            let (s2, d2) = spec_after(s1, contract, hash, signature);
            match d2 {
                Step::Done(verdict) => Some(verdict),
                Step::VerifyEoa => match spec_after(s2, eoa, hash, signature).1 {
                    Step::Done(verdict) => Some(verdict),
                    _ => None,
                },
                Step::CallContract(_) => None,
            }
        },
    }
}

/// The code that an answer to `GetCode` carries, if the fetch succeeded.
pub open spec fn spec_code_of(event: SignInEvent) -> Option<Seq<u8>> {
    match event {
        SignInEvent::Code(code) => Some(code@),
        _ => None,
    }
}

/// The bytes that an answer to `CallContract` carries, if the call succeeded.
pub open spec fn spec_answer_of(event: SignInEvent) -> Option<Seq<u8>> {
    match event {
        SignInEvent::ContractReturned(answer) => Some(answer@),
        _ => None,
    }
}

/// The steps decide as the rules say. Whatever the chain and the ECDSA
/// check answer, a sign-in whose actions are answered in turn ends, after
/// three answers at most, with the verdict that the rules give for those
/// answers: ECDSA alone for an externally owned account; the contract's
/// answer alone for a contract, a failed call being a failure; the
/// contract's answer first for a delegated account, and ECDSA where the
/// contract does not accept or cannot be called.
pub proof fn law_steps_reach_the_verdict(
    code: SignInEvent,
    contract: SignInEvent,
    eoa: bool,
    hash: Option<Seq<u8>>,
    signature: Seq<u8>,
)
    requires
        code is Code || code is CodeFailed,
        contract is ContractReturned || contract is ContractFailed,
    ensures
        spec_run(code, contract, SignInEvent::EoaVerified(eoa), hash, signature) == Some(
            spec_verdict(spec_code_of(code), hash, spec_answer_of(contract), eoa),
        ),
{
}

/// Only twenty-three bytes that start with `ef 01 00` make a delegated
/// account; no code makes an externally owned one; anything else is a
/// contract.
pub proof fn law_classification(code: Seq<u8>)
    ensures
        spec_classify(code) == AccountType::Eoa <==> code.len() == 0,
        spec_classify(code) == AccountType::Eip7702 <==> code.len() == 23 && code.subrange(0, 3)
            == seq![0xefu8, 0x01u8, 0x00u8],
        spec_classify(code) == AccountType::Contract <==> code.len() > 0 && !(code.len() == 23
            && code.subrange(0, 3) == seq![0xefu8, 0x01u8, 0x00u8]),
{
    let prefix = seq![0xefu8, 0x01u8, 0x00u8];
    if code.len() >= 3 {
        let head = code.subrange(0, 3);
        assert(head[0] == code[0] && head[1] == code[1] && head[2] == code[2]);
        assert(prefix[0] == 0xefu8 && prefix[1] == 0x01u8 && prefix[2] == 0x00u8);
        if code[0] == 0xef && code[1] == 0x01 && code[2] == 0x00 {
            assert(head =~= prefix);
        }
    }
}

} // verus!
