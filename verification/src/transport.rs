//! The transport between the binding and the chain, and what it answers.
//!
//! A transport is an implementor of `test_tube_inj::Runner` that declares of
//! itself that it answers. It signs and executes messages, answers queries,
//! and owns every failure that can occur on the way. The binding only chooses
//! the route and returns the answer.

use crate::messages::Declared;
use crate::route::Capability;
use cosmwasm_std::Event;
use test_tube_inj::cosmrs::proto::cosmos::base::abci::v1beta1::GasInfo;
use test_tube_inj::{Runner, RunnerError, SigningAccount};
use vstd::prelude::*;

verus! {

/// `test_tube_inj`'s account that can sign a transaction.
#[verifier::external_type_specification]
#[verifier::external_body]
pub struct ExSigningAccount(test_tube_inj::SigningAccount);

/// `test_tube_inj`'s error: every failure that a transport reports.
#[verifier::external_type_specification]
#[verifier::external_body]
pub struct ExRunnerError(test_tube_inj::RunnerError);

/// `cosmwasm_std`'s event, as a transaction emits it.
#[verifier::external_type_specification]
#[verifier::external_body]
pub struct ExEvent(cosmwasm_std::Event);

/// The gas that a transaction asked for and used, in the chain's own type.
#[verifier::external_type_specification]
#[verifier::external_body]
pub struct ExGasInfo(test_tube_inj::cosmrs::proto::cosmos::base::abci::v1beta1::GasInfo);

/// What a transport reports of a message that was executed: the decoded
/// response and the metadata of the execution. The binding reads none of it.
#[derive(Debug, PartialEq)]
pub struct Executed<T> {
    /// The response of the message's handler, decoded.
    pub data: T,
    /// The bytes that `data` was decoded from.
    pub raw_data: Vec<u8>,
    /// The events that the transaction emitted.
    pub events: Vec<Event>,
    /// The gas that the transaction asked for and used.
    pub gas_info: GasInfo,
}

/// A transport that answers: whatever request, route and signer it is given,
/// its `execute` and its `query` come back, with a response or with a failure,
/// and do not unwind.
///
/// Nothing here can check that of an implementor. The trait is the
/// implementor's own word, and the binding's promise that an operation
/// returns is made to such transports alone. A runner that may unwind, on a
/// signer's fee it cannot parse or on what the chain hands back, is not one.
pub trait Answers {}

/// Calls `test_tube_inj::Runner::execute` with `msg`, `type_url` and
/// `signer`, and moves the four fields of its `ExecuteResponse` into an
/// `Executed`.
///
/// Nothing is claimed of the answer: it is the implementor's, and it depends
/// on the state of the chain behind it. That the call comes back is claimed
/// of no runner but one that declares it by `Answers`. The precondition is the
/// binding's own rule: a message goes out under the route of the entry that
/// the table declares for its type, and that entry is an execute entry.
#[verifier::external_body]
pub(crate) fn execute_on<'a, R, M>(
    runner: &'a R,
    msg: M,
    type_url: &str,
    signer: &SigningAccount,
) -> (answer: Result<Executed<M::Response>, RunnerError>) where
    R: Runner<'a> + Answers,
    M: Declared + prost::Message,
    M::Response: prost::Message + Default,

    requires
        M::entry().spec_capability() == Capability::Execute,
        type_url@ == M::entry().spec_route(),
{
    match runner.execute::<M, M::Response>(msg, type_url, signer) {
        Ok(r) => Ok(
            Executed { data: r.data, raw_data: r.raw_data, events: r.events, gas_info: r.gas_info },
        ),
        Err(e) => Err(e),
    }
}

/// Calls `test_tube_inj::Runner::query` with `path` and `request`.
///
/// Nothing is claimed of the answer: it is the implementor's, and it depends
/// on the state of the chain behind it. That the call comes back is claimed
/// of no runner but one that declares it by `Answers`. The precondition is the
/// binding's own rule: a request goes out under the route of the entry that
/// the table declares for its type, and that entry is a query entry.
#[verifier::external_body]
pub(crate) fn query_on<'a, R, Q>(runner: &'a R, path: &str, request: &Q) -> (answer: Result<
    Q::Response,
    RunnerError,
>) where R: Runner<'a> + Answers, Q: Declared + prost::Message, Q::Response: prost::Message + Default
    requires
        Q::entry().spec_capability() == Capability::Query,
        path@ == Q::entry().spec_route(),
{
    runner.query::<Q, Q::Response>(path, request)
}

/// What the binding does with a transport's answer, whichever operation was
/// asked for: it hands the answer on. A response reaches the caller as the
/// transport decoded it, and a failure reaches the caller as that failure;
/// nothing is tried again, recovered, or replaced by a default response.
pub fn surface<T>(answer: Result<T, RunnerError>) -> (outcome: Result<T, RunnerError>)
    ensures
        outcome == answer,
{
    answer
}

} // verus!
