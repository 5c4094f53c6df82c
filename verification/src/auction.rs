//! The handle through which a caller reaches the auction module.

use crate::messages::Declared;
use crate::route::{Capability, Operation};
use crate::transport::{execute_on, query_on, surface, Answers, Executed};
use injective_std::types::cosmos::auth::v1beta1::{
    QueryModuleAccountsRequest, QueryModuleAccountsResponse,
};
use injective_std::types::injective::auction::v1beta1::{
    MsgBid, MsgBidResponse, MsgUpdateParams, MsgUpdateParamsResponse, QueryAuctionParamsRequest,
    QueryAuctionParamsResponse, QueryCurrentAuctionBasketRequest,
    QueryCurrentAuctionBasketResponse, QueryLastAuctionResultRequest,
    QueryLastAuctionResultResponse, QueryModuleStateRequest, QueryModuleStateResponse,
};
use test_tube_inj::{Module, Runner, RunnerError, SigningAccount};
use vstd::prelude::*;

verus! {

/// A handle on the auction module of the chain behind one transport.
///
/// It borrows the transport and holds nothing else, so any number of handles
/// can share a transport and no call leaves a trace in the handle. A handle
/// can be made on any runner; its operations are there for a runner that
/// declares `Answers`.
///
/// Each operation asks the transport once, under the route of the entry that
/// the table declares for the request's type, and hands the transport's
/// answer on as `surface` does.
pub struct Auction<'a, R> {
    runner: &'a R,
}

impl<'a, R> Auction<'a, R> {
    /// The transport that the handle borrows.
    pub closed spec fn transport(&self) -> &'a R {
        self.runner
    }
}

impl<'a, R: Runner<'a>> Module<'a, R> for Auction<'a, R> {
    /// A handle on `runner`. It cannot fail.
    fn new(runner: &'a R) -> (handle: Self)
        ensures
            handle.transport() == runner,
    {
        Auction { runner }
    }
}

impl<'a, R: Runner<'a> + Answers> Auction<'a, R> {
    /// Hands `msg` to the transport for signing and execution, under the
    /// route of `op`, the entry that the table declares for messages of its
    /// type.
    fn execute<M>(&self, op: Operation, msg: M, signer: &SigningAccount) -> (outcome: Result<
        Executed<M::Response>,
        RunnerError,
    >) where M: Declared + prost::Message, M::Response: prost::Message + Default
        requires
            op == M::entry(),
            op.spec_capability() == Capability::Execute,
    {
        let answer = execute_on(self.runner, msg, op.route(), signer);
        surface(answer)
    }

    /// Hands `request` to the transport's query path, under the route of
    /// `op`, the entry that the table declares for requests of its type.
    fn query<Q>(&self, op: Operation, request: &Q) -> (outcome: Result<
        Q::Response,
        RunnerError,
    >) where Q: Declared + prost::Message, Q::Response: prost::Message + Default
        requires
            op == Q::entry(),
            op.spec_capability() == Capability::Query,
    {
        let answer = query_on(self.runner, op.route(), request);
        surface(answer)
    }

    /// Replaces the module's parameters, on the authority of `signer`.
    pub fn update_params(&self, msg: MsgUpdateParams, signer: &SigningAccount) -> (outcome: Result<
        Executed<MsgUpdateParamsResponse>,
        RunnerError,
    >) {
        self.execute(Operation::UpdateParams, msg, signer)
    }

    /// Places a bid in the running auction round, signed by `signer`.
    pub fn msg_bid(&self, msg: MsgBid, signer: &SigningAccount) -> (outcome: Result<
        Executed<MsgBidResponse>,
        RunnerError,
    >) {
        self.execute(Operation::MsgBid, msg, signer)
    }

    /// Reads the module's parameters.
    pub fn query_auction_params(&self, msg: &QueryAuctionParamsRequest) -> (outcome: Result<
        QueryAuctionParamsResponse,
        RunnerError,
    >) {
        self.query(Operation::QueryAuctionParams, msg)
    }

    /// Reads the basket that the running round auctions off.
    pub fn query_current_auction_basket(&self, msg: &QueryCurrentAuctionBasketRequest) -> (outcome:
        Result<QueryCurrentAuctionBasketResponse, RunnerError>) {
        self.query(Operation::QueryCurrentAuctionBasket, msg)
    }

    /// Reads the module's whole state.
    pub fn query_module_state(&self, msg: &QueryModuleStateRequest) -> (outcome: Result<
        QueryModuleStateResponse,
        RunnerError,
    >) {
        self.query(Operation::QueryModuleState, msg)
    }

    /// Reads the chain's module accounts.
    pub fn query_module_accounts(&self, msg: &QueryModuleAccountsRequest) -> (outcome: Result<
        QueryModuleAccountsResponse,
        RunnerError,
    >) {
        self.query(Operation::QueryModuleAccounts, msg)
    }

    /// Reads the result of the last finished round.
    pub fn query_last_auction_result(&self, msg: &QueryLastAuctionResultRequest) -> (outcome:
        Result<QueryLastAuctionResultResponse, RunnerError>) {
        self.query(Operation::QueryLastAuctionResult, msg)
    }
}

} // verus!
