//! The operations of the auction module and the route identifier of each.

use vstd::prelude::*;

verus! {

/// The two ways in which a transport can be asked to act.
#[derive(Clone, Copy, Debug, PartialEq, Eq, Structural)]
pub enum Capability {
    /// A state-changing message, authorised by a signer.
    Execute,
    /// A read-only request; no signer takes part.
    Query,
}

/// One entry of the module's table of operations.
#[derive(Clone, Copy, Debug, PartialEq, Eq, Structural)]
pub enum Operation {
    /// Replace the module's parameters.
    UpdateParams,
    /// Place a bid in the running auction round.
    MsgBid,
    /// Read the module's parameters.
    QueryAuctionParams,
    /// Read the basket that the running round auctions off.
    QueryCurrentAuctionBasket,
    /// Read the module's whole state.
    QueryModuleState,
    /// Read the chain's module accounts.
    QueryModuleAccounts,
    /// Read the result of the last finished round.
    QueryLastAuctionResult,
}

impl Operation {
    /// The capability through which the operation reaches the chain.
    pub open spec fn spec_capability(self) -> Capability {
        match self {
            Operation::UpdateParams | Operation::MsgBid => Capability::Execute,
            Operation::QueryAuctionParams
            | Operation::QueryCurrentAuctionBasket
            | Operation::QueryModuleState
            | Operation::QueryModuleAccounts
            | Operation::QueryLastAuctionResult => Capability::Query,
        }
    }

    /// The route identifier of the operation's remote handler: a message type
    /// URL for an execute operation, a query service method path for a query.
    pub open spec fn spec_route(self) -> Seq<char> {
        match self {
            Operation::UpdateParams => "/injective.auction.v1beta1.MsgUpdateParams"@,
            Operation::MsgBid => "/injective.auction.v1beta1.MsgBid"@,
            Operation::QueryAuctionParams => "/injective.auction.v1beta1.Query/AuctionParams"@,
            Operation::QueryCurrentAuctionBasket =>
                "/injective.auction.v1beta1.Query/CurrentAuctionBasket"@,
            Operation::QueryModuleState => "/injective.auction.v1beta1.Query/ModuleState"@,
            Operation::QueryModuleAccounts => "/cosmos.auth.v1beta1.Query/ModuleAccounts"@,
            Operation::QueryLastAuctionResult => "/injective.auction.v1beta1.Query/LastAuctionResult"@,
        }
    }

    /// The capability through which the operation reaches the chain.
    #[verifier::when_used_as_spec(spec_capability)]
    pub fn capability(self) -> (capability: Capability)
        ensures
            capability == self.spec_capability(),
    {
        match self {
            Operation::UpdateParams | Operation::MsgBid => Capability::Execute,
            Operation::QueryAuctionParams
            | Operation::QueryCurrentAuctionBasket
            | Operation::QueryModuleState
            | Operation::QueryModuleAccounts
            | Operation::QueryLastAuctionResult => Capability::Query,
        }
    }

    /// The route identifier of the operation's remote handler, as it goes on
    /// the wire.
    pub fn route(self) -> (route: &'static str)
        ensures
            route@ == self.spec_route(),
    {
        match self {
            Operation::UpdateParams => "/injective.auction.v1beta1.MsgUpdateParams",
            Operation::MsgBid => "/injective.auction.v1beta1.MsgBid",
            Operation::QueryAuctionParams => "/injective.auction.v1beta1.Query/AuctionParams",
            Operation::QueryCurrentAuctionBasket =>
                "/injective.auction.v1beta1.Query/CurrentAuctionBasket",
            Operation::QueryModuleState => "/injective.auction.v1beta1.Query/ModuleState",
            Operation::QueryModuleAccounts => "/cosmos.auth.v1beta1.Query/ModuleAccounts",
            Operation::QueryLastAuctionResult => "/injective.auction.v1beta1.Query/LastAuctionResult",
        }
    }
}

/// A route identifier names one handler: two operations with the same route
/// identifier are the same operation.
pub proof fn lemma_route_names_one_operation(a: Operation, b: Operation)
    requires
        a.spec_route() == b.spec_route(),
    ensures
        a == b,
{
    reveal_strlit("/injective.auction.v1beta1.MsgUpdateParams");
    reveal_strlit("/injective.auction.v1beta1.MsgBid");
    reveal_strlit("/injective.auction.v1beta1.Query/AuctionParams");
    reveal_strlit("/injective.auction.v1beta1.Query/CurrentAuctionBasket");
    reveal_strlit("/injective.auction.v1beta1.Query/ModuleState");
    reveal_strlit("/cosmos.auth.v1beta1.Query/ModuleAccounts");
    reveal_strlit("/injective.auction.v1beta1.Query/LastAuctionResult");
    assert(Operation::UpdateParams.spec_route().len() == 42);
    assert(Operation::MsgBid.spec_route().len() == 33);
    assert(Operation::QueryAuctionParams.spec_route().len() == 46);
    assert(Operation::QueryCurrentAuctionBasket.spec_route().len() == 53);
    assert(Operation::QueryModuleState.spec_route().len() == 44);
    assert(Operation::QueryModuleAccounts.spec_route().len() == 41);
    assert(Operation::QueryLastAuctionResult.spec_route().len() == 50);
}

/// A route identifier belongs to one capability: operations that share a
/// route identifier go through the same capability, so no route is asked of
/// both the execute path and the query path.
pub proof fn lemma_route_has_one_capability(a: Operation, b: Operation)
    requires
        a.spec_route() == b.spec_route(),
    ensures
        a.spec_capability() == b.spec_capability(),
{
    lemma_route_names_one_operation(a, b);
}

} // verus!
