//! The request and response payloads of the module, as the chain's schema
//! crate defines them, and the entry of the table that each request type
//! belongs to. The binding carries the payloads through and reads none.

use crate::route::Operation;
use injective_std::types::cosmos::auth::v1beta1::{
    QueryModuleAccountsRequest, QueryModuleAccountsResponse,
};
use injective_std::types::injective::auction::v1beta1::{
    MsgBid, MsgBidResponse, MsgUpdateParams, MsgUpdateParamsResponse, QueryAuctionParamsRequest,
    QueryAuctionParamsResponse, QueryCurrentAuctionBasketRequest,
    QueryCurrentAuctionBasketResponse, QueryLastAuctionResultRequest,
    QueryLastAuctionResultResponse, QueryModuleStateRequest, QueryModuleStateResponse,
};
use vstd::prelude::*;

verus! {

/// A request type that the table declares. The impls below are the table's
/// type columns: a request of this type goes out under the route of `entry()`
/// and under no other, and what comes back is decoded as a `Response`.
pub trait Declared {
    /// The type that the handler's response is decoded as.
    type Response;

    /// The entry of the table that requests of this type belong to.
    spec fn entry() -> Operation;
}

impl Declared for MsgUpdateParams {
    type Response = MsgUpdateParamsResponse;

    open spec fn entry() -> Operation {
        Operation::UpdateParams
    }
}

impl Declared for MsgBid {
    type Response = MsgBidResponse;

    open spec fn entry() -> Operation {
        Operation::MsgBid
    }
}

impl Declared for QueryAuctionParamsRequest {
    type Response = QueryAuctionParamsResponse;

    open spec fn entry() -> Operation {
        Operation::QueryAuctionParams
    }
}

impl Declared for QueryCurrentAuctionBasketRequest {
    type Response = QueryCurrentAuctionBasketResponse;

    open spec fn entry() -> Operation {
        Operation::QueryCurrentAuctionBasket
    }
}

impl Declared for QueryModuleStateRequest {
    type Response = QueryModuleStateResponse;

    open spec fn entry() -> Operation {
        Operation::QueryModuleState
    }
}

impl Declared for QueryModuleAccountsRequest {
    type Response = QueryModuleAccountsResponse;

    open spec fn entry() -> Operation {
        Operation::QueryModuleAccounts
    }
}

impl Declared for QueryLastAuctionResultRequest {
    type Response = QueryLastAuctionResultResponse;

    open spec fn entry() -> Operation {
        Operation::QueryLastAuctionResult
    }
}

/// `injective_std`'s message that replaces the module's parameters.
#[verifier::external_type_specification]
#[verifier::external_body]
pub struct ExMsgUpdateParams(injective_std::types::injective::auction::v1beta1::MsgUpdateParams);

/// `injective_std`'s response to a parameter update.
#[verifier::external_type_specification]
#[verifier::external_body]
pub struct ExMsgUpdateParamsResponse(injective_std::types::injective::auction::v1beta1::MsgUpdateParamsResponse);

/// `injective_std`'s message that places a bid.
#[verifier::external_type_specification]
#[verifier::external_body]
pub struct ExMsgBid(injective_std::types::injective::auction::v1beta1::MsgBid);

/// `injective_std`'s response to a bid.
#[verifier::external_type_specification]
#[verifier::external_body]
pub struct ExMsgBidResponse(injective_std::types::injective::auction::v1beta1::MsgBidResponse);

/// `injective_std`'s request for the module's parameters.
#[verifier::external_type_specification]
#[verifier::external_body]
pub struct ExQueryAuctionParamsRequest(injective_std::types::injective::auction::v1beta1::QueryAuctionParamsRequest);

/// `injective_std`'s response that holds the module's parameters.
#[verifier::external_type_specification]
#[verifier::external_body]
pub struct ExQueryAuctionParamsResponse(injective_std::types::injective::auction::v1beta1::QueryAuctionParamsResponse);

/// `injective_std`'s request for the running round's basket.
#[verifier::external_type_specification]
#[verifier::external_body]
pub struct ExQueryCurrentAuctionBasketRequest(injective_std::types::injective::auction::v1beta1::QueryCurrentAuctionBasketRequest);

/// `injective_std`'s response that holds the running round's basket.
#[verifier::external_type_specification]
#[verifier::external_body]
pub struct ExQueryCurrentAuctionBasketResponse(injective_std::types::injective::auction::v1beta1::QueryCurrentAuctionBasketResponse);

/// `injective_std`'s request for the module's whole state.
#[verifier::external_type_specification]
#[verifier::external_body]
pub struct ExQueryModuleStateRequest(injective_std::types::injective::auction::v1beta1::QueryModuleStateRequest);

/// `injective_std`'s response that holds the module's whole state.
#[verifier::external_type_specification]
#[verifier::external_body]
pub struct ExQueryModuleStateResponse(injective_std::types::injective::auction::v1beta1::QueryModuleStateResponse);

/// `injective_std`'s request for the result of the last finished round.
#[verifier::external_type_specification]
#[verifier::external_body]
pub struct ExQueryLastAuctionResultRequest(injective_std::types::injective::auction::v1beta1::QueryLastAuctionResultRequest);

/// `injective_std`'s response that holds the result of the last finished round.
#[verifier::external_type_specification]
#[verifier::external_body]
pub struct ExQueryLastAuctionResultResponse(injective_std::types::injective::auction::v1beta1::QueryLastAuctionResultResponse);

/// `injective_std`'s request for the chain's module accounts.
#[verifier::external_type_specification]
#[verifier::external_body]
pub struct ExQueryModuleAccountsRequest(injective_std::types::cosmos::auth::v1beta1::QueryModuleAccountsRequest);

/// `injective_std`'s response that holds the chain's module accounts.
#[verifier::external_type_specification]
#[verifier::external_body]
pub struct ExQueryModuleAccountsResponse(injective_std::types::cosmos::auth::v1beta1::QueryModuleAccountsResponse);

} // verus!
