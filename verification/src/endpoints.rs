//! The endpoints of the server, and the statuses that their requests are answered with.

use vstd::prelude::*;

use crate::error::{ApiResult, STATUS_ACCEPTED, STATUS_CREATED, STATUS_OK};
use crate::state::{AppState, AppStateView};
use crate::types::MessageResponse;

verus! {

/// What a request asks for.
#[derive(Debug, Clone, Copy, PartialEq, Eq, Structural)]
pub enum Endpoint {
    Health,
    CreateProfile,
    ListProfiles,
    RegisterUser,
    CreateCampaign,
    ListCampaigns,
    CompleteTask,
    RunTool,
    RunProxy,
    CreateSponsoredApi,
    ListSponsoredApis,
    GetSponsoredApi,
    RunSponsoredApi,
    IngestX402ScanSettlement,
    SponsorDashboard,
    RecordCreatorMetricEvent,
    CreatorMetrics,
    CreateTestnetPayment,
}

impl Endpoint {
    /// The route that requests to the endpoint take, and are counted under.
    pub open spec fn path(self) -> Seq<char> {
        match self {
            Endpoint::Health => "/health"@,
            Endpoint::CreateProfile => "/profiles"@,
            Endpoint::ListProfiles => "/profiles"@,
            Endpoint::RegisterUser => "/register"@,
            Endpoint::CreateCampaign => "/campaigns"@,
            Endpoint::ListCampaigns => "/campaigns"@,
            Endpoint::CompleteTask => "/tasks/complete"@,
            Endpoint::RunTool => "/tool/:service/run"@,
            Endpoint::RunProxy => "/proxy/:service/run"@,
            Endpoint::CreateSponsoredApi => "/sponsored-apis"@,
            Endpoint::ListSponsoredApis => "/sponsored-apis"@,
            Endpoint::GetSponsoredApi => "/sponsored-apis/:api_id"@,
            Endpoint::RunSponsoredApi => "/sponsored-apis/:api_id/run"@,
            Endpoint::IngestX402ScanSettlement => "/webhooks/x402scan/settlement"@,
            Endpoint::SponsorDashboard => "/dashboard/sponsor/:campaign_id"@,
            Endpoint::RecordCreatorMetricEvent => "/creator/metrics/event"@,
            Endpoint::CreatorMetrics => "/creator/metrics"@,
            Endpoint::CreateTestnetPayment => "/payments/testnet/direct"@,
        }
    }

    /// The status of a request that succeeds.
    pub open spec fn success(self) -> u16 {
        match self {
            Endpoint::CreateProfile
            | Endpoint::RegisterUser
            | Endpoint::CreateCampaign
            | Endpoint::CompleteTask
            | Endpoint::CreateSponsoredApi
            | Endpoint::RecordCreatorMetricEvent
            | Endpoint::CreateTestnetPayment => STATUS_CREATED,
            Endpoint::IngestX402ScanSettlement => STATUS_ACCEPTED,
            _ => STATUS_OK,
        }
    }

    /// The route that requests to the endpoint take, and are counted under.
    pub fn route(self) -> (r: &'static str)
        ensures
            r@ == self.path(),
    {
        match self {
            Endpoint::Health => "/health",
            Endpoint::CreateProfile => "/profiles",
            Endpoint::ListProfiles => "/profiles",
            Endpoint::RegisterUser => "/register",
            Endpoint::CreateCampaign => "/campaigns",
            Endpoint::ListCampaigns => "/campaigns",
            Endpoint::CompleteTask => "/tasks/complete",
            Endpoint::RunTool => "/tool/:service/run",
            Endpoint::RunProxy => "/proxy/:service/run",
            Endpoint::CreateSponsoredApi => "/sponsored-apis",
            Endpoint::ListSponsoredApis => "/sponsored-apis",
            Endpoint::GetSponsoredApi => "/sponsored-apis/:api_id",
            Endpoint::RunSponsoredApi => "/sponsored-apis/:api_id/run",
            Endpoint::IngestX402ScanSettlement => "/webhooks/x402scan/settlement",
            Endpoint::SponsorDashboard => "/dashboard/sponsor/:campaign_id",
            Endpoint::RecordCreatorMetricEvent => "/creator/metrics/event",
            Endpoint::CreatorMetrics => "/creator/metrics",
            Endpoint::CreateTestnetPayment => "/payments/testnet/direct",
        }
    }

    /// The status of a request that succeeds.
    pub fn success_status(self) -> (r: u16)
        ensures
            r == self.success(),
    {
        match self {
            Endpoint::CreateProfile
            | Endpoint::RegisterUser
            | Endpoint::CreateCampaign
            | Endpoint::CompleteTask
            | Endpoint::CreateSponsoredApi
            | Endpoint::RecordCreatorMetricEvent
            | Endpoint::CreateTestnetPayment => STATUS_CREATED,
            Endpoint::IngestX402ScanSettlement => STATUS_ACCEPTED,
            _ => STATUS_OK,
        }
    }
}

/// The answer to a request: its status, and what it holds.
#[derive(Debug)]
pub struct Reply<T> {
    pub status: u16,
    pub result: ApiResult<T>,
}

/// The status of a request that came to a result.
pub open spec fn reply_status<T>(endpoint: Endpoint, result: ApiResult<T>) -> u16 {
    match result {
        Ok(_) => endpoint.success(),
        Err(error) => error@.status(),
    }
}

impl AppStateView {
    /// The state after a request to an endpoint was answered with a status: it is counted.
    pub open spec fn after_reply(self, endpoint: Endpoint, status: u16) -> AppStateView {
        self.with_metrics(self.metrics.with_request(endpoint.path(), status))
    }
}

impl AppState {
    /// Counts a request to an endpoint that was answered with a status.
    pub fn mark_request(&mut self, endpoint: Endpoint, status: u16)
        requires
            old(self).well_formed(),
        ensures
            final(self).well_formed(),
            final(self)@ == old(self)@.after_reply(endpoint, status),
    {
        self.metrics.mark_request(endpoint.route(), status);
    }

    /// Answers a request that came to a result, and counts it under its status.
    pub fn respond<T>(&mut self, endpoint: Endpoint, result: ApiResult<T>) -> (r: Reply<T>)
        requires
            old(self).well_formed(),
        ensures
            final(self).well_formed(),
            r.result == result,
            r.status == reply_status(endpoint, result),
            final(self)@ == old(self)@.after_reply(endpoint, r.status),
    {
        let status: u16 = match &result {
            Ok(_) => endpoint.success_status(),
            Err(error) => error.status(),
        };
        self.mark_request(endpoint, status);
        Reply { status, result }
    }
}

/// What a request is told that asks whether the server is up.
pub fn health() -> (r: MessageResponse)
    ensures
        r.message@ == "ok"@,
{
    MessageResponse { message: "ok".to_owned() }
}

} // verus!
