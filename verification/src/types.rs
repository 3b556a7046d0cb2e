//! The data of the marketplace: requests, replies and records.
//!
//! Identifiers are UUIDs by their 128-bit value; points in time are `Timestamp`s.

use std::collections::HashMap;

use vstd::prelude::*;

verus! {

pub const PAYMENT_SIGNATURE_HEADER: &'static str = "payment-signature";

pub const PAYMENT_RESPONSE_HEADER: &'static str = "payment-response";

pub const X402_VERSION_HEADER: &'static str = "x402-version";

/// The version of the x402 protocol that replies announce.
pub const X402_VERSION: &'static str = "2";

pub const DEFAULT_PRICE_CENTS: u64 = 5;

pub const SPONSORED_API_CREATE_SERVICE: &'static str = "sponsored-api-create";

pub const SPONSORED_API_SERVICE_PREFIX: &'static str = "sponsored-api";

pub const DEFAULT_SPONSORED_API_CREATE_PRICE_CENTS: u64 = 25;

pub const DEFAULT_SPONSORED_API_TIMEOUT_SECS: u64 = 12;

pub const DEFAULT_TESTNET_MIN_CONFIRMATIONS: u64 = 1;

/// The characters of each text of a list.
pub open spec fn texts(list: Seq<String>) -> Seq<Seq<char>> {
    list.map_values(|s: String| s@)
}

/// The characters of each pair of texts of a list.
pub open spec fn text_pairs(list: Seq<(String, String)>) -> Seq<(Seq<char>, Seq<char>)> {
    list.map_values(|pair: (String, String)| (pair.0@, pair.1@))
}

/// The characters of a text that may be missing.
pub open spec fn optional_text(text: Option<String>) -> Option<Seq<char>> {
    match text {
        Some(s) => Some(s@),
        None => None,
    }
}

/// A copy of a list of texts.
pub fn clone_texts(list: &Vec<String>) -> (r: Vec<String>)
    ensures
        r@ == list@,
{
    let mut r: Vec<String> = Vec::new();
    let mut i: usize = 0;
    while i < list.len()
        invariant
            i <= list.len(),
            r@ == list@.take(i as int),
        decreases list.len() - i,
    {
        r.push(list[i].clone());
        assert(list@.take(i + 1) =~= list@.take(i as int).push(list@[i as int]));
        i = i + 1;
    }
    assert(list@.take(list@.len() as int) =~= list@);
    r
}

/// A copy of a text that may be missing.
pub fn clone_optional(text: &Option<String>) -> (r: Option<String>)
    ensures
        r == *text,
{
    match text {
        Some(s) => Some(s.clone()),
        None => None,
    }
}

/// A copy of a list of pairs of texts.
pub fn clone_pairs(list: &Vec<(String, String)>) -> (r: Vec<(String, String)>)
    ensures
        r@ == list@,
{
    let mut r: Vec<(String, String)> = Vec::new();
    let mut i: usize = 0;
    while i < list.len()
        invariant
            i <= list.len(),
            r@ == list@.take(i as int),
        decreases list.len() - i,
    {
        r.push((list[i].0.clone(), list[i].1.clone()));
        assert(list@.take(i + 1) =~= list@.take(i as int).push(list@[i as int]));
        i = i + 1;
    }
    assert(list@.take(list@.len() as int) =~= list@);
    r
}

/// A point in time: whole seconds since the Unix epoch, and the nanoseconds past them.
#[derive(Debug, Clone, Copy, PartialEq, Eq, Structural)]
pub struct Timestamp {
    pub secs: i64,
    pub nanos: u32,
}

impl Timestamp {
    /// Whether this point in time comes before the other, or is the same.
    pub open spec fn at_most(self, other: Timestamp) -> bool {
        self.secs < other.secs || (self.secs == other.secs && self.nanos <= other.nanos)
    }

    /// Whether this point in time comes before the other, or is the same.
    pub fn is_at_most(&self, other: &Timestamp) -> (r: bool)
        ensures
            r == self.at_most(*other),
    {
        self.secs < other.secs || (self.secs == other.secs && self.nanos <= other.nanos)
    }
}

/// A registered user.
#[derive(Debug)]
pub struct UserProfile {
    pub id: u128,
    pub email: String,
    pub region: String,
    pub roles: Vec<String>,
    pub tools_used: Vec<String>,
    pub attributes: HashMap<String, String>,
    pub created_at: Timestamp,
}

/// The contents of a `UserProfile`.
pub struct UserProfileView {
    pub id: u128,
    pub email: Seq<char>,
    pub region: Seq<char>,
    pub roles: Seq<Seq<char>>,
    pub tools_used: Seq<Seq<char>>,
    pub attributes: Map<String, String>,
    pub created_at: Timestamp,
}

impl View for UserProfile {
    type V = UserProfileView;

    open spec fn view(&self) -> UserProfileView {
        UserProfileView {
            id: self.id,
            email: self.email@,
            region: self.region@,
            roles: texts(self.roles@),
            tools_used: texts(self.tools_used@),
            attributes: self.attributes@,
            created_at: self.created_at,
        }
    }
}

impl Clone for UserProfile {
    fn clone(&self) -> (r: Self)
        ensures
            r@ == self@,
    {
        UserProfile {
            id: self.id,
            email: self.email.clone(),
            region: self.region.clone(),
            roles: clone_texts(&self.roles),
            tools_used: clone_texts(&self.tools_used),
            attributes: self.attributes.clone(),
            created_at: self.created_at,
        }
    }
}

#[derive(Debug)]
pub struct CreateUserRequest {
    pub email: String,
    pub region: String,
    pub roles: Vec<String>,
    pub tools_used: Vec<String>,
    pub attributes: HashMap<String, String>,
}

impl CreateUserRequest {
    /// The profile that the request asks for, under an identifier and a time of creation.
    pub open spec fn profile(self, id: u128, created_at: Timestamp) -> UserProfileView {
        UserProfileView {
            id,
            email: self.email@,
            region: self.region@,
            roles: texts(self.roles@),
            tools_used: texts(self.tools_used@),
            attributes: self.attributes@,
            created_at,
        }
    }

    /// The profile that the request asks for, under an identifier and a time of creation.
    pub fn into_profile(self, id: u128, created_at: Timestamp) -> (r: UserProfile)
        ensures
            r@ == self.profile(id, created_at),
    {
        UserProfile {
            id,
            email: self.email,
            region: self.region,
            roles: self.roles,
            tools_used: self.tools_used,
            attributes: self.attributes,
            created_at,
        }
    }
}

/// A sponsor's offer to pay for the calls of the users that it targets.
#[derive(Debug)]
pub struct Campaign {
    pub id: u128,
    pub name: String,
    pub sponsor: String,
    pub target_roles: Vec<String>,
    pub target_tools: Vec<String>,
    pub required_task: String,
    pub subsidy_per_call_cents: u64,
    pub budget_remaining_cents: u64,
    pub active: bool,
    pub created_at: Timestamp,
}

/// The contents of a `Campaign`.
pub struct CampaignView {
    pub id: u128,
    pub name: Seq<char>,
    pub sponsor: Seq<char>,
    pub target_roles: Seq<Seq<char>>,
    pub target_tools: Seq<Seq<char>>,
    pub required_task: Seq<char>,
    pub subsidy_per_call_cents: u64,
    pub budget_remaining_cents: u64,
    pub active: bool,
    pub created_at: Timestamp,
}

impl View for Campaign {
    type V = CampaignView;

    open spec fn view(&self) -> CampaignView {
        CampaignView {
            id: self.id,
            name: self.name@,
            sponsor: self.sponsor@,
            target_roles: texts(self.target_roles@),
            target_tools: texts(self.target_tools@),
            required_task: self.required_task@,
            subsidy_per_call_cents: self.subsidy_per_call_cents,
            budget_remaining_cents: self.budget_remaining_cents,
            active: self.active,
            created_at: self.created_at,
        }
    }
}

impl Clone for Campaign {
    fn clone(&self) -> (r: Self)
        ensures
            r@ == self@,
    {
        Campaign {
            id: self.id,
            name: self.name.clone(),
            sponsor: self.sponsor.clone(),
            target_roles: clone_texts(&self.target_roles),
            target_tools: clone_texts(&self.target_tools),
            required_task: self.required_task.clone(),
            subsidy_per_call_cents: self.subsidy_per_call_cents,
            budget_remaining_cents: self.budget_remaining_cents,
            active: self.active,
            created_at: self.created_at,
        }
    }
}

#[derive(Debug)]
pub struct CreateCampaignRequest {
    pub name: String,
    pub sponsor: String,
    pub target_roles: Vec<String>,
    pub target_tools: Vec<String>,
    pub required_task: String,
    pub subsidy_per_call_cents: u64,
    pub budget_cents: u64,
}

impl CreateCampaignRequest {
    /// The campaign that the request asks for: active, with its whole budget left.
    pub open spec fn campaign(self, id: u128, created_at: Timestamp) -> CampaignView {
        CampaignView {
            id,
            name: self.name@,
            sponsor: self.sponsor@,
            target_roles: texts(self.target_roles@),
            target_tools: texts(self.target_tools@),
            required_task: self.required_task@,
            subsidy_per_call_cents: self.subsidy_per_call_cents,
            budget_remaining_cents: self.budget_cents,
            active: true,
            created_at,
        }
    }
}

/// A user's completion of a sponsor's task.
#[derive(Debug)]
pub struct TaskCompletion {
    pub id: u128,
    pub campaign_id: u128,
    pub user_id: u128,
    pub task_name: String,
    pub details: Option<String>,
    pub created_at: Timestamp,
}

/// The contents of a `TaskCompletion`.
pub struct TaskCompletionView {
    pub id: u128,
    pub campaign_id: u128,
    pub user_id: u128,
    pub task_name: Seq<char>,
    pub details: Option<Seq<char>>,
    pub created_at: Timestamp,
}

impl View for TaskCompletion {
    type V = TaskCompletionView;

    open spec fn view(&self) -> TaskCompletionView {
        TaskCompletionView {
            id: self.id,
            campaign_id: self.campaign_id,
            user_id: self.user_id,
            task_name: self.task_name@,
            details: optional_text(self.details),
            created_at: self.created_at,
        }
    }
}

impl Clone for TaskCompletion {
    fn clone(&self) -> (r: Self)
        ensures
            r@ == self@,
    {
        TaskCompletion {
            id: self.id,
            campaign_id: self.campaign_id,
            user_id: self.user_id,
            task_name: self.task_name.clone(),
            details: clone_optional(&self.details),
            created_at: self.created_at,
        }
    }
}

#[derive(Debug)]
pub struct TaskCompletionRequest {
    pub campaign_id: u128,
    pub user_id: u128,
    pub task_name: String,
    pub details: Option<String>,
}

impl TaskCompletionRequest {
    /// The completion that the request reports.
    pub open spec fn completion(self, id: u128, created_at: Timestamp) -> TaskCompletionView {
        TaskCompletionView {
            id,
            campaign_id: self.campaign_id,
            user_id: self.user_id,
            task_name: self.task_name@,
            details: optional_text(self.details),
            created_at,
        }
    }
}

#[derive(Debug, Clone)]
pub struct ServiceRunRequest {
    pub user_id: u128,
    pub input: String,
}

/// The contents of a `ServiceRunRequest`.
pub struct ServiceRunRequestView {
    pub user_id: u128,
    pub input: Seq<char>,
}

impl View for ServiceRunRequest {
    type V = ServiceRunRequestView;

    open spec fn view(&self) -> ServiceRunRequestView {
        ServiceRunRequestView { user_id: self.user_id, input: self.input@ }
    }
}

#[derive(Debug, Clone)]
pub struct ServiceRunResponse {
    pub service: String,
    pub output: String,
    pub payment_mode: String,
    pub sponsored_by: Option<String>,
    pub tx_hash: Option<String>,
}

/// The contents of a `ServiceRunResponse`.
pub struct ServiceRunResponseView {
    pub service: Seq<char>,
    pub output: Seq<char>,
    pub payment_mode: Seq<char>,
    pub sponsored_by: Option<Seq<char>>,
    pub tx_hash: Option<Seq<char>>,
}

impl View for ServiceRunResponse {
    type V = ServiceRunResponseView;

    open spec fn view(&self) -> ServiceRunResponseView {
        ServiceRunResponseView {
            service: self.service@,
            output: self.output@,
            payment_mode: self.payment_mode@,
            sponsored_by: optional_text(self.sponsored_by),
            tx_hash: optional_text(self.tx_hash),
        }
    }
}

/// What a caller is told who has to pay first.
#[derive(Debug, Clone)]
pub struct PaymentRequired {
    pub service: String,
    pub amount_cents: u64,
    pub accepted_header: String,
    pub message: String,
    pub next_step: String,
}

/// The contents of a `PaymentRequired`.
pub struct PaymentRequiredView {
    pub service: Seq<char>,
    pub amount_cents: u64,
    pub accepted_header: Seq<char>,
    pub message: Seq<char>,
    pub next_step: Seq<char>,
}

impl View for PaymentRequired {
    type V = PaymentRequiredView;

    open spec fn view(&self) -> PaymentRequiredView {
        PaymentRequiredView {
            service: self.service@,
            amount_cents: self.amount_cents,
            accepted_header: self.accepted_header@,
            message: self.message@,
            next_step: self.next_step@,
        }
    }
}

/// The proof that a caller shows of a payment.
#[derive(Debug, Clone)]
pub struct PaymentProof {
    pub tx_hash: String,
    pub service: String,
    pub amount_cents: u64,
    pub payer: String,
    pub sponsored_campaign_id: Option<u128>,
    pub created_at: Timestamp,
}

/// The contents of a `PaymentProof`.
pub struct PaymentProofView {
    pub tx_hash: Seq<char>,
    pub service: Seq<char>,
    pub amount_cents: u64,
    pub payer: Seq<char>,
    pub sponsored_campaign_id: Option<u128>,
    pub created_at: Timestamp,
}

impl View for PaymentProof {
    type V = PaymentProofView;

    open spec fn view(&self) -> PaymentProofView {
        PaymentProofView {
            tx_hash: self.tx_hash@,
            service: self.service@,
            amount_cents: self.amount_cents,
            payer: self.payer@,
            sponsored_campaign_id: self.sponsored_campaign_id,
            created_at: self.created_at,
        }
    }
}

#[derive(Debug, Clone, Copy, PartialEq, Eq, Structural)]
pub enum PaymentSource {
    User,
    Sponsor,
}

#[derive(Debug, Clone, Copy, PartialEq, Eq, Structural)]
pub enum PaymentStatus {
    Settled,
    Failed,
}

/// A payment that was made, or that failed.
#[derive(Debug, Clone)]
pub struct PaymentRecord {
    pub tx_hash: String,
    pub campaign_id: Option<u128>,
    pub service: String,
    pub amount_cents: u64,
    pub payer: String,
    pub source: PaymentSource,
    pub status: PaymentStatus,
    pub created_at: Timestamp,
}

/// The contents of a `PaymentRecord`.
pub struct PaymentRecordView {
    pub tx_hash: Seq<char>,
    pub campaign_id: Option<u128>,
    pub service: Seq<char>,
    pub amount_cents: u64,
    pub payer: Seq<char>,
    pub source: PaymentSource,
    pub status: PaymentStatus,
    pub created_at: Timestamp,
}

impl View for PaymentRecord {
    type V = PaymentRecordView;

    open spec fn view(&self) -> PaymentRecordView {
        PaymentRecordView {
            tx_hash: self.tx_hash@,
            campaign_id: self.campaign_id,
            service: self.service@,
            amount_cents: self.amount_cents,
            payer: self.payer@,
            source: self.source,
            status: self.status,
            created_at: self.created_at,
        }
    }
}

/// What a caller is told of a payment that was accepted.
#[derive(Debug)]
pub struct PaymentSettlement {
    pub tx_hash: String,
    pub status: PaymentStatus,
    pub settled_at: Timestamp,
}

/// The contents of a `PaymentSettlement`.
pub struct PaymentSettlementView {
    pub tx_hash: Seq<char>,
    pub status: PaymentStatus,
    pub settled_at: Timestamp,
}

impl View for PaymentSettlement {
    type V = PaymentSettlementView;

    open spec fn view(&self) -> PaymentSettlementView {
        PaymentSettlementView {
            tx_hash: self.tx_hash@,
            status: self.status,
            settled_at: self.settled_at,
        }
    }
}

#[derive(Debug)]
pub struct CreateTestnetPaymentRequest {
    pub payer: String,
    pub service: String,
    pub tx_hash: String,
    pub amount_cents: Option<u64>,
    pub min_confirmations: Option<u64>,
}

#[derive(Debug)]
pub struct TestnetPaymentResponse {
    pub tx_hash: String,
    pub payment_signature: String,
    pub confirmations: u64,
}

/// A settlement that the x402scan service reports.
#[derive(Debug)]
pub struct X402ScanSettlementRequest {
    pub tx_hash: String,
    pub service: String,
    pub amount_cents: u64,
    pub payer: String,
    pub source: PaymentSource,
    pub status: PaymentStatus,
    pub campaign_id: Option<u128>,
}

impl X402ScanSettlementRequest {
    /// The record of the settlement.
    pub open spec fn record(self, created_at: Timestamp) -> PaymentRecordView {
        PaymentRecordView {
            tx_hash: self.tx_hash@,
            campaign_id: self.campaign_id,
            service: self.service@,
            amount_cents: self.amount_cents,
            payer: self.payer@,
            source: self.source,
            status: self.status,
            created_at,
        }
    }
}

/// One use of a creator's skill.
#[derive(Debug)]
pub struct CreatorEvent {
    pub id: u128,
    pub skill_name: String,
    pub platform: String,
    pub event_type: String,
    pub duration_ms: Option<u64>,
    pub success: bool,
    pub created_at: Timestamp,
}

/// The contents of a `CreatorEvent`.
pub struct CreatorEventView {
    pub id: u128,
    pub skill_name: Seq<char>,
    pub platform: Seq<char>,
    pub event_type: Seq<char>,
    pub duration_ms: Option<u64>,
    pub success: bool,
    pub created_at: Timestamp,
}

impl View for CreatorEvent {
    type V = CreatorEventView;

    open spec fn view(&self) -> CreatorEventView {
        CreatorEventView {
            id: self.id,
            skill_name: self.skill_name@,
            platform: self.platform@,
            event_type: self.event_type@,
            duration_ms: self.duration_ms,
            success: self.success,
            created_at: self.created_at,
        }
    }
}

impl Clone for CreatorEvent {
    fn clone(&self) -> (r: Self)
        ensures
            r@ == self@,
    {
        CreatorEvent {
            id: self.id,
            skill_name: self.skill_name.clone(),
            platform: self.platform.clone(),
            event_type: self.event_type.clone(),
            duration_ms: self.duration_ms,
            success: self.success,
            created_at: self.created_at,
        }
    }
}

#[derive(Debug)]
pub struct CreatorMetricEventRequest {
    pub skill_name: String,
    pub platform: String,
    pub event_type: String,
    pub duration_ms: Option<u64>,
    pub success: bool,
}

impl CreatorMetricEventRequest {
    /// The event that the request reports.
    pub open spec fn event(self, id: u128, created_at: Timestamp) -> CreatorEventView {
        CreatorEventView {
            id,
            skill_name: self.skill_name@,
            platform: self.platform@,
            event_type: self.event_type@,
            duration_ms: self.duration_ms,
            success: self.success,
            created_at,
        }
    }
}

#[derive(Debug)]
pub struct MessageResponse {
    pub message: String,
}

} // verus!
