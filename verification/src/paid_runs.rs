//! Calls that their users pay for.

use vstd::prelude::*;

use crate::clock::utc_now;
use crate::error::{not_found_error, ApiError, ApiErrorView};
use crate::onchain::{NodeCall, NodeCallView, RpcReply};
use crate::payments::{
    build_paid_tool_response, paid_reply, PaidReply, PaidReplyView, PaymentCredential,
    PaymentQuote, PaymentQuoteView,
};
use crate::state::{AppState, AppStateView};
use crate::types::{
    PaymentSettlement, PaymentSettlementView, ServiceRunRequest, ServiceRunRequestView, Timestamp,
};
use crate::verification::{
    Verification, VerificationStep, VerificationStepView, VerificationView,
};

verus! {

/// The run of a tool, or of a service through the proxy, whose payment is being verified.
#[derive(Debug)]
pub struct PaidRun {
    service: String,
    payload: ServiceRunRequest,
    verification: Verification,
}

/// The contents of a `PaidRun`.
pub struct PaidRunView {
    pub service: Seq<char>,
    pub request: ServiceRunRequestView,
    pub verification: VerificationView,
}

impl View for PaidRun {
    type V = PaidRunView;

    closed spec fn view(&self) -> PaidRunView {
        PaidRunView {
            service: self.service@,
            request: self.payload@,
            verification: self.verification@,
        }
    }
}

/// The run of a tool, or of a service through the proxy, that was paid for.
#[derive(Debug)]
pub struct SettledRun {
    service: String,
    payload: ServiceRunRequest,
    tx_hash: String,
}

/// The contents of a `SettledRun`.
pub struct SettledRunView {
    pub service: Seq<char>,
    pub request: ServiceRunRequestView,
    pub tx_hash: Seq<char>,
}

impl View for SettledRun {
    type V = SettledRunView;

    closed spec fn view(&self) -> SettledRunView {
        SettledRunView {
            service: self.service@,
            request: self.payload@,
            tx_hash: self.tx_hash@,
        }
    }
}

/// What a run that has to be paid for does next.
#[derive(Debug)]
pub enum PaidRunStep {
    /// It calls a node, and goes on with the reply.
    Call { call: NodeCall, next: PaidRun },
    /// It was paid for, and goes on with the settlement as a header shows it.
    Show { settlement: PaymentSettlement, next: SettledRun },
    Refuse { error: ApiError },
}

/// The contents of a `PaidRunStep`.
pub enum PaidRunStepView {
    Call { call: NodeCallView, next: PaidRunView },
    Show { settlement: PaymentSettlementView, next: SettledRunView },
    Refuse { error: ApiErrorView },
}

impl View for PaidRunStep {
    type V = PaidRunStepView;

    open spec fn view(&self) -> PaidRunStepView {
        match self {
            PaidRunStep::Call { call, next } => PaidRunStepView::Call { call: call@, next: next@ },
            PaidRunStep::Show { settlement, next } => PaidRunStepView::Show {
                settlement: settlement@,
                next: next@,
            },
            PaidRunStep::Refuse { error } => PaidRunStepView::Refuse { error: error@ },
        }
    }
}

impl PaidRunView {
    /// The step that a step of the verification leads to.
    pub open spec fn after_verification(
        service: Seq<char>,
        request: ServiceRunRequestView,
        step: VerificationStepView,
    ) -> PaidRunStepView {
        match step {
            VerificationStepView::Call { call, next } => PaidRunStepView::Call {
                call,
                next: PaidRunView { service, request, verification: next },
            },
            VerificationStepView::Settle { settlement } => PaidRunStepView::Show {
                settlement,
                next: SettledRunView { service, request, tx_hash: settlement.tx_hash },
            },
            VerificationStepView::Refuse { error } => PaidRunStepView::Refuse { error },
        }
    }

    /// The step that follows a node's reply.
    pub open spec fn replied(self, reply: RpcReply, now: Timestamp) -> PaidRunStepView {
        Self::after_verification(
            self.service,
            self.request,
            self.verification.replied(reply, now),
        )
    }
}

impl SettledRunView {
    /// The reply to the call, with the settlement as a header shows it.
    pub open spec fn reply(self, header: Seq<char>) -> PaidReplyView {
        paid_reply(
            self.service,
            self.request.input,
            "user_direct"@,
            None,
            Some(self.tx_hash),
            Some(header),
        )
    }
}

impl PaidRun {
    /// The step that a step of the verification leads to.
    fn after_verification(
        service: String,
        payload: ServiceRunRequest,
        step: VerificationStep,
    ) -> (r: PaidRunStep)
        ensures
            r@ == PaidRunView::after_verification(service@, payload@, step@),
    {
        match step {
            VerificationStep::Call { call, next } => PaidRunStep::Call {
                call,
                next: PaidRun { service, payload, verification: next },
            },
            VerificationStep::Settle { settlement } => {
                let tx_hash: String = settlement.tx_hash.clone();
                PaidRunStep::Show { settlement, next: SettledRun { service, payload, tx_hash } }
            },
            VerificationStep::Refuse { error } => PaidRunStep::Refuse { error },
        }
    }

    /// Goes on with a node's reply, at a point in time.
    pub fn replied_at(self, reply: &RpcReply, now: Timestamp) -> (r: PaidRunStep)
        requires
            reply.well_formed(),
        ensures
            r@ == self@.replied(*reply, now),
    {
        let step: VerificationStep = self.verification.replied(reply, now);
        Self::after_verification(self.service, self.payload, step)
    }

    /// Goes on with a node's reply.
    pub fn replied(self, reply: &RpcReply) -> (r: PaidRunStep)
        requires
            reply.well_formed(),
        ensures
            exists|now: Timestamp| r@ == #[trigger] self@.replied(*reply, now),
    {
        let now: Timestamp = utc_now();
        self.replied_at(reply, now)
    }
}

impl AppStateView {
    /// What a call of a tool costs.
    pub open spec fn tool_quote(self, service: Seq<char>) -> PaymentQuoteView {
        PaymentQuoteView {
            service,
            amount_cents: self.price(service),
            resource_path: "/tool/"@ + service + "/run"@,
        }
    }

    /// What a call of a service through the proxy costs.
    pub open spec fn proxy_quote(self, service: Seq<char>) -> PaymentQuoteView {
        PaymentQuoteView {
            service,
            amount_cents: self.price(service),
            resource_path: "/proxy/"@ + service + "/run"@,
        }
    }

    /// The step that starts the run of a tool.
    pub open spec fn tool_run(
        self,
        service: Seq<char>,
        request: ServiceRunRequest,
        credential: PaymentCredential,
    ) -> PaidRunStepView {
        PaidRunView::after_verification(
            service,
            request@,
            VerificationView::begin(self.config, self.tool_quote(service), credential),
        )
    }

    /// The step that starts the run of a service through the proxy, for a request that holds a
    /// payment header: its user has to exist.
    pub open spec fn paid_proxy_run(
        self,
        service: Seq<char>,
        request: ServiceRunRequest,
        credential: PaymentCredential,
    ) -> PaidRunStepView {
        if !self.users.contains_key(request.user_id) {
            PaidRunStepView::Refuse {
                error: not_found_error("user profile is required before proxy usage"@),
            }
        } else {
            PaidRunView::after_verification(
                service,
                request@,
                VerificationView::begin(self.config, self.proxy_quote(service), credential),
            )
        }
    }
}

impl AppState {
    /// What a call of a tool costs.
    pub fn quote_tool(&self, service: &str) -> (r: PaymentQuote)
        ensures
            r@ == self@.tool_quote(service@),
    {
        let mut resource_path: String = "/tool/".to_owned();
        resource_path.append(service);
        resource_path.append("/run");
        PaymentQuote {
            service: service.to_owned(),
            amount_cents: self.service_price(service),
            resource_path,
        }
    }

    /// What a call of a service through the proxy costs.
    pub fn quote_proxy(&self, service: &str) -> (r: PaymentQuote)
        ensures
            r@ == self@.proxy_quote(service@),
    {
        let mut resource_path: String = "/proxy/".to_owned();
        resource_path.append(service);
        resource_path.append("/run");
        PaymentQuote {
            service: service.to_owned(),
            amount_cents: self.service_price(service),
            resource_path,
        }
    }

    /// Starts the run of a tool.
    pub fn run_tool(
        &self,
        service: String,
        payload: ServiceRunRequest,
        credential: &PaymentCredential,
    ) -> (r: PaidRunStep)
        ensures
            r@ == self@.tool_run(service@, payload, *credential),
    {
        let quote: PaymentQuote = self.quote_tool(service.as_str());
        let step: VerificationStep = Verification::begin(&self.config, quote, credential);
        PaidRun::after_verification(service, payload, step)
    }

    /// Starts the run of a service through the proxy, for a request that holds a payment header.
    pub fn run_paid_proxy(
        &self,
        service: String,
        payload: ServiceRunRequest,
        credential: &PaymentCredential,
    ) -> (r: PaidRunStep)
        ensures
            r@ == self@.paid_proxy_run(service@, payload, *credential),
    {
        if !self.users.contains_key(&payload.user_id) {
            return PaidRunStep::Refuse {
                error: ApiError::not_found("user profile is required before proxy usage"),
            };
        }
        let quote: PaymentQuote = self.quote_proxy(service.as_str());
        let step: VerificationStep = Verification::begin(&self.config, quote, credential);
        PaidRun::after_verification(service, payload, step)
    }

    /// Runs a tool, or a service through the proxy, that was paid for. `header` is the settlement
    /// as the reply is to show it.
    pub fn finish_paid_run(&mut self, run: SettledRun, header: String) -> (r: PaidReply)
        requires
            old(self).well_formed(),
        ensures
            final(self).well_formed(),
            final(self)@ == old(self)@.with_user_payment(),
            r@ == run@.reply(header@),
    {
        self.mark_user_payment();
        build_paid_tool_response(
            run.service,
            run.payload,
            "user_direct",
            None,
            Some(run.tx_hash),
            &Some(header),
        )
    }
}

} // verus!
