//! The start of the fleet: provisioning first, polling after.
//!
//! The service is registered once, then the account of each log is created,
//! one after the other in the order of the configuration. Only when all of
//! that has gone through is a poller begun for every log. A failure while
//! provisioning ends the start.

use crate::config::{logs_view, CTLogInfo, CTLogInfoView};
use crate::operations::{
    create_account, create_account_model, register_service, register_service_model, CreateAccount,
    CreateAccountView, RegisterService, RegisterServiceView,
};
use crate::poller::{Poller, PollerStep, PollerStepView, PollerView};
use crate::protocol::{
    PipelineError, PipelineErrorView, Reply, ReplyView, Request, RequestView, SigningKey,
    SigningKeyView, Step, StepView,
};
use vstd::prelude::*;

verus! {

/// How far the start has come.
#[derive(Debug, PartialEq, Eq)]
pub enum SupervisorStage {
    /// The service is being registered.
    Registering(RegisterService),
    /// The account of the log at `index` is being created.
    Provisioning { index: usize, run: CreateAccount },
}

/// Mathematical value of a [`SupervisorStage`].
pub enum SupervisorStageView {
    Registering(RegisterServiceView),
    Provisioning { index: int, run: CreateAccountView },
}

impl View for SupervisorStage {
    type V = SupervisorStageView;

    open spec fn view(&self) -> SupervisorStageView {
        match *self {
            SupervisorStage::Registering(run) => SupervisorStageView::Registering(run@),
            SupervisorStage::Provisioning { index, run } => SupervisorStageView::Provisioning {
                index: index as int,
                run: run@,
            },
        }
    }
}

/// What a fleet is started from: the service, its key, and the logs.
#[derive(Debug, PartialEq, Eq)]
pub struct FleetPlan {
    pub service_id: String,
    pub service_key: SigningKey,
    pub logs: Vec<CTLogInfo>,
}

/// Mathematical value of a [`FleetPlan`].
pub struct FleetPlanView {
    pub service_id: Seq<char>,
    pub service_key: SigningKeyView,
    pub logs: Seq<CTLogInfoView>,
}

impl View for FleetPlan {
    type V = FleetPlanView;

    open spec fn view(&self) -> FleetPlanView {
        FleetPlanView {
            service_id: self.service_id@,
            service_key: self.service_key@,
            logs: logs_view(self.logs@),
        }
    }
}

/// The start of the fleet of one plan.
#[derive(Debug, PartialEq, Eq)]
pub struct Supervisor {
    pub plan: FleetPlan,
    pub stage: SupervisorStage,
}

/// Mathematical value of a [`Supervisor`].
pub struct SupervisorView {
    pub plan: FleetPlanView,
    pub stage: SupervisorStageView,
}

impl View for Supervisor {
    type V = SupervisorView;

    open spec fn view(&self) -> SupervisorView {
        SupervisorView { plan: self.plan@, stage: self.stage@ }
    }
}

/// Where the start stands after a reply.
#[derive(Debug, PartialEq, Eq)]
pub enum SupervisorStep {
    /// Provisioning goes on with a new request.
    Continue(Supervisor, Request),
    /// Provisioning is done: these are the pollers, one for each log in the
    /// order of the plan, each with its first action.
    Launch(Vec<PollerStep>),
    /// Provisioning failed; no poller is begun.
    Abort(PipelineError),
}

/// Mathematical value of a [`SupervisorStep`].
pub enum SupervisorStepView {
    Continue(SupervisorView, RequestView),
    Launch(Seq<PollerStepView>),
    Abort(PipelineErrorView),
}

/// The pollers that a list holds.
pub open spec fn pollers_view(pollers: Seq<PollerStep>) -> Seq<PollerStepView> {
    Seq::new(pollers.len(), |at: int| pollers[at]@)
}

impl View for SupervisorStep {
    type V = SupervisorStepView;

    open spec fn view(&self) -> SupervisorStepView {
        match *self {
            SupervisorStep::Continue(supervisor, request) => SupervisorStepView::Continue(
                supervisor@,
                request@,
            ),
            SupervisorStep::Launch(pollers) => SupervisorStepView::Launch(pollers_view(pollers@)),
            SupervisorStep::Abort(error) => SupervisorStepView::Abort(error@),
        }
    }
}

impl FleetPlanView {
    /// The pollers of the logs at their beginning, one for each log, in
    /// order.
    pub open spec fn fleet(self) -> Seq<PollerStepView> {
        Seq::new(self.logs.len(), |at: int| PollerView::start(self.logs[at].url, self.logs[at].id))
    }

    /// The start at its beginning, and what it asks first: the registration
    /// of the service begins.
    pub open spec fn start(self) -> (SupervisorView, RequestView) {
        let (run, request) = RegisterServiceView::start(self.service_id, self.service_key);
        (SupervisorView { plan: self, stage: SupervisorStageView::Registering(run) }, request)
    }

    /// The start once the accounts of all logs before `index` are there:
    /// the creation of the account of the log at `index` begins, or, with no
    /// log left, the fleet is launched.
    pub open spec fn provisioning(self, index: int) -> SupervisorStepView {
        if 0 <= index < self.logs.len() {
            let (run, request) = CreateAccountView::start(
                self.logs[index].id,
                self.service_id,
                self.service_key,
            );
            SupervisorStepView::Continue(
                SupervisorView {
                    plan: self,
                    stage: SupervisorStageView::Provisioning { index, run },
                },
                request,
            )
        } else {
            SupervisorStepView::Launch(self.fleet())
        }
    }
}

/// What the start does with a reply. The step that it has reached is taken
/// further by it. A step that goes on keeps the start at that step; one that
/// ends well begins the next; one that ends badly aborts the start.
pub open spec fn supervise_model(
    supervisor: SupervisorView,
    reply: ReplyView,
) -> SupervisorStepView {
    match supervisor.stage {
        SupervisorStageView::Registering(run) => match register_service_model(run, reply) {
            StepView::Continue(next, request) => SupervisorStepView::Continue(
                SupervisorView {
                    plan: supervisor.plan,
                    stage: SupervisorStageView::Registering(next),
                },
                request,
            ),
            StepView::Finished(Ok(_)) => supervisor.plan.provisioning(0),
            StepView::Finished(Err(error)) => SupervisorStepView::Abort(error),
        },
        SupervisorStageView::Provisioning { index, run } => match create_account_model(
            run,
            reply,
        ) {
            StepView::Continue(next, request) => SupervisorStepView::Continue(
                SupervisorView {
                    plan: supervisor.plan,
                    stage: SupervisorStageView::Provisioning { index, run: next },
                },
                request,
            ),
            StepView::Finished(Ok(_)) => supervisor.plan.provisioning(index + 1),
            StepView::Finished(Err(error)) => SupervisorStepView::Abort(error),
        },
    }
}

impl FleetPlan {
    /// Begins the start of the fleet. The start that comes back is taken
    /// further by [`supervise`], with the reply to the request beside it.
    pub fn start(self) -> (begun: (Supervisor, Request))
        ensures
            (begun.0@, begun.1@) == self@.start(),
    {
        let (run, request) = RegisterService::start(
            self.service_id.clone(),
            self.service_key.duplicate(),
        );
        (Supervisor { plan: self, stage: SupervisorStage::Registering(run) }, request)
    }

    /// The pollers of the logs at their beginning.
    fn launch(&self) -> (pollers: Vec<PollerStep>)
        ensures
            pollers_view(pollers@) == self@.fleet(),
    {
        let mut pollers: Vec<PollerStep> = Vec::with_capacity(self.logs.len());
        let mut at: usize = 0;
        while at < self.logs.len()
            invariant
                at <= self.logs.len(),
                pollers.len() == at,
                forall|k: int|
                    0 <= k < at ==> pollers[k]@ == PollerView::start(
                        self.logs[k].url@,
                        self.logs[k].id@,
                    ),
            decreases self.logs.len() - at,
        {
            let log = &self.logs[at];
            pollers.push(Poller::start(log.url, log.id));
            at = at + 1;
        }
        assert(pollers_view(pollers@) =~= self@.fleet());
        pollers
    }

    /// The start once the accounts of all logs before `index` are there.
    fn provisioning(self, index: usize) -> (step: SupervisorStep)
        ensures
            step@ == self@.provisioning(index as int),
    {
        if index < self.logs.len() {
            let (run, request) = CreateAccount::start(
                String::from_str(self.logs[index].id),
                self.service_id.clone(),
                self.service_key.duplicate(),
            );
            SupervisorStep::Continue(
                Supervisor { plan: self, stage: SupervisorStage::Provisioning { index, run } },
                request,
            )
        } else {
            SupervisorStep::Launch(self.launch())
        }
    }
}

/// Takes the start of the fleet one reply further.
pub fn supervise(supervisor: Supervisor, reply: Reply) -> (step: SupervisorStep)
    ensures
        step@ == supervise_model(supervisor@, reply@),
{
    let Supervisor { plan, stage } = supervisor;
    match stage {
        SupervisorStage::Registering(run) => match register_service(run, reply) {
            Step::Continue(next, request) => SupervisorStep::Continue(
                Supervisor { plan, stage: SupervisorStage::Registering(next) },
                request,
            ),
            Step::Finished(Ok(_)) => plan.provisioning(0),
            Step::Finished(Err(error)) => SupervisorStep::Abort(error),
        },
        SupervisorStage::Provisioning { index, run } => match create_account(run, reply) {
            Step::Continue(next, request) => SupervisorStep::Continue(
                Supervisor { plan, stage: SupervisorStage::Provisioning { index, run: next } },
                request,
            ),
            Step::Finished(Ok(_)) => {
                if index < plan.logs.len() {
                    plan.provisioning(index + 1)
                } else {
                    SupervisorStep::Launch(plan.launch())
                }
            },
            Step::Finished(Err(error)) => SupervisorStep::Abort(error),
        },
    }
}

/// The fleet is launched only when provisioning is through: after the
/// registration where there is no log, and otherwise after the creation of
/// the last log's account, each ended well by the reply at hand. What is
/// launched is one poller for each log, in the order of the plan.
pub proof fn lemma_launch_follows_provisioning(supervisor: SupervisorView, reply: ReplyView)
    requires
        supervise_model(supervisor, reply) is Launch,
    ensures
        supervise_model(supervisor, reply) == SupervisorStepView::Launch(supervisor.plan.fleet()),
        supervisor.plan.fleet().len() == supervisor.plan.logs.len(),
        match supervisor.stage {
            SupervisorStageView::Registering(run) => {
                &&& supervisor.plan.logs.len() == 0
                &&& register_service_model(run, reply) == StepView::<
                    RegisterServiceView,
                    (),
                >::Finished(Ok(()))
            },
            SupervisorStageView::Provisioning { index, run } => {
                &&& !(0 <= index + 1 < supervisor.plan.logs.len())
                &&& create_account_model(run, reply) matches StepView::Finished(Ok(_))
            },
        },
{
}

} // verus!
