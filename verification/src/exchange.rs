//! One exchange with the server, as a sequence of decisions.
//!
//! The caller performs each action and reports its outcome; the exchange
//! answers with the next action or with the reply for the request.

use crate::binder::{bind, Statement, StatementView};
use crate::connection::{config_settings, ConnectionDescriptor, Settings};
use crate::failure::{failure_message, failure_text, Stage};
use crate::json::JsonModel;
use crate::projection::{project, projected, row_views, QueryResult};
use crate::request::{QueryRequest, RequestView};
use crate::row::{CellView, RawRow};
use crate::statement::{classify, kind_of, StatementKind};
use vstd::prelude::*;

verus! {

/// What the caller is to do next.
#[derive(Debug)]
pub enum Action {
    /// Open the transport to the server that the configuration names.
    OpenTransport(tiberius::Config),
    /// Switch off the send delay of the open transport.
    DisableSendDelay,
    /// Perform the handshake and log in, with the configuration given before.
    Authenticate,
    /// Send the statement.
    Execute(Statement),
    /// Read the first result set and report its rows.
    CollectFirstResult,
    /// Read every result set to its end.
    DrainResults,
}

/// The mathematical value of an [`Action`].
pub ghost enum ActionView {
    OpenTransport(Settings),
    DisableSendDelay,
    Authenticate,
    Execute(StatementView),
    CollectFirstResult,
    DrainResults,
}

impl View for Action {
    type V = ActionView;

    open spec fn view(&self) -> ActionView {
        match self {
            Action::OpenTransport(config) => ActionView::OpenTransport(config_settings(*config)),
            Action::DisableSendDelay => ActionView::DisableSendDelay,
            Action::Authenticate => ActionView::Authenticate,
            Action::Execute(statement) => ActionView::Execute(statement@),
            Action::CollectFirstResult => ActionView::CollectFirstResult,
            Action::DrainResults => ActionView::DrainResults,
        }
    }
}

/// How an action ended.
#[derive(Clone, Debug, PartialEq, Eq)]
pub enum Outcome {
    /// The action succeeded.
    Completed,
    /// The action succeeded and read these rows. The rows count only at the
    /// stage that collects; at an earlier stage this is a plain success.
    Collected(Vec<RawRow>),
    /// The action failed; the text says why.
    Failed(String),
}

/// The mathematical value of an [`Outcome`].
pub ghost enum OutcomeView {
    Completed,
    Collected(Seq<Seq<CellView>>),
    Failed(Seq<char>),
}

impl View for Outcome {
    type V = OutcomeView;

    open spec fn view(&self) -> OutcomeView {
        match self {
            Outcome::Completed => OutcomeView::Completed,
            Outcome::Collected(rows) => OutcomeView::Collected(row_views(rows@)),
            Outcome::Failed(detail) => OutcomeView::Failed(detail@),
        }
    }
}

/// The rows that an outcome reports; none unless it collected some.
pub open spec fn collected_rows(outcome: OutcomeView) -> Seq<Seq<CellView>> {
    match outcome {
        OutcomeView::Collected(rows) => rows,
        _ => Seq::empty(),
    }
}

/// An exchange under way: the stage whose outcome is awaited, and the
/// request that is served.
#[derive(Debug)]
pub struct Exchange {
    stage: Stage,
    kind: StatementKind,
    request: QueryRequest,
}

/// The mathematical value of an [`Exchange`].
pub ghost struct ExchangeView {
    pub stage: Stage,
    pub request: RequestView,
}

impl View for Exchange {
    type V = ExchangeView;

    closed spec fn view(&self) -> ExchangeView {
        ExchangeView { stage: self.stage, request: self.request@ }
    }
}

/// The reply to a request: its rows, or the text of the failure.
pub ghost enum ReplyView {
    Rows(Seq<Map<Seq<char>, JsonModel>>),
    Failure(Seq<char>),
}

/// The value of a reply.
pub open spec fn reply_view(reply: Result<QueryResult, String>) -> ReplyView {
    match reply {
        Ok(result) => ReplyView::Rows(result@),
        Err(message) => ReplyView::Failure(message@),
    }
}

/// Where an exchange stands after an outcome.
#[derive(Debug)]
pub enum Progress {
    /// The exchange goes on with this action.
    Continue(Exchange, Action),
    /// The exchange is over; this is the reply.
    Finished(Result<QueryResult, String>),
}

/// The mathematical value of a [`Progress`].
pub ghost enum ProgressView {
    Continue(ExchangeView, ActionView),
    Finished(ReplyView),
}

impl View for Progress {
    type V = ProgressView;

    open spec fn view(&self) -> ProgressView {
        match self {
            Progress::Continue(exchange, action) => ProgressView::Continue(exchange@, action@),
            Progress::Finished(reply) => ProgressView::Finished(reply_view(*reply)),
        }
    }
}

/// The action that asks for the results of an accepted statement: the first
/// result set of a row-producing one, every result set of a row-affecting one.
pub open spec fn collecting_action(kind: StatementKind) -> ActionView {
    match kind {
        StatementKind::RowProducing => ActionView::CollectFirstResult,
        StatementKind::RowAffecting => ActionView::DrainResults,
    }
}

/// Where an exchange stands after a success that read `rows`: at the next
/// stage with its action, and after the last stage at the reply, which is
/// the projection of the rows.
pub open spec fn step_on_success(exchange: ExchangeView, rows: Seq<Seq<CellView>>) -> ProgressView {
    let request = exchange.request;
    match exchange.stage {
        Stage::Connect => ProgressView::Continue(
            ExchangeView { stage: Stage::Configure, request },
            ActionView::DisableSendDelay,
        ),
        Stage::Configure => ProgressView::Continue(
            ExchangeView { stage: Stage::Authenticate, request },
            ActionView::Authenticate,
        ),
        Stage::Authenticate => ProgressView::Continue(
            ExchangeView { stage: Stage::Execute, request },
            ActionView::Execute(StatementView { text: request.query, params: request.params }),
        ),
        Stage::Execute => ProgressView::Continue(
            ExchangeView { stage: Stage::Collect, request },
            collecting_action(kind_of(request.query)),
        ),
        Stage::Collect => ProgressView::Finished(
            ReplyView::Rows(projected(kind_of(request.query), rows)),
        ),
    }
}

/// Where an exchange stands after an outcome. A failure ends it at once,
/// with the failure text of the stage at which it happened.
pub open spec fn step(exchange: ExchangeView, outcome: OutcomeView) -> ProgressView {
    match outcome {
        OutcomeView::Failed(detail) => ProgressView::Finished(
            ReplyView::Failure(failure_text(exchange.stage, detail)),
        ),
        _ => step_on_success(exchange, collected_rows(outcome)),
    }
}

/// The reply that an exchange comes to when its actions end as `outcomes`
/// say, one after another; `None` where the outcomes run out before the
/// exchange is over. Outcomes behind the one that ends it are not looked at.
pub open spec fn reply_after(exchange: ExchangeView, outcomes: Seq<OutcomeView>) -> Option<
    ReplyView,
>
    decreases outcomes.len(),
{
    if outcomes.len() == 0 {
        None
    } else {
        match step(exchange, outcomes[0]) {
            ProgressView::Finished(reply) => Some(reply),
            ProgressView::Continue(next, _) => reply_after(next, outcomes.drop_first()),
        }
    }
}

/// The stages follow one another in their order: a success at a stage
/// before the last leads to the stage that follows it, with the same
/// request.
pub proof fn lemma_success_leads_to_following_stage(
    exchange: ExchangeView,
    outcome: OutcomeView,
)
    requires
        !(outcome is Failed),
    ensures
        match exchange.stage.following() {
            Some(next) => step(exchange, outcome) is Continue && step(exchange, outcome)->Continue_0
                == (ExchangeView { stage: next, request: exchange.request }),
            None => step(exchange, outcome) is Finished,
        },
{
}

/// The first failure ends the exchange: where the outcomes before it are
/// successes and its stage is reached, the reply is the failure text of
/// that stage, whatever outcomes stand behind it.
pub proof fn lemma_first_failure_is_the_reply(
    exchange: ExchangeView,
    outcomes: Seq<OutcomeView>,
    k: int,
    detail: Seq<char>,
)
    requires
        0 <= k < outcomes.len(),
        exchange.stage.index() + k <= Stage::Collect.index(),
        forall|j: int| 0 <= j < k ==> !(#[trigger] outcomes[j] is Failed),
        outcomes[k] == OutcomeView::Failed(detail),
    ensures
        reply_after(exchange, outcomes) == Some(
            ReplyView::Failure(failure_text(Stage::at(exchange.stage.index() + k), detail)),
        ),
    decreases k,
{
    if k > 0 {
        let next = step(exchange, outcomes[0])->Continue_0;
        let rest = outcomes.drop_first();
        assert(rest[k - 1] == outcomes[k]);
        assert forall|j: int| 0 <= j < k - 1 implies !(#[trigger] rest[j] is Failed) by {
            assert(rest[j] == outcomes[j + 1]);
        }
        lemma_first_failure_is_the_reply(next, rest, k - 1, detail);
    }
}

/// Where every stage succeeds, the reply is the projection of the rows that
/// the last stage collected, for the kind of the request's statement.
pub proof fn lemma_success_is_the_projection(exchange: ExchangeView, outcomes: Seq<OutcomeView>)
    requires
        exchange.stage.index() + outcomes.len() > Stage::Collect.index(),
        forall|j: int|
            0 <= j < outcomes.len() && exchange.stage.index() + j <= Stage::Collect.index() ==> !(
            #[trigger] outcomes[j] is Failed),
    ensures
        reply_after(exchange, outcomes) == Some(
            ReplyView::Rows(
                projected(
                    kind_of(exchange.request.query),
                    collected_rows(outcomes[Stage::Collect.index() - exchange.stage.index()]),
                ),
            ),
        ),
    decreases outcomes.len(),
{
    assert(!(outcomes[0] is Failed));
    if exchange.stage != Stage::Collect {
        let next = step(exchange, outcomes[0])->Continue_0;
        let rest = outcomes.drop_first();
        assert forall|j: int|
            0 <= j < rest.len() && next.stage.index() + j <= Stage::Collect.index() implies !(
        #[trigger] rest[j] is Failed) by {
            assert(rest[j] == outcomes[j + 1]);
        }
        lemma_success_is_the_projection(next, rest);
        assert(rest[Stage::Collect.index() - next.stage.index()] == outcomes[Stage::Collect.index()
            - exchange.stage.index()]);
    }
}

/// The reply to a row-affecting statement whose stages all succeed has no
/// rows, whatever the last stage collected.
pub proof fn lemma_row_affecting_reply_is_empty(
    exchange: ExchangeView,
    outcomes: Seq<OutcomeView>,
)
    requires
        kind_of(exchange.request.query) == StatementKind::RowAffecting,
        exchange.stage.index() + outcomes.len() > Stage::Collect.index(),
        forall|j: int|
            0 <= j < outcomes.len() && exchange.stage.index() + j <= Stage::Collect.index() ==> !(
            #[trigger] outcomes[j] is Failed),
    ensures
        reply_after(exchange, outcomes) == Some(
            ReplyView::Rows(Seq::<Map<Seq<char>, JsonModel>>::empty()),
        ),
{
    lemma_success_is_the_projection(exchange, outcomes);
}

impl Exchange {
    #[verifier::type_invariant]
    spec fn kind_is_classified(self) -> bool {
        self.kind == kind_of(self.request@.query)
    }

    /// Begins the exchange for `request` with the server that `descriptor`
    /// names. The first action is to open the transport.
    pub fn start(descriptor: &ConnectionDescriptor, request: QueryRequest) -> (begun: (
        Exchange,
        Action,
    ))
        ensures
            begun.0@ == (ExchangeView { stage: Stage::Connect, request: request@ }),
            begun.1@ == ActionView::OpenTransport(descriptor.settings()),
    {
        let kind = classify(request.query());
        let exchange = Exchange { stage: Stage::Connect, kind, request };
        (exchange, Action::OpenTransport(descriptor.to_config()))
    }

    /// The stage whose outcome is awaited.
    pub fn stage(&self) -> (stage: Stage)
        ensures
            stage == self@.stage,
    {
        self.stage
    }

    /// The kind of the statement that is served.
    pub fn kind(&self) -> (kind: StatementKind)
        ensures
            kind == kind_of(self@.request.query),
    {
        proof {
            use_type_invariant(self);
        }
        self.kind
    }

    /// Takes the outcome of the action that was asked for and answers with
    /// the next action, or with the reply where the exchange is over.
    pub fn advance(self, outcome: Outcome) -> (progress: Progress)
        ensures
            progress@ == step(self@, outcome@),
    {
        proof {
            use_type_invariant(&self);
        }
        match outcome {
            Outcome::Failed(detail) => Progress::Finished(
                Err(failure_message(self.stage, detail.as_str())),
            ),
            Outcome::Completed => {
                let rows: Vec<RawRow> = Vec::new();
                assert(row_views(rows@) =~= Seq::<Seq<CellView>>::empty());
                self.proceed(rows)
            },
            Outcome::Collected(rows) => self.proceed(rows),
        }
    }

    /// The step after a success that read `rows`.
    fn proceed(self, rows: Vec<RawRow>) -> (progress: Progress)
        ensures
            progress@ == step_on_success(self@, row_views(rows@)),
    {
        proof {
            use_type_invariant(&self);
        }
        match self.stage {
            Stage::Connect => Progress::Continue(
                Exchange { stage: Stage::Configure, kind: self.kind, request: self.request },
                Action::DisableSendDelay,
            ),
            Stage::Configure => Progress::Continue(
                Exchange { stage: Stage::Authenticate, kind: self.kind, request: self.request },
                Action::Authenticate,
            ),
            Stage::Authenticate => {
                let statement = bind(&self.request);
                Progress::Continue(
                    Exchange { stage: Stage::Execute, kind: self.kind, request: self.request },
                    Action::Execute(statement),
                )
            },
            Stage::Execute => {
                let action = match self.kind {
                    StatementKind::RowProducing => Action::CollectFirstResult,
                    StatementKind::RowAffecting => Action::DrainResults,
                };
                Progress::Continue(
                    Exchange { stage: Stage::Collect, kind: self.kind, request: self.request },
                    action,
                )
            },
            Stage::Collect => Progress::Finished(Ok(project(self.kind, &rows))),
        }
    }
}

} // verus!
