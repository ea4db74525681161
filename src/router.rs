//! The pipeline state machine: for each inbound envelope, which stages
//! receive what, and whether the delivery is acknowledged.

use crate::event::{EventCommand, EventCommandStatus, EventProtocol, EventProtocolData};
use crate::models::{Crawler, Page};
use vstd::prelude::*;

verus! {

/// A pipeline stage that owns an outbound queue.
#[derive(Clone, Copy, Debug, PartialEq, Eq, Structural)]
pub enum ParseraService {
    Scraper,
    HeavyArtillery,
    Extractor,
    Notification,
    DatabaseManager,
    StatusManager,
}

/// Why an envelope breaks the protocol.
#[derive(Clone, Copy, Debug, PartialEq, Eq, Structural)]
pub enum ProtocolError {
    /// The payload shape does not fit the command.
    PayloadMismatch,
    /// Extraction reported as pending, which no stage ever sends.
    PendingExtraction,
    /// The bytes do not parse as an envelope.
    Malformed,
}

/// What the router does with one inbound envelope.
#[derive(Debug)]
pub enum Routing {
    /// Publish `event` to every stage of `stages`, in that order.
    Forward { event: EventProtocol, stages: Vec<ParseraService> },
    /// The command ends the pipeline for its page: nothing to publish.
    Finished,
    /// A crawler registration reported failure: nothing further is dispatched.
    RegistrationFailed,
    /// The envelope breaks the protocol: it is dropped.
    Rejected(ProtocolError),
}

/// The mathematical form of a `Routing`.
pub enum RouteView {
    Forward { event: EventProtocol, stages: Seq<ParseraService> },
    Finished,
    RegistrationFailed,
    Rejected(ProtocolError),
}

impl View for Routing {
    type V = RouteView;

    open spec fn view(&self) -> RouteView {
        match self {
            Routing::Forward { event, stages } => RouteView::Forward { event: *event, stages: stages@ },
            Routing::Finished => RouteView::Finished,
            Routing::RegistrationFailed => RouteView::RegistrationFailed,
            Routing::Rejected(e) => RouteView::Rejected(*e),
        }
    }
}

impl RouteView {
    /// The publishes this routing asks for, as (stage, envelope) pairs.
    pub open spec fn publishes(self) -> Seq<(ParseraService, EventProtocol)> {
        match self {
            RouteView::Forward { event, stages } => stages.map_values(
                |s: ParseraService| (s, event),
            ),
            _ => Seq::empty(),
        }
    }
}

/// The start page of a freshly registered crawler, under the identifier `id`.
pub open spec fn start_page_of(crawler: Crawler, id: uuid::Uuid) -> Page {
    Page {
        id: id,
        crawler_id: crawler.id,
        site_id: crawler.site.id,
        url: crawler.site.start_page,
        domain: crawler.site.domain,
        is_pagination: false,
        times_reparsed: 0,
        priority: crawler.priority,
        notification: crawler.notification,
        xpaths: crawler.site.page_xpaths,
        created_at: crawler.created_at,
        updated_at: crawler.updated_at,
        html: None,
        data: None,
        meta: crawler.meta,
    }
}

/// The routing of an envelope whose command is not a registration, for an
/// `Internal` payload.
pub open spec fn route_page(event: EventProtocol) -> RouteView {
    match event.command {
        EventCommand::ScrapePage(EventCommandStatus::Pending) => RouteView::Forward {
            event,
            stages: seq![ParseraService::Scraper],
        },
        EventCommand::ScrapePage(EventCommandStatus::Done) => RouteView::Forward {
            event,
            stages: seq![ParseraService::Extractor],
        },
        EventCommand::ScrapePage(EventCommandStatus::Failed) => RouteView::Forward {
            event,
            stages: seq![ParseraService::HeavyArtillery],
        },
        EventCommand::ExtractPage(EventCommandStatus::Pending) => RouteView::Rejected(
            ProtocolError::PendingExtraction,
        ),
        EventCommand::ExtractPage(_) => RouteView::Forward {
            event,
            stages: seq![ParseraService::DatabaseManager, ParseraService::Notification],
        },
        _ => RouteView::Finished,
    }
}

/// The routing table. `id` names the page that a registration creates.
pub open spec fn route(event: EventProtocol, id: uuid::Uuid) -> RouteView {
    match event.command {
        EventCommand::RegisterCrawler(status) => match event.data {
            EventProtocolData::Internal(_) => RouteView::Rejected(ProtocolError::PayloadMismatch),
            EventProtocolData::External(crawler) => match status {
                EventCommandStatus::Pending => RouteView::Forward {
                    event: EventProtocol {
                        command: EventCommand::ScrapePage(EventCommandStatus::Pending),
                        data: EventProtocolData::Internal(start_page_of(crawler, id)),
                    },
                    stages: seq![ParseraService::Scraper],
                },
                EventCommandStatus::Done => RouteView::Finished,
                EventCommandStatus::Failed => RouteView::RegistrationFailed,
            },
        },
        _ => match event.data {
            EventProtocolData::External(_) => RouteView::Rejected(ProtocolError::PayloadMismatch),
            EventProtocolData::Internal(_) => route_page(event),
        },
    }
}

/// Turns a registered crawler into the envelope that scrapes its start page.
pub fn handle_register_crawler(status: EventCommandStatus, event: EventProtocol, id: uuid::Uuid) -> (r: Routing)
    requires
        event.command == EventCommand::RegisterCrawler(status),
    ensures
        r@ == route(event, id),
{
    let ghost received = event;
    let crawler = match event.data {
        EventProtocolData::External(crawler) => crawler,
        EventProtocolData::Internal(_) => {
            return Routing::Rejected(ProtocolError::PayloadMismatch);
        },
    };
    match status {
        EventCommandStatus::Pending => {},
        EventCommandStatus::Done => {
            return Routing::Finished;
        },
        EventCommandStatus::Failed => {
            return Routing::RegistrationFailed;
        },
    }
    let page = Page {
        id,
        crawler_id: crawler.id,
        site_id: crawler.site.id,
        url: crawler.site.start_page,
        domain: crawler.site.domain,
        is_pagination: false,
        times_reparsed: 0,
        priority: crawler.priority,
        notification: crawler.notification,
        xpaths: crawler.site.page_xpaths,
        created_at: crawler.created_at,
        updated_at: crawler.updated_at,
        html: None,
        data: None,
        meta: crawler.meta,
    };
    let scrape_event = EventProtocol {
        command: EventCommand::ScrapePage(EventCommandStatus::Pending),
        data: EventProtocolData::Internal(page),
    };
    let ghost expected = scrape_event;
    let r = handle_scrape(EventCommandStatus::Pending, scrape_event);
    assert(r@ == route(expected, id));
    assert(received.data matches EventProtocolData::External(c) && page == start_page_of(c, id));
    r
}

/// A scrape request goes to the scrapers, a finished scrape to extraction,
/// a failed one to the heavy-retry stage.
pub fn handle_scrape(status: EventCommandStatus, event: EventProtocol) -> (r: Routing)
    requires
        event.command == EventCommand::ScrapePage(status),
    ensures
        forall|id: uuid::Uuid| r@ == route(event, id),
{
    if let EventProtocolData::External(_) = event.data {
        return Routing::Rejected(ProtocolError::PayloadMismatch);
    }
    let stage = match status {
        EventCommandStatus::Pending => ParseraService::Scraper,
        EventCommandStatus::Done => ParseraService::Extractor,
        EventCommandStatus::Failed => ParseraService::HeavyArtillery,
    };
    let stages = vec![stage];
    assert(stages@ =~= seq![stage]);
    Routing::Forward { event, stages }
}

/// Finished or failed extraction is both stored and reported; a pending one
/// is a protocol error.
pub fn handle_extraction(status: EventCommandStatus, event: EventProtocol) -> (r: Routing)
    requires
        event.command == EventCommand::ExtractPage(status),
    ensures
        forall|id: uuid::Uuid| r@ == route(event, id),
{
    if let EventProtocolData::External(_) = event.data {
        return Routing::Rejected(ProtocolError::PayloadMismatch);
    }
    match status {
        EventCommandStatus::Pending => Routing::Rejected(ProtocolError::PendingExtraction),
        _ => {
            let stages = vec![ParseraService::DatabaseManager, ParseraService::Notification];
            assert(stages@ =~= seq![ParseraService::DatabaseManager, ParseraService::Notification]);
            Routing::Forward { event, stages }
        },
    }
}

/// The terminal stages: storing, notifying and sleeping dispatch nothing.
fn finish_page(event: &EventProtocol) -> (r: Routing)
    requires
        !(event.command is RegisterCrawler),
        !(event.command is ScrapePage),
        !(event.command is ExtractPage),
    ensures
        forall|id: uuid::Uuid| r@ == route(*event, id),
{
    match event.data {
        EventProtocolData::External(_) => Routing::Rejected(ProtocolError::PayloadMismatch),
        EventProtocolData::Internal(_) => Routing::Finished,
    }
}

/// A stored page ends the pipeline.
pub fn handle_store(status: EventCommandStatus, event: EventProtocol) -> (r: Routing)
    requires
        event.command == EventCommand::StorePage(status),
    ensures
        forall|id: uuid::Uuid| r@ == route(event, id),
{
    finish_page(&event)
}

/// A notified page ends the pipeline.
pub fn handle_notification(status: EventCommandStatus, event: EventProtocol) -> (r: Routing)
    requires
        event.command == EventCommand::NotifyUser(status),
    ensures
        forall|id: uuid::Uuid| r@ == route(event, id),
{
    finish_page(&event)
}

/// Sleeping is reserved for backoff scheduling and dispatches nothing.
pub fn handle_sleep(status: EventCommandStatus, event: EventProtocol) -> (r: Routing)
    requires
        event.command == EventCommand::Sleep(status),
    ensures
        forall|id: uuid::Uuid| r@ == route(event, id),
{
    finish_page(&event)
}

/// Routes one envelope; `id` is the identifier a registration gives to the
/// page it creates.
pub fn route_event(event: EventProtocol, id: uuid::Uuid) -> (r: Routing)
    ensures
        r@ == route(event, id),
{
    match event.command {
        EventCommand::RegisterCrawler(status) => handle_register_crawler(status, event, id),
        EventCommand::ScrapePage(status) => handle_scrape(status, event),
        EventCommand::ExtractPage(status) => handle_extraction(status, event),
        EventCommand::StorePage(status) => handle_store(status, event),
        EventCommand::NotifyUser(status) => handle_notification(status, event),
        EventCommand::Sleep(status) => handle_sleep(status, event),
    }
}

/// Routes one inbound delivery: `None` stands for bytes that did not parse
/// as an envelope. A registration gets a fresh page identifier.
pub fn handle_event(parsed: Option<EventProtocol>) -> (r: Routing)
    ensures
        parsed is None ==> r@ == RouteView::Rejected(ProtocolError::Malformed),
        parsed matches Some(event) ==> exists|id: uuid::Uuid| r@ == route(event, id),
{
    match parsed {
        None => Routing::Rejected(ProtocolError::Malformed),
        Some(event) => {
            let id = uuid::Uuid::now_v7();
            route_event(event, id)
        },
    }
}

/// How the broker answered one publish.
#[derive(Clone, Copy, Debug, PartialEq, Eq, Structural)]
pub enum PublishOutcome {
    /// Routed to a queue and confirmed.
    Confirmed,
    /// Returned as unroutable: no queue is bound to the routing key.
    Returned,
    /// Refused by the broker.
    Nacked,
    /// No answer: the channel or the connection failed.
    Failed,
}

/// What becomes of an inbound delivery once its routing has been carried out.
#[derive(Clone, Copy, Debug, PartialEq, Eq, Structural)]
pub enum Settlement {
    /// Acknowledge: the delivery is done with, or dropped for good.
    Ack,
    /// Leave unacknowledged so that the broker delivers it again.
    Requeue,
}

/// Every one of the `n` publishes was confirmed.
pub open spec fn all_confirmed(outcomes: Seq<PublishOutcome>, n: nat) -> bool {
    &&& outcomes.len() == n
    &&& forall|i: int| 0 <= i < n ==> outcomes[i] == PublishOutcome::Confirmed
}

/// A forwarded envelope is acknowledged only when all its publishes were
/// confirmed; anything that publishes nothing is acknowledged at once.
pub open spec fn settlement(route: RouteView, outcomes: Seq<PublishOutcome>) -> Settlement {
    match route {
        RouteView::Forward { stages, .. } => if all_confirmed(outcomes, stages.len()) {
            Settlement::Ack
        } else {
            Settlement::Requeue
        },
        _ => Settlement::Ack,
    }
}

/// The stage to publish to next, given the outcomes of the publishes made so
/// far: the following stage while every publish so far was confirmed, and
/// none once all stages are done or one publish was not confirmed.
pub open spec fn next_stage_of(route: RouteView, outcomes: Seq<PublishOutcome>) -> Option<ParseraService> {
    match route {
        RouteView::Forward { stages, .. } => if outcomes.len() < stages.len() && all_confirmed(
            outcomes,
            outcomes.len(),
        ) {
            Some(stages[outcomes.len() as int])
        } else {
            None
        },
        _ => None,
    }
}

/// Steps through the publishes of a routing, one stage at a time.
pub fn next_stage(routing: &Routing, outcomes: &Vec<PublishOutcome>) -> (r: Option<ParseraService>)
    ensures
        r == next_stage_of(routing@, outcomes@),
{
    match routing {
        Routing::Forward { stages, .. } => {
            if outcomes.len() >= stages.len() {
                return None;
            }
            let mut i: usize = 0;
            while i < outcomes.len()
                invariant
                    i <= outcomes.len(),
                    forall|j: int| 0 <= j < i ==> outcomes@[j] == PublishOutcome::Confirmed,
                decreases outcomes.len() - i,
            {
                if outcomes[i] != PublishOutcome::Confirmed {
                    assert(outcomes@[i as int] != PublishOutcome::Confirmed);
                    return None;
                }
                i = i + 1;
            }
            Some(stages[outcomes.len()])
        },
        _ => None,
    }
}

/// Stepping with `next_stage` publishes the routing's stages in order and
/// stops at the first publish that is not confirmed; the delivery is then
/// acknowledged exactly when every stage was published and confirmed.
pub proof fn lemma_stepping_settles(route: RouteView, outcomes: Seq<PublishOutcome>)
    requires
        route is Forward,
        next_stage_of(route, outcomes) is None,
        forall|i: int| 0 <= i < outcomes.len() - 1 ==> outcomes[i] == PublishOutcome::Confirmed,
        outcomes.len() <= route.publishes().len(),
    ensures
        settlement(route, outcomes) == Settlement::Ack <==> (outcomes.len() == route.publishes().len()
            && (outcomes.len() == 0 || outcomes.last() == PublishOutcome::Confirmed)),
{
}

/// Decides the fate of a delivery from the outcomes of the publishes made
/// for it, in the order of `routing`'s stages.
pub fn settle(routing: &Routing, outcomes: &Vec<PublishOutcome>) -> (r: Settlement)
    ensures
        r == settlement(routing@, outcomes@),
{
    match routing {
        Routing::Forward { stages, .. } => {
            if outcomes.len() != stages.len() {
                return Settlement::Requeue;
            }
            let mut i: usize = 0;
            while i < outcomes.len()
                invariant
                    i <= outcomes.len(),
                    outcomes.len() == stages.len(),
                    forall|j: int| 0 <= j < i ==> outcomes@[j] == PublishOutcome::Confirmed,
                    settlement(routing@, outcomes@) == if all_confirmed(outcomes@, outcomes@.len()) {
                        Settlement::Ack
                    } else {
                        Settlement::Requeue
                    },
                decreases outcomes.len() - i,
            {
                if outcomes[i] != PublishOutcome::Confirmed {
                    assert(outcomes@[i as int] != PublishOutcome::Confirmed);
                    return Settlement::Requeue;
                }
                i = i + 1;
            }
            Settlement::Ack
        },
        _ => Settlement::Ack,
    }
}

/// The routing table, entry by entry: a given envelope always yields these
/// (stage, envelope) publishes and nothing else.
pub proof fn lemma_routing_table(event: EventProtocol, id: uuid::Uuid)
    ensures
        event.data matches EventProtocolData::Internal(_) ==> {
            let r = route(event, id);
            &&& event.command == EventCommand::ScrapePage(EventCommandStatus::Pending) ==> r.publishes()
                == seq![(ParseraService::Scraper, event)]
            &&& event.command == EventCommand::ScrapePage(EventCommandStatus::Done) ==> r.publishes()
                == seq![(ParseraService::Extractor, event)]
            &&& event.command == EventCommand::ScrapePage(EventCommandStatus::Failed) ==> r.publishes()
                == seq![(ParseraService::HeavyArtillery, event)]
            &&& event.command == EventCommand::ExtractPage(EventCommandStatus::Pending) ==> r
                == RouteView::Rejected(ProtocolError::PendingExtraction)
            &&& (event.command == EventCommand::ExtractPage(EventCommandStatus::Done) || event.command
                == EventCommand::ExtractPage(EventCommandStatus::Failed)) ==> r.publishes() == seq![
                (ParseraService::DatabaseManager, event),
                (ParseraService::Notification, event),
            ]
            &&& (event.command is StorePage || event.command is NotifyUser || event.command is Sleep) ==> r
                == RouteView::Finished
        },
        event.data matches EventProtocolData::External(crawler) ==> {
            let r = route(event, id);
            &&& event.command == EventCommand::RegisterCrawler(EventCommandStatus::Pending) ==> r.publishes()
                == seq![
                (
                    ParseraService::Scraper,
                    EventProtocol {
                        command: EventCommand::ScrapePage(EventCommandStatus::Pending),
                        data: EventProtocolData::Internal(start_page_of(crawler, id)),
                    },
                ),
            ]
            &&& event.command == EventCommand::RegisterCrawler(EventCommandStatus::Done) ==> r
                == RouteView::Finished
            &&& event.command == EventCommand::RegisterCrawler(EventCommandStatus::Failed) ==> r
                == RouteView::RegistrationFailed
            &&& !(event.command is RegisterCrawler) ==> r == RouteView::Rejected(ProtocolError::PayloadMismatch)
        },
{
    let r = route(event, id);
    if let RouteView::Forward { event: e, stages } = r {
        assert(r.publishes() =~= stages.map_values(|s: ParseraService| (s, e)));
    }
}

/// A registration that carries a page instead of a crawler is dropped: it is
/// rejected, publishes nothing, and is acknowledged rather than requeued.
pub proof fn lemma_register_mismatch_dropped(status: EventCommandStatus, page: Page, id: uuid::Uuid, outcomes: Seq<PublishOutcome>)
    ensures
        ({
            let event = EventProtocol {
                command: EventCommand::RegisterCrawler(status),
                data: EventProtocolData::Internal(page),
            };
            &&& route(event, id) == RouteView::Rejected(ProtocolError::PayloadMismatch)
            &&& route(event, id).publishes().len() == 0
            &&& settlement(route(event, id), outcomes) == Settlement::Ack
        }),
{
}

/// A forwarded envelope is acknowledged exactly when every one of its
/// publishes was confirmed; a failed or returned publish leaves it for
/// redelivery.
pub proof fn lemma_ack_only_after_publishes(route: RouteView, outcomes: Seq<PublishOutcome>)
    requires
        route is Forward,
    ensures
        settlement(route, outcomes) == Settlement::Ack <==> outcomes.len() == route.publishes().len() && forall|i: int|
            0 <= i < outcomes.len() ==> outcomes[i] == PublishOutcome::Confirmed,
{
}

} // verus!
