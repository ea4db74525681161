//! The broker topology the pipeline needs: a topic exchange bound to the
//! stage queues, and a fan-out exchange bound to the inbound queue.

use crate::config::{BrokerConfig, RabbitConfig};
use vstd::prelude::*;

verus! {

#[derive(Clone, Copy, Debug, PartialEq, Eq, Structural)]
pub enum ExchangeKind {
    Topic,
    Fanout,
    Direct,
}

/// One step of declaring the topology. Exchanges and queues are durable.
#[derive(Clone, Debug)]
pub enum Declaration {
    Exchange { name: String, kind: ExchangeKind },
    Queue { name: String },
    /// Binds `queue` to `exchange` under `routing_key`.
    Binding { queue: String, exchange: String, routing_key: String },
}

/// The mathematical form of a `Declaration`.
pub enum DeclarationView {
    Exchange { name: Seq<char>, kind: ExchangeKind },
    Queue { name: Seq<char> },
    Binding { queue: Seq<char>, exchange: Seq<char>, routing_key: Seq<char> },
}

impl View for Declaration {
    type V = DeclarationView;

    open spec fn view(&self) -> DeclarationView {
        match self {
            Declaration::Exchange { name, kind } => DeclarationView::Exchange { name: name@, kind: *kind },
            Declaration::Queue { name } => DeclarationView::Queue { name: name@ },
            Declaration::Binding { queue, exchange, routing_key } => DeclarationView::Binding {
                queue: queue@,
                exchange: exchange@,
                routing_key: routing_key@,
            },
        }
    }
}

/// What the broker holds: each exchange once with its kind, each queue once,
/// each binding once.
#[verifier::ext_equal]
pub struct Topology {
    pub exchanges: Map<Seq<char>, ExchangeKind>,
    pub queues: Set<Seq<char>>,
    pub bindings: Set<(Seq<char>, Seq<char>, Seq<char>)>,
}

/// The broker's answer to one declaration: an exchange redeclared with
/// another kind is refused, as is a binding to a queue or an exchange that
/// does not exist; anything already there is left as it is.
pub open spec fn declare(t: Topology, d: DeclarationView) -> Option<Topology> {
    match d {
        DeclarationView::Exchange { name, kind } => if t.exchanges.contains_key(name) {
            if t.exchanges[name] == kind {
                Some(t)
            } else {
                None
            }
        } else {
            Some(Topology { exchanges: t.exchanges.insert(name, kind), queues: t.queues, bindings: t.bindings })
        },
        DeclarationView::Queue { name } => Some(
            Topology { exchanges: t.exchanges, queues: t.queues.insert(name), bindings: t.bindings },
        ),
        DeclarationView::Binding { queue, exchange, routing_key } => if t.queues.contains(queue)
            && t.exchanges.contains_key(exchange) {
            Some(
                Topology {
                    exchanges: t.exchanges,
                    queues: t.queues,
                    bindings: t.bindings.insert((queue, exchange, routing_key)),
                },
            )
        } else {
            None
        },
    }
}

/// Declaring a plan in order; `None` when the broker refuses a step.
pub open spec fn declare_all(t: Topology, plan: Seq<DeclarationView>) -> Option<Topology>
    decreases plan.len(),
{
    if plan.len() == 0 {
        Some(t)
    } else {
        match declare(t, plan[0]) {
            None => None,
            Some(t1) => declare_all(t1, plan.drop_first()),
        }
    }
}

/// The declaration is already reflected in the topology.
pub open spec fn present(t: Topology, d: DeclarationView) -> bool {
    match d {
        DeclarationView::Exchange { name, kind } => t.exchanges.contains_key(name) && t.exchanges[name]
            == kind,
        DeclarationView::Queue { name } => t.queues.contains(name),
        DeclarationView::Binding { queue, exchange, routing_key } => {
            &&& t.bindings.contains((queue, exchange, routing_key))
            &&& t.queues.contains(queue)
            &&& t.exchanges.contains_key(exchange)
        },
    }
}

/// Declaring `queue` and binding it to `exchange` under its own name.
pub open spec fn queue_bound(queue: Seq<char>, exchange: Seq<char>) -> Seq<DeclarationView> {
    seq![
        DeclarationView::Queue { name: queue },
        DeclarationView::Binding { queue, exchange, routing_key: queue },
    ]
}

/// The declarations of the pipeline's topology, in order.
pub open spec fn plan_of(cfg: BrokerConfig) -> Seq<DeclarationView> {
    let produce = cfg.produce_exchange@;
    let consume = cfg.consume_exchange@;
    seq![DeclarationView::Exchange { name: produce, kind: ExchangeKind::Topic }]
        + queue_bound(cfg.scraper_queue@, produce)
        + queue_bound(cfg.heavy_artillery_queue@, produce)
        + queue_bound(cfg.extractor_queue@, produce)
        + queue_bound(cfg.notification_queue@, produce)
        + queue_bound(cfg.db_manager_queue@, produce)
        + queue_bound(cfg.status_manager_queue@, produce)
        + seq![DeclarationView::Exchange { name: consume, kind: ExchangeKind::Fanout }]
        + queue_bound(cfg.consume_queue@, consume)
}

fn push_queue_and_binding(plan: &mut Vec<Declaration>, queue: &String, exchange: &String)
    ensures
        final(plan)@.map_values(|d: Declaration| d@) == old(plan)@.map_values(|d: Declaration| d@)
            + queue_bound(queue@, exchange@),
{
    let ghost before = plan@;
    plan.push(Declaration::Queue { name: queue.clone() });
    plan.push(
        Declaration::Binding { queue: queue.clone(), exchange: exchange.clone(), routing_key: queue.clone() },
    );
    assert(plan@.map_values(|d: Declaration| d@) =~= before.map_values(|d: Declaration| d@)
        + queue_bound(queue@, exchange@));
}

impl BrokerConfig {
    /// Everything to declare before the first publish or consume: the
    /// produce exchange (topic) with each stage queue bound under its own
    /// name, then the consume exchange (fan-out) with the inbound queue.
    pub fn topology_plan(&self) -> (r: Vec<Declaration>)
        ensures
            r@.map_values(|d: Declaration| d@) == plan_of(*self),
    {
        let mut plan: Vec<Declaration> = Vec::new();
        plan.push(Declaration::Exchange { name: self.produce_exchange.clone(), kind: ExchangeKind::Topic });
        assert(plan@.map_values(|d: Declaration| d@) =~= seq![
            DeclarationView::Exchange { name: self.produce_exchange@, kind: ExchangeKind::Topic },
        ]);
        push_queue_and_binding(&mut plan, &self.scraper_queue, &self.produce_exchange);
        push_queue_and_binding(&mut plan, &self.heavy_artillery_queue, &self.produce_exchange);
        push_queue_and_binding(&mut plan, &self.extractor_queue, &self.produce_exchange);
        push_queue_and_binding(&mut plan, &self.notification_queue, &self.produce_exchange);
        push_queue_and_binding(&mut plan, &self.db_manager_queue, &self.produce_exchange);
        push_queue_and_binding(&mut plan, &self.status_manager_queue, &self.produce_exchange);
        let ghost before = plan@.map_values(|d: Declaration| d@);
        plan.push(Declaration::Exchange { name: self.consume_exchange.clone(), kind: ExchangeKind::Fanout });
        assert(plan@.map_values(|d: Declaration| d@) =~= before + seq![
            DeclarationView::Exchange { name: self.consume_exchange@, kind: ExchangeKind::Fanout },
        ]);
        push_queue_and_binding(&mut plan, &self.consume_queue, &self.consume_exchange);
        plan
    }
}

/// Each of `queues` declared and bound to `exchange` under its own name, in order.
pub open spec fn queues_bound(queues: Seq<Seq<char>>, exchange: Seq<char>) -> Seq<DeclarationView>
    decreases queues.len(),
{
    if queues.len() == 0 {
        Seq::empty()
    } else {
        queues_bound(queues.drop_last(), exchange) + queue_bound(queues.last(), exchange)
    }
}

impl RabbitConfig {
    /// A durable direct exchange with each queue bound to it under its own
    /// name.
    pub fn topology_plan(&self) -> (r: Vec<Declaration>)
        ensures
            r@.map_values(|d: Declaration| d@) == seq![
                DeclarationView::Exchange { name: self.exchange@, kind: ExchangeKind::Direct },
            ] + queues_bound(self.queues@.map_values(|q: String| q@), self.exchange@),
    {
        let ghost names = self.queues@.map_values(|q: String| q@);
        let ghost head = seq![DeclarationView::Exchange { name: self.exchange@, kind: ExchangeKind::Direct }];
        let mut plan: Vec<Declaration> = Vec::new();
        plan.push(Declaration::Exchange { name: self.exchange.clone(), kind: ExchangeKind::Direct });
        assert(plan@.map_values(|d: Declaration| d@) =~= head + queues_bound(names.subrange(0, 0), self.exchange@));
        let mut i: usize = 0;
        while i < self.queues.len()
            invariant
                i <= self.queues.len(),
                names == self.queues@.map_values(|q: String| q@),
                head == seq![DeclarationView::Exchange { name: self.exchange@, kind: ExchangeKind::Direct }],
                plan@.map_values(|d: Declaration| d@) == head + queues_bound(names.subrange(0, i as int), self.exchange@),
            decreases self.queues.len() - i,
        {
            push_queue_and_binding(&mut plan, &self.queues[i], &self.exchange);
            assert(names.subrange(0, i + 1).drop_last() =~= names.subrange(0, i as int));
            assert(names.subrange(0, i + 1).last() == self.queues@[i as int]@);
            assert(head + queues_bound(names.subrange(0, i + 1), self.exchange@) =~= head + queues_bound(
                names.subrange(0, i as int),
                self.exchange@,
            ) + queue_bound(self.queues@[i as int]@, self.exchange@));
            i = i + 1;
        }
        assert(names.subrange(0, self.queues.len() as int) =~= names);
        plan
    }
}

proof fn lemma_declare_keeps(t: Topology, d: DeclarationView, e: DeclarationView)
    requires
        present(t, e),
        declare(t, d) is Some,
    ensures
        present(declare(t, d)->0, e),
{
}

proof fn lemma_declare_adds(t: Topology, d: DeclarationView)
    requires
        declare(t, d) is Some,
    ensures
        present(declare(t, d)->0, d),
{
}

proof fn lemma_declare_present(t: Topology, d: DeclarationView)
    requires
        present(t, d),
    ensures
        declare(t, d) == Some(t),
{
    match d {
        DeclarationView::Queue { name } => {
            assert(t.queues.insert(name) =~= t.queues);
            let same = Topology { exchanges: t.exchanges, queues: t.queues.insert(name), bindings: t.bindings };
            assert(same =~= t);
        },
        DeclarationView::Binding { queue, exchange, routing_key } => {
            assert(t.bindings.insert((queue, exchange, routing_key)) =~= t.bindings);
            let same = Topology {
                exchanges: t.exchanges,
                queues: t.queues,
                bindings: t.bindings.insert((queue, exchange, routing_key)),
            };
            assert(same =~= t);
        },
        _ => {},
    }
}

/// A declared plan leaves every step of it present, and keeps what was
/// present before.
proof fn lemma_declare_all_present(t: Topology, plan: Seq<DeclarationView>)
    requires
        declare_all(t, plan) is Some,
    ensures
        forall|i: int| 0 <= i < plan.len() ==> present(declare_all(t, plan)->0, #[trigger] plan[i]),
        forall|e: DeclarationView| present(t, e) ==> present(declare_all(t, plan)->0, e),
    decreases plan.len(),
{
    if plan.len() > 0 {
        let t1 = declare(t, plan[0])->0;
        lemma_declare_all_present(t1, plan.drop_first());
        assert forall|e: DeclarationView| present(t, e) implies present(t1, e) by {
            lemma_declare_keeps(t, plan[0], e);
        }
        lemma_declare_adds(t, plan[0]);
        assert forall|i: int| 0 <= i < plan.len() implies present(declare_all(t, plan)->0, #[trigger] plan[i]) by {
            if i > 0 {
                assert(plan[i] == plan.drop_first()[i - 1]);
            }
        }
    }
}

/// Declaring a plan whose every step is already present changes nothing.
proof fn lemma_declare_all_present_noop(t: Topology, plan: Seq<DeclarationView>)
    requires
        forall|i: int| 0 <= i < plan.len() ==> present(t, #[trigger] plan[i]),
    ensures
        declare_all(t, plan) == Some(t),
    decreases plan.len(),
{
    if plan.len() > 0 {
        lemma_declare_present(t, plan[0]);
        assert forall|i: int| 0 <= i < plan.drop_first().len() implies present(t, #[trigger] plan.drop_first()[i]) by {
            assert(plan.drop_first()[i] == plan[i + 1]);
        }
        lemma_declare_all_present_noop(t, plan.drop_first());
    }
}

/// Declaring the same plan a second time succeeds and changes nothing:
/// each exchange, queue and binding stays declared exactly once.
pub proof fn lemma_declare_twice(t: Topology, plan: Seq<DeclarationView>)
    requires
        declare_all(t, plan) is Some,
    ensures
        declare_all(declare_all(t, plan)->0, plan) == declare_all(t, plan),
{
    lemma_declare_all_present(t, plan);
    lemma_declare_all_present_noop(declare_all(t, plan)->0, plan);
}

/// A broker with nothing declared.
pub open spec fn empty_topology() -> Topology {
    Topology { exchanges: Map::empty(), queues: Set::empty(), bindings: Set::empty() }
}

proof fn lemma_declare_all_append(t: Topology, a: Seq<DeclarationView>, b: Seq<DeclarationView>)
    ensures
        declare_all(t, a + b) == match declare_all(t, a) {
            None => None,
            Some(t1) => declare_all(t1, b),
        },
    decreases a.len(),
{
    if a.len() > 0 {
        assert((a + b).drop_first() =~= a.drop_first() + b);
        assert((a + b)[0] == a[0]);
        if let Some(t1) = declare(t, a[0]) {
            lemma_declare_all_append(t1, a.drop_first(), b);
        }
    } else {
        assert(a + b =~= b);
    }
}

/// Appending a queue and its binding to an exchange that the prefix has
/// declared keeps the declaration going, and leaves the exchanges alone.
proof fn lemma_append_queue_bound(t: Topology, prefix: Seq<DeclarationView>, queue: Seq<char>, exchange: Seq<char>)
    requires
        declare_all(t, prefix) is Some,
        (declare_all(t, prefix)->0).exchanges.contains_key(exchange),
    ensures
        declare_all(t, prefix + queue_bound(queue, exchange)) is Some,
        (declare_all(t, prefix + queue_bound(queue, exchange))->0).exchanges == (declare_all(t, prefix)->0).exchanges,
{
    lemma_declare_all_append(t, prefix, queue_bound(queue, exchange));
    let tp = declare_all(t, prefix)->0;
    let qb = queue_bound(queue, exchange);
    let t1 = declare(tp, qb[0])->0;
    assert(qb.drop_first().drop_first() =~= Seq::<DeclarationView>::empty());
    assert(declare_all(t1, qb.drop_first()) == match declare(t1, qb.drop_first()[0]) {
        None => None,
        Some(t2) => declare_all(t2, qb.drop_first().drop_first()),
    });
}

/// On a fresh broker the pipeline's topology declares without error, as long
/// as the produce and consume exchanges have different names (they have
/// different kinds).
pub proof fn lemma_plan_declares(cfg: BrokerConfig)
    requires
        cfg.produce_exchange@ != cfg.consume_exchange@,
    ensures
        declare_all(empty_topology(), plan_of(cfg)) is Some,
{
    let produce = cfg.produce_exchange@;
    let consume = cfg.consume_exchange@;
    let t0 = empty_topology();
    let head = seq![DeclarationView::Exchange { name: produce, kind: ExchangeKind::Topic }];
    assert(head.drop_first() =~= Seq::<DeclarationView>::empty());
    let t1 = Topology { exchanges: t0.exchanges.insert(produce, ExchangeKind::Topic), queues: t0.queues, bindings: t0.bindings };
    assert(declare(t0, head[0]) == Some(t1));
    assert(declare_all(t1, head.drop_first()) == Some(t1));
    assert(declare_all(t0, head) == Some(t1));
    assert(t1.exchanges.contains_key(produce));
    let with_scrape = head + queue_bound(cfg.scraper_queue@, produce);
    lemma_append_queue_bound(t0, head, cfg.scraper_queue@, produce);
    let with_heavy = with_scrape + queue_bound(cfg.heavy_artillery_queue@, produce);
    lemma_append_queue_bound(t0, with_scrape, cfg.heavy_artillery_queue@, produce);
    let with_extract = with_heavy + queue_bound(cfg.extractor_queue@, produce);
    lemma_append_queue_bound(t0, with_heavy, cfg.extractor_queue@, produce);
    let with_notify = with_extract + queue_bound(cfg.notification_queue@, produce);
    lemma_append_queue_bound(t0, with_extract, cfg.notification_queue@, produce);
    let with_db = with_notify + queue_bound(cfg.db_manager_queue@, produce);
    lemma_append_queue_bound(t0, with_notify, cfg.db_manager_queue@, produce);
    let with_status = with_db + queue_bound(cfg.status_manager_queue@, produce);
    lemma_append_queue_bound(t0, with_db, cfg.status_manager_queue@, produce);
    let fanout = seq![DeclarationView::Exchange { name: consume, kind: ExchangeKind::Fanout }];
    let with_fanout = with_status + fanout;
    lemma_declare_all_append(t0, with_status, fanout);
    let t6 = declare_all(t0, with_status)->0;
    assert(t6.exchanges =~= map![produce => ExchangeKind::Topic]);
    assert(fanout.drop_first() =~= Seq::<DeclarationView>::empty());
    let t7 = Topology { exchanges: t6.exchanges.insert(consume, ExchangeKind::Fanout), queues: t6.queues, bindings: t6.bindings };
    assert(declare(t6, fanout[0]) == Some(t7));
    assert(declare_all(t7, fanout.drop_first()) == Some(t7));
    assert(declare_all(t6, fanout) == Some(t7));
    assert(t7.exchanges.contains_key(consume));
    lemma_append_queue_bound(t0, with_fanout, cfg.consume_queue@, consume);
    assert(with_fanout + queue_bound(cfg.consume_queue@, consume) == plan_of(cfg));
}

/// Declaring the pipeline's topology twice on a fresh broker never errors,
/// and the second time changes nothing: each exchange, queue and binding is
/// there exactly once.
pub proof fn lemma_topology_declared_twice(cfg: BrokerConfig)
    requires
        cfg.produce_exchange@ != cfg.consume_exchange@,
    ensures
        declare_all(empty_topology(), plan_of(cfg)) is Some,
        declare_all(declare_all(empty_topology(), plan_of(cfg))->0, plan_of(cfg)) == declare_all(
            empty_topology(),
            plan_of(cfg),
        ),
{
    lemma_plan_declares(cfg);
    lemma_declare_twice(empty_topology(), plan_of(cfg));
}

} // verus!
