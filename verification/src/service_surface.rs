//! A flow wrapped as an event-driven service: the builder that assembles the
//! wrapper, and what the service does with one delivered event.
//!
//! The engine, the topology, the upstream event sink, the subscriber factory
//! and the seed adapter are opaque here: the type parameters `E`, `T`, `K`,
//! `B` and `S`.

use vstd::prelude::*;
use vstd::string::*;

use crate::auth::Principal;
use crate::flow::{FlowEvent, FlowRevisionId, RunId};
use crate::ids::{FlowId, KindId};
use crate::node::SlotRef;
use crate::surfaces::FlowAsServiceBuildError;

verus! {

/// Assembles a [`FlowAsService`]. Every field is required; `build` names
/// the first one missing.
pub struct FlowAsServiceBuilder<T, E, K, B, S> {
    /// The flow the service wraps.
    pub flow_id: Option<FlowId>,
    /// The pinned revision.
    pub revision: Option<FlowRevisionId>,
    /// The propagator topology.
    pub topology: Option<T>,
    /// The slots gathered into each run's output (must not be empty).
    pub terminal_slots: Vec<SlotRef>,
    /// The engine handle.
    pub engine: Option<E>,
    /// The reverse-DNS service id; the dedup keys' service name.
    pub service_id: Option<KindId>,
    /// Human-readable name.
    pub name: Option<String>,
    /// What the service does.
    pub description: Option<String>,
    /// The upstream event sink, asked for dedup keys.
    pub event_sink: Option<K>,
    /// Makes a fresh subscriber to the upstream events on each start.
    pub event_subscriber: Option<B>,
    /// Maps an event to seed slot writes.
    pub seed_adapter: Option<S>,
    /// The principal every per-event run is recorded under.
    pub principal: Option<Principal>,
}

/// The first field, in declaration order, that a builder still lacks.
pub open spec fn service_builder_gap<T, E, K, B, S>(b: FlowAsServiceBuilder<T, E, K, B, S>) -> Option<
    Seq<char>,
> {
    if b.flow_id is None {
        Some("flow_id"@)
    } else if b.revision is None {
        Some("revision"@)
    } else if b.topology is None {
        Some("topology"@)
    } else if b.terminal_slots@.len() == 0 {
        Some("terminal_slots"@)
    } else if b.engine is None {
        Some("engine"@)
    } else if b.service_id is None {
        Some("service_id"@)
    } else if b.name is None {
        Some("name"@)
    } else if b.description is None {
        Some("description"@)
    } else if b.event_sink is None {
        Some("event_sink"@)
    } else if b.event_subscriber is None {
        Some("event_subscriber"@)
    } else if b.seed_adapter is None {
        Some("seed_adapter"@)
    } else if b.principal is None {
        Some("principal"@)
    } else {
        None
    }
}

impl<T, E, K, B, S> FlowAsServiceBuilder<T, E, K, B, S> {
    /// A builder with nothing set.
    pub fn new() -> (b: Self)
        ensures
            b.flow_id is None && b.revision is None && b.topology is None && b.terminal_slots@.len() == 0
                && b.engine is None && b.service_id is None && b.name is None && b.description is None
                && b.event_sink is None && b.event_subscriber is None && b.seed_adapter is None
                && b.principal is None,
    {
        FlowAsServiceBuilder {
            flow_id: None,
            revision: None,
            topology: None,
            terminal_slots: Vec::new(),
            engine: None,
            service_id: None,
            name: None,
            description: None,
            event_sink: None,
            event_subscriber: None,
            seed_adapter: None,
            principal: None,
        }
    }

    /// Set the flow.
    pub fn flow_id(self, id: FlowId) -> (b: Self)
        ensures
            b == (FlowAsServiceBuilder { flow_id: Some(id), ..self }),
    {
        FlowAsServiceBuilder { flow_id: Some(id), ..self }
    }

    /// Set the revision.
    pub fn revision(self, rev: FlowRevisionId) -> (b: Self)
        ensures
            b == (FlowAsServiceBuilder { revision: Some(rev), ..self }),
    {
        FlowAsServiceBuilder { revision: Some(rev), ..self }
    }

    /// Set the topology.
    pub fn topology(self, topology: T) -> (b: Self)
        ensures
            b == (FlowAsServiceBuilder { topology: Some(topology), ..self }),
    {
        FlowAsServiceBuilder { topology: Some(topology), ..self }
    }

    /// Set the terminal slots.
    pub fn terminal_slots(self, slots: Vec<SlotRef>) -> (b: Self)
        ensures
            b == (FlowAsServiceBuilder { terminal_slots: slots, ..self }),
    {
        FlowAsServiceBuilder { terminal_slots: slots, ..self }
    }

    /// Set the engine.
    pub fn engine(self, engine: E) -> (b: Self)
        ensures
            b == (FlowAsServiceBuilder { engine: Some(engine), ..self }),
    {
        FlowAsServiceBuilder { engine: Some(engine), ..self }
    }

    /// Set the service id.
    pub fn service_id(self, id: KindId) -> (b: Self)
        ensures
            b == (FlowAsServiceBuilder { service_id: Some(id), ..self }),
    {
        FlowAsServiceBuilder { service_id: Some(id), ..self }
    }

    /// Set the name.
    pub fn name(self, name: String) -> (b: Self)
        ensures
            b == (FlowAsServiceBuilder { name: Some(name), ..self }),
    {
        FlowAsServiceBuilder { name: Some(name), ..self }
    }

    /// Set the description.
    pub fn description(self, desc: String) -> (b: Self)
        ensures
            b == (FlowAsServiceBuilder { description: Some(desc), ..self }),
    {
        FlowAsServiceBuilder { description: Some(desc), ..self }
    }

    /// Set the upstream event sink.
    pub fn event_sink(self, sink: K) -> (b: Self)
        ensures
            b == (FlowAsServiceBuilder { event_sink: Some(sink), ..self }),
    {
        FlowAsServiceBuilder { event_sink: Some(sink), ..self }
    }

    /// Set the subscriber factory.
    pub fn event_subscriber(self, subscriber: B) -> (b: Self)
        ensures
            b == (FlowAsServiceBuilder { event_subscriber: Some(subscriber), ..self }),
    {
        FlowAsServiceBuilder { event_subscriber: Some(subscriber), ..self }
    }

    /// Set the seed adapter.
    pub fn seed_adapter(self, adapter: S) -> (b: Self)
        ensures
            b == (FlowAsServiceBuilder { seed_adapter: Some(adapter), ..self }),
    {
        FlowAsServiceBuilder { seed_adapter: Some(adapter), ..self }
    }

    /// Set the principal.
    pub fn principal(self, principal: Principal) -> (b: Self)
        ensures
            b == (FlowAsServiceBuilder { principal: Some(principal), ..self }),
    {
        FlowAsServiceBuilder { principal: Some(principal), ..self }
    }

    /// The wrapper, or the first missing field.
    pub fn build(self) -> (r: Result<FlowAsService<T, E, K, B, S>, FlowAsServiceBuildError>)
        ensures
            r is Ok <==> service_builder_gap(self) is None,
            r matches Err(FlowAsServiceBuildError::MissingField(f)) ==> service_builder_gap(self) == Some(f@),
            r matches Ok(s) ==> s.built_from(self),
    {
        let flow_id = match self.flow_id {
            Some(v) => v,
            None => return Err(FlowAsServiceBuildError::MissingField("flow_id")),
        };
        let revision = match self.revision {
            Some(v) => v,
            None => return Err(FlowAsServiceBuildError::MissingField("revision")),
        };
        let topology = match self.topology {
            Some(v) => v,
            None => return Err(FlowAsServiceBuildError::MissingField("topology")),
        };
        if self.terminal_slots.len() == 0 {
            return Err(FlowAsServiceBuildError::MissingField("terminal_slots"));
        }
        let engine = match self.engine {
            Some(v) => v,
            None => return Err(FlowAsServiceBuildError::MissingField("engine")),
        };
        let service_id = match self.service_id {
            Some(v) => v,
            None => return Err(FlowAsServiceBuildError::MissingField("service_id")),
        };
        let name = match self.name {
            Some(v) => v,
            None => return Err(FlowAsServiceBuildError::MissingField("name")),
        };
        let description = match self.description {
            Some(v) => v,
            None => return Err(FlowAsServiceBuildError::MissingField("description")),
        };
        let event_sink = match self.event_sink {
            Some(v) => v,
            None => return Err(FlowAsServiceBuildError::MissingField("event_sink")),
        };
        let event_subscriber = match self.event_subscriber {
            Some(v) => v,
            None => return Err(FlowAsServiceBuildError::MissingField("event_subscriber")),
        };
        let seed_adapter = match self.seed_adapter {
            Some(v) => v,
            None => return Err(FlowAsServiceBuildError::MissingField("seed_adapter")),
        };
        let principal = match self.principal {
            Some(v) => v,
            None => return Err(FlowAsServiceBuildError::MissingField("principal")),
        };
        Ok(
            FlowAsService {
                flow_id,
                revision,
                topology,
                terminal_slots: self.terminal_slots,
                engine,
                service_id,
                name,
                description,
                event_sink,
                event_subscriber,
                seed_adapter,
                principal,
            },
        )
    }
}

/// A flow wrapped as an event-driven service. Built only by
/// [`FlowAsServiceBuilder::build`], so it always has a terminal slot.
pub struct FlowAsService<T, E, K, B, S> {
    flow_id: FlowId,
    revision: FlowRevisionId,
    topology: T,
    terminal_slots: Vec<SlotRef>,
    engine: E,
    service_id: KindId,
    name: String,
    description: String,
    event_sink: K,
    event_subscriber: B,
    seed_adapter: S,
    principal: Principal,
}

impl<T, E, K, B, S> FlowAsService<T, E, K, B, S> {
    #[verifier::type_invariant]
    closed spec fn well_formed(self) -> bool {
        self.terminal_slots@.len() > 0
    }

    /// `true` when every part of the wrapper is what `b` held.
    pub open spec fn built_from(self, b: FlowAsServiceBuilder<T, E, K, B, S>) -> bool {
        &&& b.flow_id == Some(self.spec_flow_id())
        &&& b.revision == Some(self.spec_revision())
        &&& b.topology == Some(self.spec_topology())
        &&& b.terminal_slots@ == self.spec_terminal_slots()
        &&& b.engine == Some(self.spec_engine())
        &&& b.service_id == Some(self.spec_service_id())
        &&& b.name == Some(self.spec_name())
        &&& b.description == Some(self.spec_description())
        &&& b.event_sink == Some(self.spec_event_sink())
        &&& b.event_subscriber == Some(self.spec_event_subscriber())
        &&& b.seed_adapter == Some(self.spec_seed_adapter())
        &&& b.principal == Some(self.spec_principal())
    }

    /// The pinned revision.
    pub closed spec fn spec_revision(self) -> FlowRevisionId {
        self.revision
    }

    /// The topology.
    pub closed spec fn spec_topology(self) -> T {
        self.topology
    }

    /// The terminal slots.
    pub closed spec fn spec_terminal_slots(self) -> Seq<SlotRef> {
        self.terminal_slots@
    }

    /// The engine.
    pub closed spec fn spec_engine(self) -> E {
        self.engine
    }

    /// The upstream event sink.
    pub closed spec fn spec_event_sink(self) -> K {
        self.event_sink
    }

    /// The subscriber factory.
    pub closed spec fn spec_event_subscriber(self) -> B {
        self.event_subscriber
    }

    /// The seed adapter.
    pub closed spec fn spec_seed_adapter(self) -> S {
        self.seed_adapter
    }

    /// The principal runs are recorded under.
    pub closed spec fn spec_principal(self) -> Principal {
        self.principal
    }

    /// The wrapped flow.
    pub closed spec fn spec_flow_id(self) -> FlowId {
        self.flow_id
    }

    /// The service id.
    pub closed spec fn spec_service_id(self) -> KindId {
        self.service_id
    }

    /// The name.
    pub closed spec fn spec_name(self) -> String {
        self.name
    }

    /// The description.
    pub closed spec fn spec_description(self) -> String {
        self.description
    }

    /// A builder with nothing set.
    pub fn builder() -> (b: FlowAsServiceBuilder<T, E, K, B, S>)
        ensures
            service_builder_gap(b) == Some("flow_id"@),
            b.terminal_slots@.len() == 0,
    {
        FlowAsServiceBuilder::new()
    }

    /// The wrapped flow.
    pub fn flow_id(&self) -> (r: &FlowId)
        ensures
            *r == self.spec_flow_id(),
    {
        &self.flow_id
    }

    /// The reverse-DNS service id.
    pub fn service_id(&self) -> (r: &KindId)
        ensures
            *r == self.spec_service_id(),
    {
        &self.service_id
    }

    /// What the service does.
    pub fn description(&self) -> (r: &str)
        ensures
            r@ == self.spec_description()@,
    {
        self.description.as_str()
    }

    /// The human-readable name.
    pub fn display_name(&self) -> (r: &str)
        ensures
            r@ == self.spec_name()@,
    {
        self.name.as_str()
    }

    /// The pinned revision.
    pub fn revision(&self) -> (r: FlowRevisionId)
        ensures
            r == self.spec_revision(),
    {
        self.revision
    }

    /// The topology each run is driven on.
    pub fn topology(&self) -> (r: &T)
        ensures
            *r == self.spec_topology(),
    {
        &self.topology
    }

    /// The terminal slots, never empty.
    pub fn terminal_slots(&self) -> (r: &Vec<SlotRef>)
        ensures
            r@ == self.spec_terminal_slots(),
            r@.len() > 0,
    {
        proof {
            use_type_invariant(self);
        }
        &self.terminal_slots
    }

    /// The engine handle.
    pub fn engine(&self) -> (r: &E)
        ensures
            *r == self.spec_engine(),
    {
        &self.engine
    }

    /// The upstream event sink.
    pub fn event_sink(&self) -> (r: &K)
        ensures
            *r == self.spec_event_sink(),
    {
        &self.event_sink
    }

    /// The subscriber factory.
    pub fn event_subscriber(&self) -> (r: &B)
        ensures
            *r == self.spec_event_subscriber(),
    {
        &self.event_subscriber
    }

    /// The seed adapter.
    pub fn seed_adapter(&self) -> (r: &S)
        ensures
            *r == self.spec_seed_adapter(),
    {
        &self.seed_adapter
    }

    /// The principal each run is recorded under.
    pub fn principal(&self) -> (r: &Principal)
        ensures
            *r == self.spec_principal(),
    {
        &self.principal
    }

    /// The label every service of this kind reports under.
    pub fn name(&self) -> (r: &'static str)
        ensures
            r@ == "starter.flow-as-service"@,
    {
        "starter.flow-as-service"
    }
}

/// Whether a delivered event is a re-delivery: `prior` is the run store's
/// answer for the event's dedup key (`None` when no run store is attached).
/// An earlier run found under the key short-circuits the delivery, reported
/// by the event returned, before the seed adapter is asked anything; a
/// failed lookup falls through, as does a key the store does not know.
pub fn dedup_decision(prior: Option<Result<Option<RunId>, String>>) -> (d: Option<FlowEvent>)
    ensures
        prior matches Some(Ok(Some(id))) ==> (d matches Some(FlowEvent::DedupShortCircuit { prior_run_id })
            && prior_run_id == id),
        !(prior matches Some(Ok(Some(_)))) ==> d is None,
{
    match prior {
        Some(Ok(Some(id))) => Some(FlowEvent::DedupShortCircuit { prior_run_id: id }),
        _ => None,
    }
}

/// What a service does with an event that was not a re-delivery.
#[derive(Debug)]
pub enum Delivery {
    /// The seed adapter produced nothing: skip the event.
    Skip,
    /// Start a run with the seeds.
    Start,
}

/// Decide from the number of seed writes the adapter produced for an event
/// that was not a re-delivery: none skips it, any starts a run.
pub fn seed_decision(seed_count: usize) -> (d: Delivery)
    ensures
        d is Skip <==> seed_count == 0,
        d is Start <==> seed_count > 0,
{
    if seed_count == 0 {
        Delivery::Skip
    } else {
        Delivery::Start
    }
}

/// The outcome a delivery reports: `Some(())` when a run was started and
/// joined, `None` when it was skipped or the engine refused to start it (a
/// short-circuited delivery reports `None` too, without reaching here).
pub fn delivery_outcome(plan: &Delivery, started: bool) -> (r: Option<()>)
    ensures
        r is Some <==> (plan is Start && started),
{
    match plan {
        Delivery::Start => if started {
            Some(())
        } else {
            None
        },
        Delivery::Skip => None,
    }
}

} // verus!
