//! A runtime assembly that names its workers one by one.

use crate::agent::interaction::SessionContext;
use crate::agent::runtime::{BusWorker, SessionWorker};
use crate::agent::schema::AgentSchema;
use crate::agent::substrate::{Event, EventBus, Subscription};
use std::future::Future;
use vstd::prelude::*;

verus! {

/// Schema-bound runtime assembly.
pub trait AgentRuntime {
    type Error;

    type Schema: AgentSchema;

    type Bus: EventBus<
        Event = Event<Self::Schema>,
        Subscription = Subscription<Self::Schema>,
        Error = Self::Error,
    >;

    type Ingress: SessionWorker<Self::Schema, Self::Bus, Error = Self::Error>;

    type Egress: SessionWorker<Self::Schema, Self::Bus, Error = Self::Error>;

    type Control: BusWorker<Self::Schema, Self::Bus, Error = Self::Error>;

    type Inference: BusWorker<Self::Schema, Self::Bus, Error = Self::Error>;

    type Tools: BusWorker<Self::Schema, Self::Bus, Error = Self::Error>;

    type Presentation: BusWorker<Self::Schema, Self::Bus, Error = Self::Error>;

    type RunSession: Future<Output = Result<(), Self::Error>>;

    fn bus(&self) -> &Self::Bus;

    fn ingress(&self) -> &Self::Ingress;

    fn egress(&self) -> &Self::Egress;

    fn control(&self) -> &Self::Control;

    fn inference(&self) -> &Self::Inference;

    fn tools(&self) -> &Self::Tools;

    fn presentation(&self) -> &Self::Presentation;

    fn run_session(&self, session: SessionContext<Self::Schema>) -> Self::RunSession;
}

}
