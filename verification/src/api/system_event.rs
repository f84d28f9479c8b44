//! Events of the type system.

use vstd::prelude::*;

verus! {

/// What happened to the type system. Each event names the type concerned.
#[derive(Debug, PartialEq, Eq)]
pub enum SystemEvent {
    ComponentCreated(String),
    ComponentDeleted(String),
    EntityTypeCreated(String),
    EntityTypeDeleted(String),
    RelationTypeCreated(String),
    RelationTypeDeleted(String),
}

/// The mathematical value of a [`SystemEvent`].
pub enum SystemEventView {
    ComponentCreated(Seq<char>),
    ComponentDeleted(Seq<char>),
    EntityTypeCreated(Seq<char>),
    EntityTypeDeleted(Seq<char>),
    RelationTypeCreated(Seq<char>),
    RelationTypeDeleted(Seq<char>),
}

impl View for SystemEvent {
    type V = SystemEventView;

    open spec fn view(&self) -> SystemEventView {
        match self {
            SystemEvent::ComponentCreated(name) => SystemEventView::ComponentCreated(name@),
            SystemEvent::ComponentDeleted(name) => SystemEventView::ComponentDeleted(name@),
            SystemEvent::EntityTypeCreated(name) => SystemEventView::EntityTypeCreated(name@),
            SystemEvent::EntityTypeDeleted(name) => SystemEventView::EntityTypeDeleted(name@),
            SystemEvent::RelationTypeCreated(name) => SystemEventView::RelationTypeCreated(name@),
            SystemEvent::RelationTypeDeleted(name) => SystemEventView::RelationTypeDeleted(name@),
        }
    }
}

impl DeepView for SystemEvent {
    type V = SystemEventView;

    open spec fn deep_view(&self) -> SystemEventView {
        self@
    }
}

/// The queue that a registry emits its events into. Emitting never waits
/// for a subscriber: whoever delivers the events takes them out later.
pub struct SystemEventManager {
    events: Vec<SystemEvent>,
}

impl SystemEventManager {
    /// The events that were emitted and not yet taken, oldest first.
    pub closed spec fn emitted(&self) -> Seq<SystemEventView> {
        self.events.deep_view()
    }

    /// A queue without events.
    pub fn new() -> (made: Self)
        ensures
            made.emitted() == Seq::<SystemEventView>::empty(),
    {
        let made = SystemEventManager { events: Vec::new() };
        assert(made.events.deep_view() =~= Seq::<SystemEventView>::empty());
        made
    }

    /// Puts `event` at the end of the queue.
    pub fn emit_event(&mut self, event: SystemEvent)
        ensures
            final(self).emitted() == old(self).emitted().push(event@),
    {
        self.events.push(event);
        assert(self.events.deep_view() =~= old(self).events.deep_view().push(event@));
    }

    /// Hands out the events in the queue, oldest first, and leaves it empty.
    pub fn take_events(&mut self) -> (taken: Vec<SystemEvent>)
        ensures
            taken.deep_view() == old(self).emitted(),
            final(self).emitted() == Seq::<SystemEventView>::empty(),
    {
        let mut taken: Vec<SystemEvent> = Vec::new();
        core::mem::swap(&mut taken, &mut self.events);
        assert(self.events.deep_view() =~= Seq::<SystemEventView>::empty());
        taken
    }
}

} // verus!
