//! The transports that can carry messages, and the registry that holds the
//! available ones by name.

use vstd::prelude::*;
use crate::keyed::{KeyedMap, names};
use crate::message::Message;

verus! {

/// A way to carry messages.
#[derive(Debug, Clone, Copy, PartialEq, Eq, Structural)]
pub enum TransportKind {
    /// Carries nothing: accepts every message and never delivers one.
    Dummy,
}

impl TransportKind {
    /// The name under which the transport is registered.
    pub open spec fn spec_name(self) -> Seq<char> {
        match self {
            TransportKind::Dummy => "dummy"@,
        }
    }

    /// What the transport is, in words.
    pub open spec fn spec_description(self) -> Seq<char> {
        match self {
            TransportKind::Dummy => "Dummy transport (placeholder)"@,
        }
    }

    /// The name under which the transport is registered.
    pub fn name(&self) -> (name: &'static str)
        ensures
            name@ == self.spec_name(),
    {
        match self {
            TransportKind::Dummy => "dummy",
        }
    }

    /// What the transport is, in words.
    pub fn description(&self) -> (text: &'static str)
        ensures
            text@ == self.spec_description(),
    {
        match self {
            TransportKind::Dummy => "Dummy transport (placeholder)",
        }
    }

    /// Hands `message` to the transport. The dummy transport accepts every
    /// message and stays as it is.
    pub fn send_message(&mut self, message: &Message) -> (sent: Result<(), String>)
        ensures
            sent.is_ok(),
            *final(self) == *old(self),
    {
        match self {
            TransportKind::Dummy => Ok(()),
        }
    }

    /// The next message that the transport has received, if any. The dummy
    /// transport never has one.
    pub fn receive_message(&self) -> (received: Result<Option<Message>, String>)
        ensures
            received == Ok::<Option<Message>, String>(None),
    {
        match self {
            TransportKind::Dummy => Ok(None),
        }
    }
}

/// The available transports, each under its name.
pub struct TransportRegistry {
    transports: KeyedMap<TransportKind>,
}

impl View for TransportRegistry {
    type V = Map<Seq<char>, TransportKind>;

    closed spec fn view(&self) -> Map<Seq<char>, TransportKind> {
        self.transports@
    }
}

impl TransportRegistry {
    /// The registered names in the order of their first registration.
    pub closed spec fn registered(&self) -> Seq<Seq<char>> {
        self.transports.key_list()
    }

    /// The list of names holds exactly the registered names, each once.
    pub closed spec fn wf(&self) -> bool {
        self.transports.wf()
    }

    /// In a well-formed registry a name is listed iff a transport is
    /// registered under it, and no name is listed twice.
    pub proof fn lemma_registered_names(&self)
        requires
            self.wf(),
        ensures
            self.registered().no_duplicates(),
            forall|name: Seq<char>| #[trigger]
                self@.contains_key(name) <==> self.registered().contains(name),
    {
    }

    /// A registry without transports.
    pub fn new() -> (registry: Self)
        ensures
            registry.wf(),
            registry@ == Map::<Seq<char>, TransportKind>::empty(),
            registry.registered() == Seq::<Seq<char>>::empty(),
    {
        TransportRegistry { transports: KeyedMap::new() }
    }

    /// Registers `transport` under its name, in place of what was
    /// registered under that name.
    pub fn register(&mut self, transport: TransportKind)
        requires
            old(self).wf(),
        ensures
            final(self).wf(),
            final(self)@ == old(self)@.insert(transport.spec_name(), transport),
            final(self).registered() == if old(self)@.contains_key(transport.spec_name()) {
                old(self).registered()
            } else {
                old(self).registered().push(transport.spec_name())
            },
    {
        self.transports.insert(transport.name(), transport);
    }

    /// The transport registered under `name`.
    pub fn get(&self, name: &str) -> (transport: Option<&TransportKind>)
        ensures
            transport.is_some() == self@.contains_key(name@),
            transport.is_some() ==> *transport.unwrap() == self@[name@],
    {
        self.transports.get(name)
    }

    /// The names of the registered transports, in the order of their first
    /// registration.
    pub fn list(&self) -> (list: Vec<String>)
        ensures
            names(list@) == self.registered(),
    {
        self.transports.keys()
    }
}

} // verus!
