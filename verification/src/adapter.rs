//! The protocol bridge adapters, and the registry that holds the available
//! ones by name.

use vstd::prelude::*;
use crate::keyed::{KeyedMap, names};
use crate::message::{Message, MessageModel};

verus! {

/// Bridge to a Matrix homeserver.
#[derive(Debug, Clone)]
pub struct MatrixAdapter {
    pub homeserver: String,
    pub user: String,
    pub access_token: String,
}

/// Bridge to a Meshtastic device.
#[derive(Debug, Clone)]
pub struct MeshtasticAdapter {
    pub device_path: String,
    pub channel: String,
}

/// Name under which the Matrix adapter is registered.
pub open spec fn matrix_name() -> Seq<char> {
    "matrix"@
}

/// Name under which the Meshtastic adapter is registered.
pub open spec fn meshtastic_name() -> Seq<char> {
    "meshtastic"@
}

/// The two adapters are registered under different names.
pub proof fn lemma_adapter_names_differ()
    ensures
        matrix_name() != meshtastic_name(),
{
    reveal_strlit("matrix");
    reveal_strlit("meshtastic");
    assert(matrix_name().len() != meshtastic_name().len());
}

/// The room that test messages go to.
pub open spec fn matrix_test_room() -> Seq<char> {
    "!yourroomid:matrix.org"@
}

impl MatrixAdapter {
    /// The name under which the adapter is registered.
    pub fn name(&self) -> (name: &'static str)
        ensures
            name@ == matrix_name(),
    {
        "matrix"
    }

    /// What the adapter is, in words.
    pub fn description(&self) -> (text: &'static str)
        ensures
            text@ == "Matrix protocol bridge adapter"@,
    {
        "Matrix protocol bridge adapter"
    }

    /// The test message with text `content` to send: from the adapter's user to the
    /// test room, unencrypted, with the identifier and the time given.
    pub fn send_test_message(&self, content: &str, id: u128, now: u64) -> (message: Message)
        ensures
            message@ == (MessageModel {
                id,
                sender: self.user@,
                recipient: matrix_test_room(),
                content: content@,
                timestamp: now as nat,
                encrypted: false,
                message_type: "text"@,
                encryption_status: "unknown"@,
            }),
    {
        Message {
            id,
            sender: self.user.clone(),
            recipient: "!yourroomid:matrix.org".to_owned(),
            content: content.to_owned(),
            timestamp: now,
            encrypted: false,
            message_type: "text".to_owned(),
            encryption_status: "unknown".to_owned(),
        }
    }
}

impl MeshtasticAdapter {
    /// The name under which the adapter is registered.
    pub fn name(&self) -> (name: &'static str)
        ensures
            name@ == meshtastic_name(),
    {
        "meshtastic"
    }

    /// What the adapter is, in words.
    pub fn description(&self) -> (text: &'static str)
        ensures
            text@ == "Meshtastic protocol bridge adapter"@,
    {
        "Meshtastic protocol bridge adapter"
    }
}

/// One of the protocol adapters.
#[derive(Debug, Clone)]
pub enum AdapterKind {
    Matrix(MatrixAdapter),
    Meshtastic(MeshtasticAdapter),
}

/// Mathematical value of an [`AdapterKind`].
pub enum AdapterModel {
    /// Homeserver, user, access token.
    Matrix(Seq<char>, Seq<char>, Seq<char>),
    /// Device path, channel.
    Meshtastic(Seq<char>, Seq<char>),
}

impl View for AdapterKind {
    type V = AdapterModel;

    open spec fn view(&self) -> AdapterModel {
        match self {
            AdapterKind::Matrix(a) => AdapterModel::Matrix(a.homeserver@, a.user@, a.access_token@),
            AdapterKind::Meshtastic(a) => AdapterModel::Meshtastic(a.device_path@, a.channel@),
        }
    }
}

impl AdapterKind {
    /// A copy of the adapter.
    pub fn duplicate(&self) -> (copy: AdapterKind)
        ensures
            copy == *self,
    {
        match self {
            AdapterKind::Matrix(a) => AdapterKind::Matrix(
                MatrixAdapter {
                    homeserver: a.homeserver.clone(),
                    user: a.user.clone(),
                    access_token: a.access_token.clone(),
                },
            ),
            AdapterKind::Meshtastic(a) => AdapterKind::Meshtastic(
                MeshtasticAdapter { device_path: a.device_path.clone(), channel: a.channel.clone() },
            ),
        }
    }

    /// The name under which the adapter is registered.
    pub open spec fn spec_name(self) -> Seq<char> {
        match self {
            AdapterKind::Matrix(_) => matrix_name(),
            AdapterKind::Meshtastic(_) => meshtastic_name(),
        }
    }

    /// What the adapter is, in words.
    pub open spec fn spec_description(self) -> Seq<char> {
        match self {
            AdapterKind::Matrix(_) => "Matrix protocol bridge adapter"@,
            AdapterKind::Meshtastic(_) => "Meshtastic protocol bridge adapter"@,
        }
    }

    /// The name under which the adapter is registered.
    pub fn name(&self) -> (name: &'static str)
        ensures
            name@ == self.spec_name(),
    {
        match self {
            AdapterKind::Matrix(a) => a.name(),
            AdapterKind::Meshtastic(a) => a.name(),
        }
    }

    /// What the adapter is, in words.
    pub fn description(&self) -> (text: &'static str)
        ensures
            text@ == self.spec_description(),
    {
        match self {
            AdapterKind::Matrix(a) => a.description(),
            AdapterKind::Meshtastic(a) => a.description(),
        }
    }
}

/// The available adapters, each under its name.
pub struct AdapterRegistry {
    adapters: KeyedMap<AdapterKind>,
}

impl View for AdapterRegistry {
    type V = Map<Seq<char>, AdapterKind>;

    closed spec fn view(&self) -> Map<Seq<char>, AdapterKind> {
        self.adapters@
    }
}

impl AdapterRegistry {
    /// The registered names in the order of their first registration.
    pub closed spec fn registered(&self) -> Seq<Seq<char>> {
        self.adapters.key_list()
    }

    /// The list of names holds exactly the registered names, each once.
    pub closed spec fn wf(&self) -> bool {
        self.adapters.wf()
    }

    /// In a well-formed registry a name is listed iff an adapter is
    /// registered under it, and no name is listed twice.
    pub proof fn lemma_registered_names(&self)
        requires
            self.wf(),
        ensures
            self.registered().no_duplicates(),
            forall|name: Seq<char>| #[trigger]
                self@.contains_key(name) <==> self.registered().contains(name),
    {
    }

    /// A registry without adapters.
    pub fn new() -> (registry: Self)
        ensures
            registry.wf(),
            registry@ == Map::<Seq<char>, AdapterKind>::empty(),
            registry.registered() == Seq::<Seq<char>>::empty(),
    {
        AdapterRegistry { adapters: KeyedMap::new() }
    }

    /// Registers `adapter` under its name, in place of what was registered
    /// under that name.
    pub fn register(&mut self, adapter: AdapterKind)
        requires
            old(self).wf(),
        ensures
            final(self).wf(),
            final(self)@ == old(self)@.insert(adapter.spec_name(), adapter),
            final(self).registered() == if old(self)@.contains_key(adapter.spec_name()) {
                old(self).registered()
            } else {
                old(self).registered().push(adapter.spec_name())
            },
    {
        let name = adapter.name();
        self.adapters.insert(name, adapter);
    }

    /// The adapter registered under `name`.
    pub fn get(&self, name: &str) -> (adapter: Option<&AdapterKind>)
        ensures
            adapter.is_some() == self@.contains_key(name@),
            adapter.is_some() ==> *adapter.unwrap() == self@[name@],
    {
        self.adapters.get(name)
    }

    /// The names of the registered adapters, in the order of their first
    /// registration.
    pub fn list(&self) -> (list: Vec<String>)
        ensures
            names(list@) == self.registered(),
    {
        self.adapters.keys()
    }
}

} // verus!
