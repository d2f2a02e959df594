//! The node itself: its identity, its admission engine, the transports and
//! adapters that it knows, and the ones that are in use.

use std::sync::Arc;
use vstd::prelude::*;
use vstd::string::StringExecFns;
use crate::adapter::{
    AdapterKind, AdapterRegistry, MatrixAdapter, MeshtasticAdapter, lemma_adapter_names_differ,
    matrix_name, meshtastic_name,
};
use crate::config::MatrixConfig;
use crate::identity::Identity;
use crate::mesh::{MeshStats, ReticulumStats, ReticulumTopology};
use crate::message::Message;
use crate::security::manager::{SecurityManager, DEFAULT_EVENT_CAPACITY};
use crate::security::model::EngineModel;
use crate::security::types::{SecurityConfig, SecurityStats};
use crate::transport::{TransportKind, TransportRegistry};

verus! {

/// Why a request to the node failed.
#[derive(Debug, Clone)]
pub enum CoreError {
    /// No transport is registered under the name.
    TransportNotFound(String),
    /// No adapter is registered under the name.
    AdapterNotFound(String),
    /// No adapter was selected.
    NoActiveAdapter,
}

impl CoreError {
    /// The error in words.
    pub open spec fn text(self) -> Seq<char> {
        match self {
            CoreError::TransportNotFound(name) => "Transport not found: "@ + name@,
            CoreError::AdapterNotFound(name) => "Adapter not found: "@ + name@,
            CoreError::NoActiveAdapter => "No active adapter selected"@,
        }
    }

    /// The error in words.
    pub fn message(&self) -> (text: String)
        ensures
            text@ == self.text(),
    {
        match self {
            CoreError::TransportNotFound(name) => {
                let mut text = "Transport not found: ".to_owned();
                text.append(name.as_str());
                text
            },
            CoreError::AdapterNotFound(name) => {
                let mut text = "Adapter not found: ".to_owned();
                text.append(name.as_str());
                text
            },
            CoreError::NoActiveAdapter => "No active adapter selected".to_owned(),
        }
    }
}

/// The state of the node.
pub struct Core {
    pub identity: Arc<Identity>,
    pub security_manager: SecurityManager,
    pub transport_registry: TransportRegistry,
    pub active_transport: Option<TransportKind>,
    pub adapter_registry: AdapterRegistry,
    pub active_adapter: Option<AdapterKind>,
}

impl Core {
    /// The engine and the registries are well formed.
    pub open spec fn wf(&self) -> bool {
        &&& self.security_manager.wf()
        &&& self.transport_registry.wf()
        &&& self.adapter_registry.wf()
    }

    /// The node of `identity`: with the default admission policy, no
    /// transport, and the adapters that the configuration calls for. The
    /// Meshtastic adapter on `/dev/ttyUSB0`, channel `main`, is always
    /// registered; the Matrix adapter iff `matrix` holds its settings.
    /// Nothing is in use yet.
    pub fn new(identity: Arc<Identity>, matrix: Option<MatrixConfig>) -> (core: Self)
        ensures
            core.wf(),
            core.identity == identity,
            core.security_manager@ == EngineModel::initial(
                SecurityConfig::default_value(),
                DEFAULT_EVENT_CAPACITY as nat,
            ),
            core.transport_registry@ == Map::<Seq<char>, TransportKind>::empty(),
            core.active_transport.is_none(),
            core.active_adapter.is_none(),
            core.adapter_registry@.dom() == if matrix.is_some() {
                Set::<Seq<char>>::empty().insert(matrix_name()).insert(meshtastic_name())
            } else {
                Set::<Seq<char>>::empty().insert(meshtastic_name())
            },
            core.adapter_registry@[meshtastic_name()] is Meshtastic,
            core.adapter_registry@[meshtastic_name()]->Meshtastic_0.device_path@ == "/dev/ttyUSB0"@,
            core.adapter_registry@[meshtastic_name()]->Meshtastic_0.channel@ == "main"@,
            matrix.is_some() ==> core.adapter_registry@[matrix_name()] is Matrix && {
                let adapter = core.adapter_registry@[matrix_name()]->Matrix_0;
                &&& adapter.homeserver == matrix.unwrap().homeserver
                &&& adapter.user == matrix.unwrap().user
                &&& adapter.access_token == matrix.unwrap().access_token
            },
    {
        proof {
            lemma_adapter_names_differ();
        }
        let config = SecurityConfig::default();
        let mut adapters = AdapterRegistry::new();
        match matrix {
            Some(settings) => {
                adapters.register(
                    AdapterKind::Matrix(
                        MatrixAdapter {
                            homeserver: settings.homeserver,
                            user: settings.user,
                            access_token: settings.access_token,
                        },
                    ),
                );
            },
            None => {},
        }
        adapters.register(
            AdapterKind::Meshtastic(
                MeshtasticAdapter {
                    device_path: "/dev/ttyUSB0".to_owned(),
                    channel: "main".to_owned(),
                },
            ),
        );
        let core = Core {
            identity,
            security_manager: SecurityManager::new(config),
            transport_registry: TransportRegistry::new(),
            active_transport: None,
            adapter_registry: adapters,
            active_adapter: None,
        };
        proof {
            if matrix.is_some() {
                assert(core.adapter_registry@.dom() =~= Set::<Seq<char>>::empty().insert(
                    matrix_name(),
                ).insert(meshtastic_name()));
            } else {
                assert(core.adapter_registry@.dom() =~= Set::<Seq<char>>::empty().insert(
                    meshtastic_name(),
                ));
            }
        }
        core
    }

    /// Takes the transport registered under `name` into use.
    pub fn set_active_transport(&mut self, name: &str) -> (done: Result<(), CoreError>)
        ensures
            old(self).transport_registry@.contains_key(name@) ==> done.is_ok() && *final(self) == (
            Core {
                active_transport: Some(old(self).transport_registry@[name@]),
                ..*old(self)
            }),
            !old(self).transport_registry@.contains_key(name@) ==> *final(self) == *old(self)
                && done is Err && done->Err_0 is TransportNotFound
                && done->Err_0->TransportNotFound_0@ == name@,
    {
        let found = match self.transport_registry.get(name) {
            Some(transport) => Some(*transport),
            None => None,
        };
        match found {
            Some(transport) => {
                self.active_transport = Some(transport);
                Ok(())
            },
            None => Err(CoreError::TransportNotFound(name.to_owned())),
        }
    }

    /// Whether a message goes to a transport: it does iff one is in use.
    /// Sending succeeds either way; without a transport the message stays
    /// local.
    pub fn send_message(&self, message: &Message) -> (sent: Result<bool, CoreError>)
        ensures
            sent == Ok::<bool, CoreError>(self.active_transport.is_some()),
    {
        Ok(self.active_transport.is_some())
    }

    /// Takes the dummy transport into use.
    pub fn init_default_transport(&mut self)
        ensures
            *final(self) == (Core { active_transport: Some(TransportKind::Dummy), ..*old(self) }),
    {
        self.active_transport = Some(TransportKind::Dummy);
    }

    /// Takes the adapter registered under `name` into use.
    pub fn set_active_adapter(&mut self, name: &str) -> (done: Result<(), CoreError>)
        ensures
            !old(self).adapter_registry@.contains_key(name@) ==> *final(self) == *old(self)
                && done is Err && done->Err_0 is AdapterNotFound
                && done->Err_0->AdapterNotFound_0@ == name@,
            old(self).adapter_registry@.contains_key(name@) ==> {
                &&& done.is_ok()
                &&& *final(self) == (Core { active_adapter: final(self).active_adapter, ..*old(self) })
                &&& final(self).active_adapter.is_some()
                &&& final(self).active_adapter.unwrap()@ == old(self).adapter_registry@[name@]@
            },
    {
        let found = match self.adapter_registry.get(name) {
            Some(adapter) => Some(adapter.duplicate()),
            None => None,
        };
        match found {
            Some(adapter) => {
                self.active_adapter = Some(adapter);
                Ok(())
            },
            None => Err(CoreError::AdapterNotFound(name.to_owned())),
        }
    }

    /// The adapter through which a message is to go: the one in use.
    pub fn send_adapter_message(&self) -> (adapter: Result<&AdapterKind, CoreError>)
        ensures
            match self.active_adapter {
                Some(active) => adapter == Ok::<&AdapterKind, CoreError>(&active),
                None => adapter is Err && adapter->Err_0 is NoActiveAdapter,
            },
    {
        match &self.active_adapter {
            Some(adapter) => Ok(adapter),
            None => Err(CoreError::NoActiveAdapter),
        }
    }

    /// The identifier of the node.
    pub fn get_identity_id(&self) -> (id: String)
        ensures
            id@ == self.identity.id@,
    {
        self.identity.id.clone()
    }

    /// A description of the topology of the network.
    pub fn get_network_topology(&self) -> (text: String)
        ensures
            text@ == "Network topology not yet implemented"@,
    {
        "Network topology not yet implemented".to_owned()
    }

    /// Starts the mesh network. The node runs no mesh: nothing changes,
    /// and that is no failure.
    pub fn init_mesh(&mut self) -> (done: Result<(), CoreError>)
        ensures
            done.is_ok(),
            *final(self) == *old(self),
    {
        Ok(())
    }

    /// Starts the Reticulum network. The node runs none: nothing changes,
    /// and that is no failure.
    pub fn init_reticulum(&mut self) -> (done: Result<(), CoreError>)
        ensures
            done.is_ok(),
            *final(self) == *old(self),
    {
        Ok(())
    }

    /// Connects to the Meshtastic device at `address`: accepted without
    /// effect.
    pub fn connect_meshtastic(&self, address: &str) -> (done: Result<(), CoreError>)
        ensures
            done.is_ok(),
    {
        Ok(())
    }

    /// Connects to the Reticulum network at `address`: accepted without
    /// effect.
    pub fn connect_reticulum(&self, address: &str) -> (done: Result<(), CoreError>)
        ensures
            done.is_ok(),
    {
        Ok(())
    }

    /// Starts the mesh at `address`: accepted without effect.
    pub fn start_mesh(&self, address: &str) -> (done: Result<(), CoreError>)
        ensures
            done.is_ok(),
    {
        Ok(())
    }

    /// Asks for the topology of the mesh: accepted, and there is none to
    /// give.
    pub fn get_mesh_topology(&self) -> (done: Result<(), CoreError>)
        ensures
            done.is_ok(),
    {
        Ok(())
    }

    /// The counters of the mesh network: none, for the node runs no mesh.
    pub fn get_mesh_stats(&self) -> (stats: Option<MeshStats>)
        ensures
            stats.is_none(),
    {
        None
    }

    /// The counters of the Reticulum network: none, for the node runs none.
    pub fn get_reticulum_stats(&self) -> (stats: Option<ReticulumStats>)
        ensures
            stats.is_none(),
    {
        None
    }

    /// The topology of the Reticulum network: none, for the node runs none.
    pub fn get_reticulum_topology(&self) -> (topology: Option<ReticulumTopology>)
        ensures
            topology.is_none(),
    {
        None
    }

    /// The statistics of the admission engine.
    pub fn get_security_stats(&self) -> (stats: SecurityStats)
        ensures
            stats@ == self.security_manager@.stats,
    {
        self.security_manager.get_security_stats()
    }
}

} // verus!
