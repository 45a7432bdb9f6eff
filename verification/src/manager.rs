use vstd::prelude::*;
use vstd::string::StrSliceExecFns;
use crate::config::MqttConfig;
use crate::error::MqttError;
use crate::qos::DeliveryGuarantee;
use crate::tls::{TlsContext, VerifierStrategy, identity_fault, load_tls_config};

verus! {

#[verifier::external_type_specification]
#[verifier::external_body]
pub struct ExAsyncClient(rumqttc::AsyncClient);

#[verifier::external_type_specification]
#[verifier::external_body]
pub struct ExEventLoop(rumqttc::EventLoop);

#[verifier::external_type_specification]
#[verifier::external_body]
pub struct ExMqttOptions(rumqttc::MqttOptions);

#[verifier::external_type_specification]
#[verifier::external_body]
pub struct ExClientError(rumqttc::ClientError);

/// Calls `rumqttc::MqttOptions::new`. Nothing is claimed about the options.
#[verifier::external_body]
fn new_options(client_id: &str, host: &str, port: u16) -> (options: rumqttc::MqttOptions) {
    rumqttc::MqttOptions::new(client_id, host, port)
}

/// Calls `rumqttc::MqttOptions::set_keep_alive` with a whole number of
/// seconds, which it accepts whatever the number.
#[verifier::external_body]
fn set_keep_alive(options: &mut rumqttc::MqttOptions, seconds: u64) {
    options.set_keep_alive(std::time::Duration::from_secs(seconds));
}

/// Calls `rumqttc::Transport::tls_with_config` on the given configuration
/// and hands the transport to `rumqttc::MqttOptions::set_transport`.
#[verifier::external_body]
fn set_tls_transport(options: &mut rumqttc::MqttOptions, config: rustls::ClientConfig) {
    let tls = rumqttc::TlsConfiguration::Rustls(std::sync::Arc::new(config));
    options.set_transport(rumqttc::Transport::tls_with_config(tls));
}

/// Calls `rumqttc::AsyncClient::new`: a client handle and the event loop
/// that serves it. No connection is opened before the loop is polled.
#[verifier::external_body]
fn new_client(options: rumqttc::MqttOptions, capacity: usize) -> (pair: (
    rumqttc::AsyncClient,
    rumqttc::EventLoop,
)) {
    rumqttc::AsyncClient::new(options, capacity)
}

/// Renders a `rumqttc::ClientError` through its `Display` impl. Nothing is
/// claimed about the text.
#[verifier::external_body]
fn client_error_text(cause: &rumqttc::ClientError) -> (text: String) {
    format!("{}", cause)
}

/// Seconds between keep-alive probes on the broker link.
pub const KEEP_ALIVE_SECONDS: u64 = 30;

/// How many requests may wait between a client handle and its event loop.
pub const REQUEST_CAPACITY: usize = 10;

/// Milliseconds to let the protocol handshake settle after connecting,
/// before the first publish.
pub const SETTLE_MILLIS: u64 = 800;

/// What the broker client is opened with.
#[derive(Debug, Clone, PartialEq, Eq)]
pub struct ConnectionConfig {
    pub broker_host: String,
    pub broker_port: u16,
    pub client_id: String,
    pub keep_alive_seconds: u64,
}

/// The connection settings that a meter configuration stands for: its
/// endpoint, port and client id, with the fixed keep-alive interval.
pub fn connection_config(config: &MqttConfig) -> (link: ConnectionConfig)
    ensures
        link.broker_host == config.endpoint,
        link.broker_port == config.port,
        link.client_id == config.client_id,
        link.keep_alive_seconds == KEEP_ALIVE_SECONDS,
{
    ConnectionConfig {
        broker_host: config.endpoint.clone(),
        broker_port: config.port,
        client_id: config.client_id.clone(),
        keep_alive_seconds: KEEP_ALIVE_SECONDS,
    }
}

/// One message as the caller hands it over.
#[derive(Debug, Clone, PartialEq, Eq)]
pub struct MqttMessage {
    pub topic: String,
    pub payload: String,
    pub qos: u8,
}

/// Whether a live connection handle exists.
#[derive(Debug, Clone, Copy, PartialEq, Eq, Structural)]
pub enum ConnectionState {
    Disconnected,
    Connected,
}

/// What the background task does after one poll of the event loop.
#[derive(Debug, Clone, Copy, PartialEq, Eq, Structural)]
pub enum PollerStep {
    /// Ask the transport for the next protocol event.
    Continue,
    /// Leave the loop for good; nothing reconnects.
    Stop,
}

/// Decides how the background task goes on after a poll: it keeps polling
/// while events arrive and stops at the first poll that fails. The
/// manager's state is not touched: a lost transport shows at the next
/// publish.
pub fn after_poll(failed: bool) -> (step: PollerStep)
    ensures
        step == if failed {
            PollerStep::Stop
        } else {
            PollerStep::Continue
        },
{
    if failed {
        PollerStep::Stop
    } else {
        PollerStep::Continue
    }
}

/// A message ready for submission on the open connection.
#[derive(Debug, Clone, PartialEq, Eq)]
pub struct PublishRequest {
    pub topic: String,
    pub guarantee: DeliveryGuarantee,
    pub level: u8,
    pub retain: bool,
    pub payload: Vec<u8>,
}

/// Owns at most one connection handle to the broker.
pub struct MqttManager {
    pub client: Option<rumqttc::AsyncClient>,
}

/// Whether `request` submits `message` as it stands: same topic, the payload
/// as its UTF-8 bytes, the guarantee its quality-of-service value stands
/// for, not retained.
pub open spec fn submits(request: PublishRequest, message: MqttMessage) -> bool {
    &&& request.topic == message.topic
    &&& request.payload@ == vstd::utf8::encode_utf8(message.payload@)
    &&& request.guarantee == DeliveryGuarantee::spec_from_level(message.qos)
    &&& request.level == request.guarantee.spec_level()
    &&& !request.retain
}

impl MqttManager {
    /// The state callers observe: connected exactly while a handle exists.
    pub open spec fn spec_state(self) -> ConnectionState {
        if self.client is Some {
            ConnectionState::Connected
        } else {
            ConnectionState::Disconnected
        }
    }

    /// Whether `outcome` is what publishing `message` in this state gives:
    /// without a connection the `NotConnected` error, with one the request
    /// that submits the message.
    pub open spec fn publish_gives(
        self,
        message: MqttMessage,
        outcome: Result<PublishRequest, MqttError>,
    ) -> bool {
        match self.spec_state() {
            ConnectionState::Disconnected => outcome == Err::<PublishRequest, MqttError>(
                MqttError::NotConnected,
            ),
            ConnectionState::Connected => outcome is Ok && submits(outcome->Ok_0, message),
        }
    }

    /// A manager without a connection.
    pub fn new() -> (manager: MqttManager)
        ensures
            manager.client is None,
            manager.spec_state() == ConnectionState::Disconnected,
    {
        MqttManager { client: None }
    }

    /// The state callers observe.
    pub fn state(&self) -> (state: ConnectionState)
        ensures
            state == self.spec_state(),
    {
        match &self.client {
            Some(_) => ConnectionState::Connected,
            None => ConnectionState::Disconnected,
        }
    }

    /// Creates the connection handle for the broker named by `config` over
    /// the given TLS context, replacing any earlier handle, and hands out
    /// the event loop that must be polled for the connection to live.
    pub fn connect_with(&mut self, config: &MqttConfig, tls: TlsContext) -> (poller:
        rumqttc::EventLoop)
        ensures
            final(self).spec_state() == ConnectionState::Connected,
    {
        let link = connection_config(config);
        let mut options = new_options(
            link.client_id.as_str(),
            link.broker_host.as_str(),
            link.broker_port,
        );
        set_keep_alive(&mut options, link.keep_alive_seconds);
        set_tls_transport(&mut options, tls.config);
        let (client, poller) = new_client(options, REQUEST_CAPACITY);
        self.client = Some(client);
        poller
    }

    /// Loads the identity from the contents of its three files, builds the
    /// TLS context with standard server validation and creates the
    /// connection handle. On any error the manager is left as it was; a
    /// fault in the identity is reported as `identity_fault` names it, and
    /// with a sound identity only a `Config` error can keep the manager from
    /// becoming connected.
    pub fn connect(
        &mut self,
        config: &MqttConfig,
        cert: Result<Vec<u8>, String>,
        key: Result<Vec<u8>, String>,
        ca: Result<Vec<u8>, String>,
    ) -> (outcome: Result<rumqttc::EventLoop, MqttError>)
        ensures
            match identity_fault(cert, key, ca) {
                Some(fault) => outcome == Err::<rumqttc::EventLoop, MqttError>(fault),
                None => outcome is Err ==> outcome->Err_0 is Config,
            },
            outcome is Ok ==> final(self).spec_state() == ConnectionState::Connected,
            outcome is Err ==> *final(self) == *old(self),
    {
        match load_tls_config(cert, key, ca, VerifierStrategy::Standard) {
            Ok(tls) => Ok(self.connect_with(config, tls)),
            Err(fault) => Err(fault),
        }
    }

    /// Decides what publishing `message` means in the current state: without
    /// a connection it fails with `NotConnected`, whatever the message; with
    /// one it yields the request to submit on the handle.
    pub fn publish(&self, message: MqttMessage) -> (outcome: Result<PublishRequest, MqttError>)
        ensures
            self.publish_gives(message, outcome),
    {
        match &self.client {
            None => Err(MqttError::NotConnected),
            Some(_) => {
                let guarantee = DeliveryGuarantee::from_level(message.qos);
                let payload = message.payload.as_str().as_bytes_vec();
                Ok(
                    PublishRequest {
                        topic: message.topic,
                        guarantee,
                        level: guarantee.level(),
                        retain: false,
                        payload,
                    },
                )
            },
        }
    }

    /// Gives up the connection handle, if there is one, so that the caller
    /// can send the broker a graceful goodbye. Never fails.
    pub fn disconnect(&mut self) -> (handle: Option<rumqttc::AsyncClient>)
        ensures
            handle == old(self).client,
            final(self).client is None,
            final(self).spec_state() == ConnectionState::Disconnected,
    {
        self.client.take()
    }
}

/// Disconnects the manager and hands out the handle it held.
pub fn mqtt_disconnect(manager: &mut MqttManager) -> (handle: Option<rumqttc::AsyncClient>)
    ensures
        handle == old(manager).client,
        final(manager).spec_state() == ConnectionState::Disconnected,
{
    manager.disconnect()
}

/// What the caller of a publish is told once the submission has returned:
/// success as it is, a failure as a `Network` error carrying the cause.
pub fn publish_outcome(submitted: Result<(), rumqttc::ClientError>) -> (outcome: Result<
    (),
    MqttError,
>)
    ensures
        submitted is Ok <==> outcome is Ok,
        outcome is Err ==> outcome->Err_0 is Network,
{
    match submitted {
        Ok(_) => Ok(()),
        Err(cause) => Err(MqttError::Network(client_error_text(&cause))),
    }
}

/// In every state of a manager a connection handle exists if and only if
/// the manager is connected.
pub proof fn lemma_handle_iff_connected(manager: MqttManager)
    ensures
        manager.client is Some <==> manager.spec_state() == ConnectionState::Connected,
        manager.client is None <==> manager.spec_state() == ConnectionState::Disconnected,
{
}

/// A manager that was never connected, or was disconnected since, refuses
/// every message with `NotConnected`, whatever its delivery guarantee.
pub proof fn lemma_publish_needs_connection(
    manager: MqttManager,
    message: MqttMessage,
    outcome: Result<PublishRequest, MqttError>,
)
    requires
        manager.spec_state() == ConnectionState::Disconnected,
        manager.publish_gives(message, outcome),
    ensures
        outcome == Err::<PublishRequest, MqttError>(MqttError::NotConnected),
{
}

/// A connected manager accepts every message, and the request it yields
/// carries a quality-of-service value in 0..=2 that maps back to the
/// request's guarantee.
pub proof fn lemma_publish_when_connected(
    manager: MqttManager,
    message: MqttMessage,
    outcome: Result<PublishRequest, MqttError>,
)
    requires
        manager.spec_state() == ConnectionState::Connected,
        manager.publish_gives(message, outcome),
    ensures
        outcome is Ok,
        outcome->Ok_0.level <= 2,
        DeliveryGuarantee::spec_from_level(outcome->Ok_0.level) == outcome->Ok_0.guarantee,
        message.qos <= 2 ==> outcome->Ok_0.level == message.qos,
{
}

} // verus!
