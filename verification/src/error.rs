use vstd::prelude::*;
use vstd::string::StringExecFns;

verus! {

/// Why an operation of the broker link failed.
#[derive(Debug, Clone, PartialEq, Eq)]
pub enum MqttError {
    /// A file was missing or unreadable; carries the cause.
    Io(String),
    /// PEM or certificate data was malformed.
    Parse,
    /// No supported private-key encoding matched.
    NoValidKey,
    /// The TLS context could not be constructed; carries the cause.
    Config(String),
    /// The operation needs a live connection and there is none.
    NotConnected,
    /// The transport or protocol failed; carries the cause.
    Network(String),
}

impl MqttError {
    /// The descriptive message shown to the caller.
    pub open spec fn message_text(self) -> Seq<char> {
        match self {
            MqttError::Io(cause) => "Cannot open file: "@ + cause@,
            MqttError::Parse => "Malformed PEM certificate data"@,
            MqttError::NoValidKey => "No valid private key found"@,
            MqttError::Config(cause) => "TLS config error: "@ + cause@,
            MqttError::NotConnected => "MQTT not connected"@,
            MqttError::Network(cause) => "Publish failed: "@ + cause@,
        }
    }

    /// Renders the error as the message shown to the caller.
    pub fn message(&self) -> (text: String)
        ensures
            text@ == self.message_text(),
    {
        match self {
            MqttError::Io(cause) => String::from_str("Cannot open file: ").concat(cause.as_str()),
            MqttError::Parse => String::from_str("Malformed PEM certificate data"),
            MqttError::NoValidKey => String::from_str("No valid private key found"),
            MqttError::Config(cause) => String::from_str("TLS config error: ").concat(
                cause.as_str(),
            ),
            MqttError::NotConnected => String::from_str("MQTT not connected"),
            MqttError::Network(cause) => String::from_str("Publish failed: ").concat(
                cause.as_str(),
            ),
        }
    }
}

} // verus!
