use vstd::prelude::*;
use vstd::string::StringExecFns;
use crate::clock::{millis_since_epoch, system_now};

verus! {

/// Where the broker is and which identity files to present to it.
#[derive(Debug, Clone, PartialEq, Eq)]
pub struct MqttConfig {
    pub endpoint: String,
    pub port: u16,
    pub client_id: String,
    pub cert_path: String,
    pub key_path: String,
    pub ca_path: String,
}

/// The character of one decimal digit.
pub open spec fn digit_char(d: nat) -> char {
    if d == 0 {
        '0'
    } else if d == 1 {
        '1'
    } else if d == 2 {
        '2'
    } else if d == 3 {
        '3'
    } else if d == 4 {
        '4'
    } else if d == 5 {
        '5'
    } else if d == 6 {
        '6'
    } else if d == 7 {
        '7'
    } else if d == 8 {
        '8'
    } else {
        '9'
    }
}

/// The decimal numeral of a number: no sign, no leading zero, `0` for zero.
pub open spec fn decimal_digits(n: nat) -> Seq<char>
    decreases n,
{
    if n < 10 {
        seq![digit_char(n)]
    } else {
        decimal_digits(n / 10).push(digit_char(n % 10))
    }
}

/// Calls `String::push` of std: the character is appended.
#[verifier::external_body]
fn push_char(text: &mut String, c: char)
    ensures
        final(text)@ == old(text)@.push(c),
{
    text.push(c)
}

fn digit_of(d: u8) -> (c: char)
    requires
        d < 10,
    ensures
        c == digit_char(d as nat),
{
    if d == 0 {
        '0'
    } else if d == 1 {
        '1'
    } else if d == 2 {
        '2'
    } else if d == 3 {
        '3'
    } else if d == 4 {
        '4'
    } else if d == 5 {
        '5'
    } else if d == 6 {
        '6'
    } else if d == 7 {
        '7'
    } else if d == 8 {
        '8'
    } else {
        '9'
    }
}

/// Appends the decimal numeral of `n` to `text`.
pub fn push_decimal(text: &mut String, n: u128)
    ensures
        final(text)@ == old(text)@ + decimal_digits(n as nat),
    decreases n,
{
    if n >= 10 {
        push_decimal(text, n / 10);
    }
    let d: u8 = (n % 10) as u8;
    push_char(text, digit_of(d));
    proof {
        let head = old(text)@;
        if n >= 10 {
            assert(head + decimal_digits(n as nat) =~= (head + decimal_digits((n / 10) as nat)).push(
                digit_char((n % 10) as nat),
            ));
        } else {
            assert(head + decimal_digits(n as nat) =~= head.push(digit_char(n as nat)));
        }
    }
}

/// Whether `config` is the meter's configuration with the client id stamped
/// with `millis`: the fixed endpoint on port 8883, the fixed identity paths,
/// and the id `indi-touch-meter-` followed by the decimal numeral of
/// `millis`.
pub open spec fn is_config_at(config: MqttConfig, millis: u128) -> bool {
    &&& config.endpoint@ == "a3uoz4wfsx2nz3-ats.iot.ap-south-1.amazonaws.com"@
    &&& config.port == 8883
    &&& config.client_id@ == "indi-touch-meter-"@ + decimal_digits(millis as nat)
    &&& config.cert_path@
        == "C:\\Users\\ankur\\Dev\\personal\\frontend\\indi-touch-meter\\certs\\INDIREX-ADMIN.crt"@
    &&& config.key_path@
        == "C:\\Users\\ankur\\Dev\\personal\\frontend\\indi-touch-meter\\certs\\INDIREX-ADMIN.key"@
    &&& config.ca_path@
        == "C:\\Users\\ankur\\Dev\\personal\\frontend\\indi-touch-meter\\certs\\AmazonRootCA1.pem"@
}

/// Whether `config` is the meter's configuration stamped with some time.
pub open spec fn is_meter_config(config: MqttConfig) -> bool {
    exists|millis: u128| #[trigger] is_config_at(config, millis)
}

/// The meter's configuration with the client id stamped with `millis`, so
/// that ids made at different milliseconds differ.
pub fn mqtt_config_at(millis: u128) -> (config: MqttConfig)
    ensures
        is_config_at(config, millis),
{
    let mut client_id = String::from_str("indi-touch-meter-");
    push_decimal(&mut client_id, millis);
    MqttConfig {
        endpoint: String::from_str("a3uoz4wfsx2nz3-ats.iot.ap-south-1.amazonaws.com"),
        port: 8883,
        client_id,
        cert_path: String::from_str(
            "C:\\Users\\ankur\\Dev\\personal\\frontend\\indi-touch-meter\\certs\\INDIREX-ADMIN.crt",
        ),
        key_path: String::from_str(
            "C:\\Users\\ankur\\Dev\\personal\\frontend\\indi-touch-meter\\certs\\INDIREX-ADMIN.key",
        ),
        ca_path: String::from_str(
            "C:\\Users\\ankur\\Dev\\personal\\frontend\\indi-touch-meter\\certs\\AmazonRootCA1.pem",
        ),
    }
}

/// The meter's configuration, its client id stamped with the current time.
/// Fails only where the system clock stands before the Unix epoch.
pub fn get_mqtt_config() -> (outcome: Result<MqttConfig, String>)
    ensures
        outcome is Ok ==> is_meter_config(outcome->Ok_0),
        outcome is Err ==> outcome->Err_0@ == "System clock is before the Unix epoch"@,
{
    let now = system_now();
    match millis_since_epoch(&now) {
        Some(millis) => {
            let config = mqtt_config_at(millis);
            assert(is_config_at(config, millis));
            Ok(config)
        },
        None => Err(String::from_str("System clock is before the Unix epoch")),
    }
}

} // verus!
