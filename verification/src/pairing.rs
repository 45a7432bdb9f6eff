use vstd::prelude::*;
use vstd::string::StringExecFns;

verus! {

/// The step of the pairing flow that a service reply belongs to.
#[derive(Debug, Clone, Copy, PartialEq, Eq, Structural)]
pub enum PairingStep {
    /// The household asked for a one-time password.
    Initiate,
    /// The household sent the one-time password back.
    Verify,
}

/// Where the pairing service takes the request of a step.
pub open spec fn step_url_text(step: PairingStep) -> Seq<char> {
    match step {
        PairingStep::Initiate =>
            "https://bt72jq8w9i.execute-api.ap-south-1.amazonaws.com/test/initiate-assignment"@,
        PairingStep::Verify =>
            "https://bt72jq8w9i.execute-api.ap-south-1.amazonaws.com/test/verify-otp"@,
    }
}

/// Where the pairing service takes the request of a step.
pub fn step_url(step: PairingStep) -> (url: &'static str)
    ensures
        url@ == step_url_text(step),
{
    match step {
        PairingStep::Initiate =>
            "https://bt72jq8w9i.execute-api.ap-south-1.amazonaws.com/test/initiate-assignment",
        PairingStep::Verify =>
            "https://bt72jq8w9i.execute-api.ap-south-1.amazonaws.com/test/verify-otp",
    }
}

/// What the caller is told about a step, given whether the service accepted
/// the request and the status it answered with.
pub open spec fn step_reply_text(step: PairingStep, accepted: bool, status: Seq<char>) -> Result<
    Seq<char>,
    Seq<char>,
> {
    match step {
        PairingStep::Initiate => if accepted {
            Ok("OTP sent successfully"@)
        } else {
            Err("Initiate failed: "@ + status)
        },
        PairingStep::Verify => if accepted {
            Ok("OTP verified, members fetched"@)
        } else {
            Err("Verify failed: "@ + status)
        },
    }
}

/// Words the outcome of a pairing step for the caller: the step's success
/// message where the service accepted the request, otherwise the step's
/// failure message followed by the status.
pub fn step_reply(step: PairingStep, accepted: bool, status: &str) -> (reply: Result<
    String,
    String,
>)
    ensures
        match step_reply_text(step, accepted, status@) {
            Ok(text) => reply is Ok && reply->Ok_0@ == text,
            Err(text) => reply is Err && reply->Err_0@ == text,
        },
{
    match step {
        PairingStep::Initiate => if accepted {
            Ok(String::from_str("OTP sent successfully"))
        } else {
            Err(String::from_str("Initiate failed: ").concat(status))
        },
        PairingStep::Verify => if accepted {
            Ok(String::from_str("OTP verified, members fetched"))
        } else {
            Err(String::from_str("Verify failed: ").concat(status))
        },
    }
}

/// The address under which the service lists the members of a household on
/// a meter: both ids are put into the query as they are.
pub fn members_url(meter_id: &str, hhid: &str) -> (url: String)
    ensures
        url@
            == "https://bt72jq8w9i.execute-api.ap-south-1.amazonaws.com/test/members?meter_id="@
            + meter_id@ + "&hhid="@ + hhid@,
{
    String::from_str(
        "https://bt72jq8w9i.execute-api.ap-south-1.amazonaws.com/test/members?meter_id=",
    ).concat(meter_id).concat("&hhid=").concat(hhid)
}

/// The message for a member listing that the service refused: the status
/// and the body of its answer.
pub fn listing_refused(status: &str, body: &str) -> (text: String)
    ensures
        text@ == "API error "@ + status@ + ": "@ + body@,
{
    String::from_str("API error ").concat(status).concat(": ").concat(body)
}

} // verus!
