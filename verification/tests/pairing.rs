use indi_touch_meter::pairing::{listing_refused, members_url, step_reply, step_url, PairingStep};

#[test]
fn steps_have_their_own_addresses() {
    assert_eq!(
        step_url(PairingStep::Initiate),
        "https://bt72jq8w9i.execute-api.ap-south-1.amazonaws.com/test/initiate-assignment"
    );
    assert_eq!(
        step_url(PairingStep::Verify),
        "https://bt72jq8w9i.execute-api.ap-south-1.amazonaws.com/test/verify-otp"
    );
}

#[test]
fn accepted_steps_are_confirmed() {
    assert_eq!(
        step_reply(PairingStep::Initiate, true, "200 OK"),
        Ok(String::from("OTP sent successfully"))
    );
    assert_eq!(
        step_reply(PairingStep::Verify, true, "200 OK"),
        Ok(String::from("OTP verified, members fetched"))
    );
}

#[test]
fn refused_steps_carry_the_status() {
    assert_eq!(
        step_reply(PairingStep::Initiate, false, "403 Forbidden"),
        Err(String::from("Initiate failed: 403 Forbidden"))
    );
    assert_eq!(
        step_reply(PairingStep::Verify, false, "500 Internal Server Error"),
        Err(String::from("Verify failed: 500 Internal Server Error"))
    );
}

#[test]
fn member_listing_address_names_meter_and_household() {
    assert_eq!(
        members_url("M-17", "HH42"),
        "https://bt72jq8w9i.execute-api.ap-south-1.amazonaws.com/test/members?meter_id=M-17&hhid=HH42"
    );
    assert_eq!(
        members_url("", ""),
        "https://bt72jq8w9i.execute-api.ap-south-1.amazonaws.com/test/members?meter_id=&hhid="
    );
}

#[test]
fn refused_listing_quotes_status_and_body() {
    assert_eq!(listing_refused("404 Not Found", "no such meter"), "API error 404 Not Found: no such meter");
}
