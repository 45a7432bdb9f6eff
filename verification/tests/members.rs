use indi_touch_meter::members::{
    age_on, calculate_age, local_members, members_message, toggle_member, ApiMember,
    CalendarDate, LocalMember, MemberError,
};

fn member(id: &str, active: bool) -> LocalMember {
    LocalMember { id: String::from(id), age: 30, gender: String::from("F"), active }
}

fn reported(code: &str, dob: &str) -> ApiMember {
    ApiMember {
        member_code: String::from(code),
        dob: String::from(dob),
        gender: String::from("M"),
        created_at: String::from("2024-01-01T00:00:00Z"),
    }
}

fn date(year: i32, month: u32, day: u32) -> CalendarDate {
    CalendarDate { year, month, day }
}

#[test]
fn toggle_switches_the_named_member() {
    let mut members = vec![member("a", false), member("b", true), member("c", false)];
    assert_eq!(toggle_member(&mut members, &String::from("b")), Ok(1));
    assert_eq!(members, vec![member("a", false), member("b", false), member("c", false)]);
    assert_eq!(toggle_member(&mut members, &String::from("b")), Ok(1));
    assert_eq!(members, vec![member("a", false), member("b", true), member("c", false)]);
}

#[test]
fn toggle_switches_only_the_first_of_equal_ids() {
    let mut members = vec![member("a", false), member("a", false)];
    assert_eq!(toggle_member(&mut members, &String::from("a")), Ok(0));
    assert_eq!(members, vec![member("a", true), member("a", false)]);
}

#[test]
fn toggle_of_an_unknown_member_changes_nothing() {
    let mut members = vec![member("a", false), member("b", true)];
    assert_eq!(toggle_member(&mut members, &String::from("z")), Err(MemberError::NotFound));
    assert_eq!(members, vec![member("a", false), member("b", true)]);
    let mut nobody: Vec<LocalMember> = Vec::new();
    assert_eq!(toggle_member(&mut nobody, &String::from("a")), Err(MemberError::NotFound));
}

#[test]
fn age_counts_completed_years() {
    assert_eq!(age_on(date(2024, 5, 10), date(2000, 5, 10)), 24);
    assert_eq!(age_on(date(2024, 5, 10), date(2000, 5, 11)), 23);
    assert_eq!(age_on(date(2024, 5, 10), date(2000, 6, 1)), 23);
    assert_eq!(age_on(date(2024, 5, 10), date(2000, 4, 30)), 24);
    assert_eq!(age_on(date(2024, 5, 10), date(2024, 5, 10)), 0);
}

#[test]
fn age_of_a_future_birth_wraps() {
    assert_eq!(age_on(date(2024, 5, 10), date(2024, 5, 11)), u32::MAX);
    assert_eq!(age_on(date(2024, 5, 10), date(2026, 1, 1)), u32::MAX - 1);
    assert_eq!(age_on(date(i32::MAX, 12, 31), date(i32::MIN, 1, 1)), u32::MAX);
    assert_eq!(age_on(date(i32::MIN, 1, 1), date(i32::MAX, 12, 31)), 0);
}

#[test]
fn age_of_a_written_date() {
    let age = calculate_age("2000-01-01").unwrap();
    assert!(age >= 20 && age < 200);
    assert_eq!(calculate_age("01/01/2000"), Err(MemberError::InvalidDob));
    assert_eq!(calculate_age("2000-02-30"), Err(MemberError::InvalidDob));
    assert_eq!(calculate_age(""), Err(MemberError::InvalidDob));
}

#[test]
fn reported_members_become_inactive_records() {
    let api = vec![reported("m1", "1990-06-15"), reported("m2", "2010-12-31")];
    let list = local_members(&api).unwrap();
    assert_eq!(list.len(), 2);
    assert_eq!(list[0].id, "m1");
    assert_eq!(list[1].id, "m2");
    assert_eq!(list[0].gender, "M");
    assert!(!list[0].active && !list[1].active);
    assert_eq!(list[0].age, calculate_age("1990-06-15").unwrap());
    assert!(list[0].age > list[1].age);
    assert_eq!(local_members(&Vec::new()), Ok(Vec::new()));
}

#[test]
fn one_bad_date_of_birth_fails_the_list() {
    let api = vec![reported("m1", "1990-06-15"), reported("m2", "soon")];
    assert_eq!(local_members(&api), Err(MemberError::InvalidDob));
}

#[test]
fn member_list_is_reported_at_least_once() {
    let message = members_message(String::from("[]"));
    assert_eq!(message.topic, "indi-touch-meter/data");
    assert_eq!(message.payload, "[]");
    assert_eq!(message.qos, 1);
}
