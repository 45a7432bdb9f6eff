use vstd::prelude::*;
use vstd::string::StringExecFns;
use crate::clock::system_now;
use crate::manager::MqttMessage;

verus! {

/// A household member as the meter keeps it.
#[derive(Debug, Clone, PartialEq, Eq)]
pub struct LocalMember {
    pub id: String,
    pub age: u32,
    pub gender: String,
    pub active: bool,
}

/// A household member as the pairing service reports it.
#[derive(Debug, Clone, PartialEq, Eq)]
pub struct ApiMember {
    pub member_code: String,
    pub dob: String,
    pub gender: String,
    pub created_at: String,
}

/// Why a member operation failed.
#[derive(Debug, Clone, Copy, PartialEq, Eq, Structural)]
pub enum MemberError {
    /// No member has the requested id.
    NotFound,
    /// A date of birth is not a `YYYY-MM-DD` calendar date.
    InvalidDob,
}

/// A calendar date.
#[derive(Debug, Clone, Copy, PartialEq, Eq, Structural)]
pub struct CalendarDate {
    pub year: i32,
    pub month: u32,
    pub day: u32,
}

impl CalendarDate {
    /// Month and day lie in the ranges a calendar allows.
    pub open spec fn in_calendar(self) -> bool {
        1 <= self.month <= 12 && 1 <= self.day <= 31
    }
}

/// The date that `chrono::NaiveDate::parse_from_str` reads from a text under
/// the format `%Y-%m-%d`, as year, month and day; `None` where it fails.
pub uninterp spec fn parsed_ymd(text: Seq<char>) -> Option<(int, int, int)>;

/// Whether a parse outcome holds exactly the named date.
pub open spec fn holds_date(found: Option<CalendarDate>, named: Option<(int, int, int)>) -> bool {
    match found {
        Some(date) => named == Some((date.year as int, date.month as int, date.day as int))
            && date.in_calendar(),
        None => named is None,
    }
}

/// Calls `chrono::NaiveDate::parse_from_str` with the format `%Y-%m-%d`.
/// The contract gives the date a name and claims, as chrono documents for
/// `Datelike`, that its month is in 1..=12 and its day in 1..=31.
#[verifier::external_body]
fn parse_ymd(text: &str) -> (found: Option<CalendarDate>)
    ensures
        holds_date(found, parsed_ymd(text@)),
{
    let parsed = chrono::NaiveDate::parse_from_str(text, "%Y-%m-%d").ok();
    parsed.map(|d| CalendarDate {
        year: chrono::Datelike::year(&d),
        month: chrono::Datelike::month(&d),
        day: chrono::Datelike::day(&d),
    })
}

/// Converts a clock reading with chrono's `DateTime::<Utc>::from` and
/// `date_naive` to its calendar date in UTC. The contract claims only, as
/// chrono documents for `Datelike`, that the month is in 1..=12 and the day
/// in 1..=31.
#[verifier::external_body]
fn utc_date(at: std::time::SystemTime) -> (date: CalendarDate)
    ensures
        date.in_calendar(),
{
    let day = chrono::DateTime::<chrono::Utc>::from(at).date_naive();
    CalendarDate {
        year: chrono::Datelike::year(&day),
        month: chrono::Datelike::month(&day),
        day: chrono::Datelike::day(&day),
    }
}

/// Whether, on `today`, this year's birthday of someone born on `dob` is
/// still to come.
pub open spec fn before_birthday(today: CalendarDate, dob: CalendarDate) -> bool {
    today.month < dob.month || (today.month == dob.month && today.day < dob.day)
}

/// The age in completed years on `today` of someone born on `dob`, reduced
/// to 32 bits: a date of birth after `today` gives a wrapped value.
pub open spec fn age_between(today: CalendarDate, dob: CalendarDate) -> int {
    let years = today.year - dob.year - if before_birthday(today, dob) {
        1int
    } else {
        0int
    };
    years % 0x1_0000_0000
}

/// The age in completed years on `today` of someone born on `dob`.
pub fn age_on(today: CalendarDate, dob: CalendarDate) -> (age: u32)
    ensures
        age == age_between(today, dob),
        dob.year <= today.year && !before_birthday(today, dob) ==> age == today.year - dob.year,
        dob.year < today.year && before_birthday(today, dob) ==> age == today.year - dob.year - 1,
{
    let mut years: i64 = today.year as i64 - dob.year as i64;
    if today.month < dob.month || (today.month == dob.month && today.day < dob.day) {
        years = years - 1;
    }
    let ghost exact = years as int;
    if years < 0 {
        years = years + 0x1_0000_0000;
    }
    if years < 0 {
        years = years + 0x1_0000_0000;
    }
    if years >= 0x1_0000_0000 {
        years = years - 0x1_0000_0000;
    }
    assert(0 <= years < 0x1_0000_0000);
    assert(years as int == exact % 0x1_0000_0000);
    years as u32
}

/// Whether `outcome` is an age that a date of birth can have: the age on
/// some calendar date of the parsed date of birth, or `InvalidDob` where
/// the text is no date.
pub open spec fn is_age_of(outcome: Result<u32, MemberError>, dob: Seq<char>) -> bool {
    match parsed_ymd(dob) {
        Some((year, month, day)) => outcome is Ok && exists|today: CalendarDate, born: CalendarDate|
            {
                &&& today.in_calendar()
                &&& (born.year as int, born.month as int, born.day as int) == (year, month, day)
                &&& outcome->Ok_0 == #[trigger] age_between(today, born)
            },
        None => outcome == Err::<u32, MemberError>(MemberError::InvalidDob),
    }
}

/// The age today, in UTC, of someone whose date of birth is written as
/// `YYYY-MM-DD`. Fails with `InvalidDob` exactly when the text is no such
/// date.
pub fn calculate_age(dob: &str) -> (outcome: Result<u32, MemberError>)
    ensures
        is_age_of(outcome, dob@),
{
    match parse_ymd(dob) {
        Some(born) => {
            let today = utc_date(system_now());
            let age = age_on(today, born);
            assert(age == age_between(today, born));
            Ok(age)
        },
        None => Err(MemberError::InvalidDob),
    }
}

/// Whether `local` is the meter's record of the reported member `api`:
/// same code and gender, an age its date of birth can have, not active.
pub open spec fn records(local: LocalMember, api: ApiMember) -> bool {
    &&& local.id == api.member_code
    &&& local.gender == api.gender
    &&& !local.active
    &&& is_age_of(Ok(local.age), api.dob@)
}

/// Turns the reported members into the meter's records, in order, each
/// inactive and with today's age. Fails with `InvalidDob` exactly when a
/// date of birth is no `YYYY-MM-DD` date.
pub fn local_members(api: &Vec<ApiMember>) -> (outcome: Result<Vec<LocalMember>, MemberError>)
    ensures
        match outcome {
            Ok(list) => list.len() == api.len() && forall|i: int|
                0 <= i < api.len() ==> records(#[trigger] list[i], api[i]),
            Err(fault) => fault == MemberError::InvalidDob && exists|i: int|
                0 <= i < api.len() && parsed_ymd(#[trigger] api[i].dob@) is None,
        },
        (forall|i: int| 0 <= i < api.len() ==> parsed_ymd(#[trigger] api[i].dob@) is Some)
            ==> outcome is Ok,
{
    let mut list: Vec<LocalMember> = Vec::new();
    let mut i: usize = 0;
    while i < api.len()
        invariant
            i <= api.len(),
            list.len() == i,
            forall|j: int| 0 <= j < i ==> records(#[trigger] list[j], api[j]),
        decreases api.len() - i,
    {
        let age = match calculate_age(api[i].dob.as_str()) {
            Ok(age) => age,
            Err(_) => {
                return Err(MemberError::InvalidDob);
            },
        };
        list.push(
            LocalMember {
                id: api[i].member_code.clone(),
                age,
                gender: api[i].gender.clone(),
                active: false,
            },
        );
        i += 1;
    }
    Ok(list)
}

/// Whether no member of the list has the id.
pub open spec fn absent(members: Seq<LocalMember>, id: Seq<char>) -> bool {
    forall|j: int| 0 <= j < members.len() ==> (#[trigger] members[j]).id@ != id
}

/// Whether `after` is `before` with the member at `k` switched between
/// active and inactive and nothing else changed.
pub open spec fn toggled_at(before: Seq<LocalMember>, after: Seq<LocalMember>, k: int) -> bool {
    &&& 0 <= k < before.len()
    &&& after.len() == before.len()
    &&& after[k].id == before[k].id
    &&& after[k].age == before[k].age
    &&& after[k].gender == before[k].gender
    &&& after[k].active == !before[k].active
    &&& forall|j: int| 0 <= j < before.len() && j != k ==> #[trigger] after[j] == before[j]
}

/// Switches the first member with the given id between active and
/// inactive and reports its position. Fails with `NotFound`, leaving the
/// list as it was, exactly when no member has the id.
pub fn toggle_member(members: &mut Vec<LocalMember>, member_id: &String) -> (outcome: Result<
    usize,
    MemberError,
>)
    ensures
        match outcome {
            Ok(k) => {
                &&& toggled_at(old(members)@, final(members)@, k as int)
                &&& old(members)@[k as int].id@ == member_id@
                &&& absent(old(members)@.take(k as int), member_id@)
            },
            Err(fault) => fault == MemberError::NotFound && absent(old(members)@, member_id@)
                && final(members)@ == old(members)@,
        },
{
    let mut i: usize = 0;
    while i < members.len()
        invariant
            i <= members.len(),
            members@ == old(members)@,
            absent(members@.take(i as int), member_id@),
        decreases members.len() - i,
    {
        if members[i].id == *member_id {
            let switched = LocalMember {
                id: members[i].id.clone(),
                age: members[i].age,
                gender: members[i].gender.clone(),
                active: !members[i].active,
            };
            members.set(i, switched);
            return Ok(i);
        }
        proof {
            let upto = members@.take(i + 1);
            assert forall|j: int| 0 <= j < upto.len() implies (#[trigger] upto[j]).id@
                != member_id@ by {
                if j < i {
                    assert(members@.take(i as int)[j] == upto[j]);
                }
            }
        }
        i += 1;
    }
    proof {
        assert(members@.take(i as int) =~= members@);
    }
    Err(MemberError::NotFound)
}

/// The message that reports the member list: the serialized list on the
/// meter's data topic, delivered at least once.
pub fn members_message(payload: String) -> (message: MqttMessage)
    ensures
        message.topic@ == "indi-touch-meter/data"@,
        message.payload == payload,
        message.qos == 1,
{
    MqttMessage { topic: String::from_str("indi-touch-meter/data"), payload, qos: 1 }
}

} // verus!
