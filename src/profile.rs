//! The user profile record, its birthday fields, and the confirmation shown
//! when a birthday is recorded.

use vstd::prelude::*;
use crate::text::{decimal, decimal_string, push_decimal, push_str};

verus! {

/// A calendar birthday as the user entered it.
#[derive(Clone, Copy, Debug, PartialEq, Eq, Structural)]
pub struct LegalBirthday {
    pub month: u8,
    pub day: u8,
    pub year: Option<u32>,
}

impl LegalBirthday {
    /// A birthday with exactly the given fields.
    pub fn new(month: u8, day: u8, year: Option<u32>) -> (r: Self)
        ensures
            r.month == month,
            r.day == day,
            r.year == year,
    {
        LegalBirthday { month, day, year }
    }
}

/// A secondary, non-calendar anniversary, with the same shape as a birthday.
#[derive(Clone, Copy, Debug, PartialEq, Eq, Structural)]
pub struct SpiritualBirthday {
    pub month: u8,
    pub day: u8,
    pub year: Option<u32>,
}

impl SpiritualBirthday {
    /// An anniversary with exactly the given fields.
    pub fn new(month: u8, day: u8, year: Option<u32>) -> (r: Self)
        ensures
            r.month == month,
            r.day == day,
            r.year == year,
    {
        SpiritualBirthday { month, day, year }
    }
}

/// What is kept about one user. `user_id` is the platform's identifier and
/// never changes once the record exists.
#[derive(Clone, Debug)]
pub struct UserData {
    pub name: String,
    pub user_id: u64,
    pub age: Option<u8>,
    pub legal_birthday: Option<LegalBirthday>,
    pub spiritual_birthday: Option<SpiritualBirthday>,
}

impl UserData {
    /// A fresh record with only the name and the identifier filled in.
    pub fn new(name: String, user_id: u64) -> (r: Self)
        ensures
            r.name@ == name@,
            r.user_id == user_id,
            r.age is None,
            r.legal_birthday is None,
            r.spiritual_birthday is None,
    {
        UserData { name, user_id, age: None, legal_birthday: None, spiritual_birthday: None }
    }

    /// Replaces the display name; nothing else changes.
    pub fn update_name(&mut self, name: String)
        ensures
            final(self).name@ == name@,
            final(self).user_id == old(self).user_id,
            final(self).age == old(self).age,
            final(self).legal_birthday == old(self).legal_birthday,
            final(self).spiritual_birthday == old(self).spiritual_birthday,
    {
        self.name = name;
    }

    /// Sets the age; nothing else changes.
    pub fn update_age(&mut self, age: u8)
        ensures
            final(self).name@ == old(self).name@,
            final(self).user_id == old(self).user_id,
            final(self).age == Some(age),
            final(self).legal_birthday == old(self).legal_birthday,
            final(self).spiritual_birthday == old(self).spiritual_birthday,
    {
        self.age = Some(age);
    }

    /// Sets the birthday; nothing else changes.
    pub fn update_legal_birthday(&mut self, legal_birthday: LegalBirthday)
        ensures
            final(self).name@ == old(self).name@,
            final(self).user_id == old(self).user_id,
            final(self).age == old(self).age,
            final(self).legal_birthday == Some(legal_birthday),
            final(self).spiritual_birthday == old(self).spiritual_birthday,
    {
        self.legal_birthday = Some(legal_birthday);
    }

    /// Sets the spiritual birthday; nothing else changes.
    pub fn update_spiritual_birthday(&mut self, spiritual_birthday: SpiritualBirthday)
        ensures
            final(self).name@ == old(self).name@,
            final(self).user_id == old(self).user_id,
            final(self).age == old(self).age,
            final(self).legal_birthday == old(self).legal_birthday,
            final(self).spiritual_birthday == Some(spiritual_birthday),
    {
        self.spiritual_birthday = Some(spiritual_birthday);
    }
}

/// `m/d` or `m/d/y` in decimal.
pub open spec fn date_text(month: u8, day: u8, year: Option<u32>) -> Seq<char> {
    let md = decimal(month as nat) + seq!['/'] + decimal(day as nat);
    match year {
        Some(y) => md + seq!['/'] + decimal(y as nat),
        None => md,
    }
}

/// The opening of the confirmation, up to where the date starts.
pub open spec fn confirmation_prefix(name: Seq<char>) -> Seq<char> {
    "Hey "@ + name + "! Your birthday is saved as "@
}

/// The reply sent once a birthday has been recorded.
pub open spec fn confirmation_text(name: Seq<char>, b: LegalBirthday) -> Seq<char> {
    confirmation_prefix(name) + date_text(b.month, b.day, b.year) + seq!['!']
}

/// Builds the reply that confirms a recorded birthday.
pub fn birthday_confirmation(name: &str, b: &LegalBirthday) -> (r: String)
    ensures
        r@ == confirmation_text(name@, *b),
{
    let mut s = String::new();
    push_str(&mut s, "Hey ");
    push_str(&mut s, name);
    push_str(&mut s, "! Your birthday is saved as ");
    push_decimal(&mut s, b.month as u64);
    push_str(&mut s, "/");
    push_decimal(&mut s, b.day as u64);
    if let Some(y) = b.year {
        push_str(&mut s, "/");
        push_decimal(&mut s, y as u64);
    }
    push_str(&mut s, "!");
    proof {
        reveal_strlit("Hey ");
        reveal_strlit("! Your birthday is saved as ");
        reveal_strlit("/");
        reveal_strlit("!");
    }
    assert(s@ =~= confirmation_text(name@, *b));
    s
}

/// Why a birthday was not recorded.
#[derive(Clone, Copy, Debug, PartialEq, Eq, Structural)]
pub enum BirthdayError {
    /// The month is not in 1 to 12.
    MonthOutOfRange,
    /// The day is not in 1 to 31.
    DayOutOfRange,
}

/// A month and day inside the ranges that the command accepts.
pub open spec fn valid_date(month: u8, day: u8) -> bool {
    1 <= month <= 12 && 1 <= day <= 31
}

/// The birthday recorded from a month, a day and a year.
pub open spec fn entered_birthday(month: u8, day: u8, year: u32) -> LegalBirthday {
    LegalBirthday { month, day, year: Some(year) }
}

/// Records a birthday for a user: a fresh profile that holds it, and the
/// confirmation reply. The month must lie in 1 to 12 and the day in 1 to 31.
pub fn record_legal_birthday(name: String, user_id: u64, month: u8, day: u8, year: u32) -> (r:
    Result<(UserData, String), BirthdayError>)
    ensures
        !(1 <= month <= 12) ==> r == Err::<(UserData, String), _>(BirthdayError::MonthOutOfRange),
        1 <= month <= 12 && !(1 <= day <= 31) ==> r == Err::<(UserData, String), _>(
            BirthdayError::DayOutOfRange,
        ),
        valid_date(month, day) ==> (r matches Ok((u, reply)) && u.name@ == name@ && u.user_id
            == user_id && u.age is None && u.spiritual_birthday is None && u.legal_birthday
            == Some(entered_birthday(month, day, year)) && reply@ == confirmation_text(
            name@,
            entered_birthday(month, day, year),
        )),
{
    if month < 1 || month > 12 {
        return Err(BirthdayError::MonthOutOfRange);
    }
    if day < 1 || day > 31 {
        return Err(BirthdayError::DayOutOfRange);
    }
    let birthday = LegalBirthday::new(month, day, Some(year));
    let reply = birthday_confirmation(name.as_str(), &birthday);
    let mut user_data = UserData::new(name, user_id);
    user_data.update_legal_birthday(birthday);
    Ok((user_data, reply))
}

/// The confirmation of a recorded birthday shows the month, the day and,
/// where one was given, the year exactly as entered, in that order and each
/// in decimal, right after the greeting.
pub proof fn lemma_confirmation_shows_date(name: Seq<char>, b: LegalBirthday)
    ensures
        ({
            let t = confirmation_text(name, b);
            let k: int = confirmation_prefix(name).len() as int;
            let m = decimal(b.month as nat);
            let d = decimal(b.day as nat);
            &&& t.subrange(k, k + m.len()) == m
            &&& t[k + m.len()] == '/'
            &&& t.subrange(k + m.len() + 1, k + m.len() + 1 + d.len()) == d
            &&& match b.year {
                Some(y) => {
                    let j: int = k + m.len() + 1 + d.len();
                    &&& t[j] == '/'
                    &&& t.subrange(j + 1, j + 1 + decimal(y as nat).len()) == decimal(y as nat)
                    &&& t.len() == j + 1 + decimal(y as nat).len() + 1
                },
                None => t.len() == k + m.len() + 1 + d.len() + 1,
            }
        }),
{
    let t = confirmation_text(name, b);
    let k: int = confirmation_prefix(name).len() as int;
    let m = decimal(b.month as nat);
    let d = decimal(b.day as nat);
    assert(t.subrange(k, k + m.len()) =~= m);
    assert(t.subrange(k + m.len() + 1, k + m.len() + 1 + d.len()) =~= d);
    if let Some(y) = b.year {
        let j: int = k + m.len() + 1 + d.len();
        assert(t.subrange(j + 1, j + 1 + decimal(y as nat).len()) =~= decimal(y as nat));
    }
}

/// The key under which a user's profile is stored: the user's identifier in
/// decimal.
pub fn profile_key(user_id: u64) -> (r: String)
    ensures
        r@ == decimal(user_id as nat),
{
    decimal_string(user_id)
}

/// A lower-case hexadecimal digit.
pub open spec fn hex_digit(n: nat) -> char
    recommends
        n < 16,
{
    seq!['0', '1', '2', '3', '4', '5', '6', '7', '8', '9', 'a', 'b', 'c', 'd', 'e', 'f'][n as int]
}

/// How one character is written inside a JSON string: the quote, the
/// backslash and the control characters below 0x20 are escaped, the short
/// forms used where JSON has one; every other character stands as itself.
pub open spec fn json_escape(c: char) -> Seq<char> {
    if c == '"' {
        seq!['\\', '"']
    } else if c == '\\' {
        seq!['\\', '\\']
    } else if c == '\u{8}' {
        seq!['\\', 'b']
    } else if c == '\t' {
        seq!['\\', 't']
    } else if c == '\n' {
        seq!['\\', 'n']
    } else if c == '\u{c}' {
        seq!['\\', 'f']
    } else if c == '\r' {
        seq!['\\', 'r']
    } else if (c as u32) < 0x20 {
        seq!['\\', 'u', '0', '0', hex_digit((c as u32) as nat / 16), hex_digit((c as u32) as nat % 16)]
    } else {
        seq![c]
    }
}

/// Every character of `s` escaped, in order.
pub open spec fn json_escaped(s: Seq<char>) -> Seq<char>
    decreases s.len(),
{
    if s.len() == 0 {
        Seq::empty()
    } else {
        json_escaped(s.drop_last()) + json_escape(s.last())
    }
}

/// The JSON text of a string value: its escaped characters between quotes.
pub open spec fn json_quoted(s: Seq<char>) -> Seq<char> {
    seq!['"'] + json_escaped(s) + seq!['"']
}

/// Relies on `serde_json::to_string` on a `str`, which writes the string's
/// escaped characters between quotes into memory and cannot fail.
#[verifier::external_body]
fn quote_json(s: &str) -> (r: String)
    ensures
        r@ == json_quoted(s@),
{
    serde_json::to_string(s).unwrap_or_default()
}

/// A JSON number, or `null` when absent.
pub open spec fn json_opt(o: Option<nat>) -> Seq<char> {
    match o {
        Some(n) => decimal(n),
        None => "null"@,
    }
}

/// `{"month":m,"day":d,"year":y}`.
pub open spec fn date_json(month: u8, day: u8, year: Option<u32>) -> Seq<char> {
    "{\"month\":"@ + decimal(month as nat) + ",\"day\":"@ + decimal(day as nat) + ",\"year\":"@
        + json_opt(
        match year {
            Some(y) => Some(y as nat),
            None => None,
        },
    ) + "}"@
}

pub open spec fn legal_json(b: Option<LegalBirthday>) -> Seq<char> {
    match b {
        Some(b) => date_json(b.month, b.day, b.year),
        None => "null"@,
    }
}

pub open spec fn spiritual_json(b: Option<SpiritualBirthday>) -> Seq<char> {
    match b {
        Some(b) => date_json(b.month, b.day, b.year),
        None => "null"@,
    }
}

/// The stored form of a profile, given its name already written as a JSON
/// string. The identifier is written as a JSON string of its decimal digits.
pub open spec fn profile_json_text(u: UserData, quoted_name: Seq<char>) -> Seq<char> {
    "{\"name\":"@ + quoted_name + ",\"user_id\":\""@ + decimal(u.user_id as nat) + "\",\"age\":"@
        + json_opt(
        match u.age {
            Some(a) => Some(a as nat),
            None => None,
        },
    ) + ",\"legal_birthday\":"@ + legal_json(u.legal_birthday) + ",\"spiritual_birthday\":"@
        + spiritual_json(u.spiritual_birthday) + "}"@
}

fn push_json_opt(s: &mut String, o: Option<u64>)
    ensures
        final(s)@ == old(s)@ + json_opt(
            match o {
                Some(n) => Some(n as nat),
                None => None,
            },
        ),
{
    match o {
        Some(n) => push_decimal(s, n),
        None => {
            push_str(s, "null");
            proof {
                reveal_strlit("null");
            }
        },
    }
}

fn push_date_json(s: &mut String, month: u8, day: u8, year: Option<u32>)
    ensures
        final(s)@ == old(s)@ + date_json(month, day, year),
{
    push_str(s, "{\"month\":");
    push_decimal(s, month as u64);
    push_str(s, ",\"day\":");
    push_decimal(s, day as u64);
    push_str(s, ",\"year\":");
    let y: Option<u64> = match year {
        Some(y) => Some(y as u64),
        None => None,
    };
    push_json_opt(s, y);
    push_str(s, "}");
    proof {
        reveal_strlit("{\"month\":");
        reveal_strlit(",\"day\":");
        reveal_strlit(",\"year\":");
        reveal_strlit("}");
    }
    assert(final(s)@ =~= old(s)@ + date_json(month, day, year));
}

/// The stored form of a profile, from its name already written as a JSON
/// string.
pub fn profile_json(u: &UserData, quoted_name: &str) -> (r: String)
    ensures
        r@ == profile_json_text(*u, quoted_name@),
{
    let mut s = String::new();
    push_str(&mut s, "{\"name\":");
    push_str(&mut s, quoted_name);
    push_str(&mut s, ",\"user_id\":\"");
    push_decimal(&mut s, u.user_id);
    push_str(&mut s, "\",\"age\":");
    let a: Option<u64> = match u.age {
        Some(a) => Some(a as u64),
        None => None,
    };
    push_json_opt(&mut s, a);
    push_str(&mut s, ",\"legal_birthday\":");
    match u.legal_birthday {
        Some(b) => push_date_json(&mut s, b.month, b.day, b.year),
        None => push_str(&mut s, "null"),
    }
    push_str(&mut s, ",\"spiritual_birthday\":");
    match u.spiritual_birthday {
        Some(b) => push_date_json(&mut s, b.month, b.day, b.year),
        None => push_str(&mut s, "null"),
    }
    push_str(&mut s, "}");
    proof {
        reveal_strlit("{\"name\":");
        reveal_strlit(",\"user_id\":\"");
        reveal_strlit("\",\"age\":");
        reveal_strlit(",\"legal_birthday\":");
        reveal_strlit(",\"spiritual_birthday\":");
        reveal_strlit("null");
        reveal_strlit("}");
    }
    assert(s@ =~= profile_json_text(*u, quoted_name@));
    s
}

/// The stored form of a profile, as JSON.
pub fn encode_profile(u: &UserData) -> (r: String)
    ensures
        r@ == profile_json_text(*u, json_quoted(u.name@)),
{
    let q = quote_json(u.name.as_str());
    profile_json(u, q.as_str())
}

/// The key and the stored form of a profile: the user's identifier in
/// decimal, and the record as JSON.
pub fn profile_record(u: &UserData) -> (r: (String, String))
    ensures
        r.0@ == decimal(u.user_id as nat),
        r.1@ == profile_json_text(*u, json_quoted(u.name@)),
{
    (profile_key(u.user_id), encode_profile(u))
}

} // verus!
