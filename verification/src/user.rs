//! The user data model: the in-memory user row, the raw row shape the
//! store works with, the profile and token shapes the identity provider
//! hands back, and the conversions between row shapes.

use vstd::prelude::*;

verus! {

/// A user row, as the core works with it. Timestamps are Unix seconds.
#[derive(Clone, Debug)]
pub struct User {
    pub id: String,
    pub email: String,
    pub name: String,
    pub lastopen_ts: Option<i64>,
    pub photo: String,
    pub verified: bool,
    pub created_at: i64,
    pub updated_at: i64,
    pub admin: bool,
}

/// A user row in the shape the store reads and writes: timestamps as
/// RFC 3339 text, booleans as `0`/`1` integers.
#[derive(Clone, Debug)]
pub struct RawUser {
    pub id: String,
    pub email: String,
    pub name: String,
    pub lastopen_ts: Option<String>,
    pub photo: String,
    pub verified: i64,
    pub created_at: String,
    pub updated_at: String,
    pub admin: i64,
}

/// The ephemeral pair of provider tokens the identity provider returns
/// from the authorization-code exchange. Used once, never stored.
#[derive(Clone, Debug)]
pub struct ProviderTokenResponse {
    pub access_token: String,
    pub id_token: String,
}

/// The user profile the identity provider reports. Untrusted input.
#[derive(Clone, Debug)]
pub struct ProviderProfile {
    pub id: String,
    pub email: String,
    pub verified_email: bool,
    pub name: String,
    pub picture: String,
}

/// A failed call to the identity provider: the HTTP status seen and the
/// message passed through from upstream.
#[derive(Clone, Debug)]
pub struct UpstreamError {
    pub status: u16,
    pub body: String,
}

/// The Unix timestamp that `chrono::DateTime::parse_from_rfc3339` reads
/// out of a text, if the text parses.
pub uninterp spec fn rfc3339_ts(s: Seq<char>) -> Option<i64>;

/// The RFC 3339 rendering chrono gives a Unix timestamp, if the timestamp
/// lies in chrono's representable range.
pub uninterp spec fn rfc3339_of(t: i64) -> Option<Seq<char>>;

/// Relies on `chrono::DateTime::parse_from_rfc3339` and
/// `DateTime::timestamp`: the result depends on the text alone.
#[verifier::external_body]
fn parse_rfc3339(s: &str) -> (r: Option<i64>)
    ensures
        r == rfc3339_ts(s@),
{
    chrono::DateTime::parse_from_rfc3339(s).ok().map(|d| d.timestamp())
}

/// How a formatting result reflects the model `text`: the rendered text
/// when the timestamp is representable, nothing otherwise.
pub open spec fn format_reflects(r: Option<String>, text: Option<Seq<char>>) -> bool {
    match text {
        Option::Some(s) => r matches Some(x) && x@ == s,
        Option::None => r is None,
    }
}

/// The timestamps of the years 0000 through 9999: those whose RFC 3339
/// rendering has a four-digit year. chrono renders years outside this
/// range signed (`+10000-...`), which its strict RFC 3339 parser does
/// not read back.
pub open spec fn four_digit_years(t: i64) -> bool {
    -62167219200 <= t <= 253402300799
}

/// Relies on `chrono::DateTime::from_timestamp` and
/// `DateTime::to_rfc3339`: the text depends on the timestamp alone, and
/// exists exactly for timestamps in chrono's range. The second clause is
/// chrono's round trip: `parse_from_rfc3339` reads a rendered timestamp
/// back to the same instant, as long as the rendered year has four
/// digits — a signed year is rendered but not parsed back.
#[verifier::external_body]
fn format_rfc3339(t: i64) -> (r: Option<String>)
    ensures
        format_reflects(r, rfc3339_of(t)),
        r matches Some(x) ==> (four_digit_years(t) ==> rfc3339_ts(x@) == Option::Some(t)),
{
    chrono::DateTime::<chrono::Utc>::from_timestamp(t, 0).map(|d| d.to_rfc3339())
}

/// A timestamp's stored text parses back to it: true for the four-digit
/// years, where chrono's rendering is also parseable.
pub open spec fn renders_back(t: i64) -> bool {
    four_digit_years(t) ==> (rfc3339_of(t) matches Some(s) ==> rfc3339_ts(s)
        == Option::Some(t))
}

/// The timestamp a stored RFC 3339 text stands for; text that does not
/// parse stands for the epoch, as the store conversion has it.
pub open spec fn ts_or_epoch(s: Seq<char>) -> i64 {
    match rfc3339_ts(s) {
        Option::Some(t) => t,
        Option::None => 0,
    }
}

/// The RFC 3339 text a timestamp is stored as; a timestamp outside
/// chrono's representable range is stored as empty text.
pub open spec fn rfc3339_or_empty(t: i64) -> Seq<char> {
    match rfc3339_of(t) {
        Option::Some(s) => s,
        Option::None => Seq::<char>::empty(),
    }
}

impl From<RawUser> for User {
    /// Reads a raw store row back into a user: timestamps parsed from
    /// RFC 3339 (unparseable text becomes the epoch), flag integers
    /// compared against `1`.
    fn from(value: RawUser) -> (r: User) {
        let lastopen_ts: Option<i64> = match &value.lastopen_ts {
            Some(s) => Some(match parse_rfc3339(s.as_str()) {
                Some(t) => t,
                None => 0,
            }),
            None => None,
        };
        let created_at: i64 = match parse_rfc3339(value.created_at.as_str()) {
            Some(t) => t,
            None => 0,
        };
        let updated_at: i64 = match parse_rfc3339(value.updated_at.as_str()) {
            Some(t) => t,
            None => 0,
        };
        User {
            id: value.id,
            email: value.email,
            name: value.name,
            lastopen_ts,
            photo: value.photo,
            verified: value.verified == 1,
            created_at,
            updated_at,
            admin: value.admin == 1,
        }
    }
}

impl vstd::std_specs::convert::FromSpecImpl<RawUser> for User {
    open spec fn obeys_from_spec() -> bool {
        true
    }

    open spec fn from_spec(v: RawUser) -> User {
        User {
            id: v.id,
            email: v.email,
            name: v.name,
            lastopen_ts: match v.lastopen_ts {
                Option::Some(s) => Option::Some(ts_or_epoch(s@)),
                Option::None => Option::None,
            },
            photo: v.photo,
            verified: v.verified == 1,
            created_at: ts_or_epoch(v.created_at@),
            updated_at: ts_or_epoch(v.updated_at@),
            admin: v.admin == 1,
        }
    }
}

impl User {
    /// Lays the user out as a raw store row: timestamps rendered as
    /// RFC 3339, flags as `0`/`1`.
    pub fn to_raw(self) -> (r: RawUser)
        ensures
            r.id == self.id,
            r.email == self.email,
            r.name == self.name,
            r.photo == self.photo,
            (match self.lastopen_ts {
                Option::Some(t) => r.lastopen_ts matches Some(s) && s@ == rfc3339_or_empty(t),
                Option::None => r.lastopen_ts is None,
            }),
            r.created_at@ == rfc3339_or_empty(self.created_at),
            r.updated_at@ == rfc3339_or_empty(self.updated_at),
            r.verified == (if self.verified { 1 as i64 } else { 0 as i64 }),
            r.admin == (if self.admin { 1 as i64 } else { 0 as i64 }),
            renders_back(self.created_at),
            renders_back(self.updated_at),
            self.lastopen_ts matches Some(t) ==> renders_back(t),
    {
        let lastopen_ts: Option<String> = match self.lastopen_ts {
            Some(t) => Some(match format_rfc3339(t) {
                Some(s) => s,
                None => String::new(),
            }),
            None => None,
        };
        let created_at: String = match format_rfc3339(self.created_at) {
            Some(s) => s,
            None => String::new(),
        };
        let updated_at: String = match format_rfc3339(self.updated_at) {
            Some(s) => s,
            None => String::new(),
        };
        RawUser {
            id: self.id,
            email: self.email,
            name: self.name,
            lastopen_ts,
            photo: self.photo,
            verified: if self.verified { 1 } else { 0 },
            created_at,
            updated_at,
            admin: if self.admin { 1 } else { 0 },
        }
    }
}

/// The store round-trip law: laying a user out as a raw row and reading
/// the row back preserves every field; each timestamp comes back
/// unchanged whenever its rendered year has four digits. Returns the
/// user read back.
pub fn row_round_trip(user: User) -> (r: User)
    ensures
        r.id == user.id,
        r.email == user.email,
        r.name == user.name,
        r.photo == user.photo,
        r.verified == user.verified,
        r.admin == user.admin,
        four_digit_years(user.created_at) && rfc3339_of(user.created_at) is Some
            ==> r.created_at == user.created_at,
        four_digit_years(user.updated_at) && rfc3339_of(user.updated_at) is Some
            ==> r.updated_at == user.updated_at,
        user.lastopen_ts matches Some(t) ==> (four_digit_years(t) && rfc3339_of(t) is Some
            ==> r.lastopen_ts == Option::Some(t)),
        user.lastopen_ts is None ==> r.lastopen_ts is None,
{
    User::from(user.to_raw())
}

/// Records the time of the latest activity on a user row, leaving every
/// other field as it was.
pub fn touch_lastopen(user: &mut User, now: i64)
    ensures
        *final(user) == (User { lastopen_ts: Option::Some(now), ..*old(user) }),
{
    user.lastopen_ts = Some(now);
}

} // verus!
