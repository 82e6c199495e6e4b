//! The domain records that decoding produces, and its errors.
use vstd::prelude::*;

verus! {

/// An upstream identifier: a 64-bit integer, never a display string.
#[derive(Clone, Copy, Debug, PartialEq, Eq, Structural, Hash, PartialOrd, Ord)]
pub struct LolesportsId(pub u64);

/// A calendar date with no time of day and no time zone.
#[derive(Clone, Copy, Debug, PartialEq, Eq, Structural, Hash, PartialOrd, Ord)]
pub struct CalendarDate {
    pub year: i32,
    pub month: u32,
    pub day: u32,
}

pub open spec fn is_leap_year(y: int) -> bool {
    (y % 4 == 0 && y % 100 != 0) || y % 400 == 0
}

pub open spec fn days_in_month(y: int, m: int) -> int {
    if m == 2 {
        if is_leap_year(y) { 29 } else { 28 }
    } else if m == 4 || m == 6 || m == 9 || m == 11 {
        30
    } else {
        31
    }
}

/// Whether year, month and day name a day of the proleptic Gregorian calendar.
pub open spec fn valid_date(y: int, m: int, d: int) -> bool {
    1 <= m <= 12 && 1 <= d <= days_in_month(y, m)
}

impl CalendarDate {
    pub open spec fn wf(self) -> bool {
        valid_date(self.year as int, self.month as int, self.day as int)
    }

    /// The date of that year, month and day, if there is one.
    pub fn from_ymd(year: i32, month: u32, day: u32) -> (r: Option<CalendarDate>)
        ensures
            r == (if valid_date(year as int, month as int, day as int) {
                Some(CalendarDate { year, month, day })
            } else {
                None::<CalendarDate>
            }),
    {
        if month < 1 || month > 12 || day < 1 {
            return None;
        }
        let leap = (year % 4 == 0 && year % 100 != 0) || year % 400 == 0;
        let last: u32 = if month == 2 {
            if leap { 29 } else { 28 }
        } else if month == 4 || month == 6 || month == 9 || month == 11 {
            30
        } else {
            31
        };
        if day > last {
            None
        } else {
            Some(CalendarDate { year, month, day })
        }
    }
}

/// What chrono reads from `s` as a `YYYY-MM-DD` date: year, month and day.
pub uninterp spec fn iso_date_of(s: Seq<char>) -> Option<(i32, u32, u32)>;

/// Relies on chrono::NaiveDate::parse_from_str with the format "%Y-%m-%d",
/// and on NaiveDate holding only real calendar days.
#[verifier::external_body]
pub(crate) fn parse_iso_date(s: &str) -> (r: Option<(i32, u32, u32)>)
    ensures
        r == iso_date_of(s@),
        r matches Some(d) ==> valid_date(d.0 as int, d.1 as int, d.2 as int),
{
    chrono::NaiveDate::parse_from_str(s, "%Y-%m-%d").ok().map(
        |d| (chrono::Datelike::year(&d), chrono::Datelike::month(&d), chrono::Datelike::day(&d)),
    )
}

/// A league.
#[derive(Clone, Debug, PartialEq, Eq)]
pub struct League {
    pub id: LolesportsId,
    pub slug: String,
    pub name: String,
    pub region: String,
    pub image: String,
}

/// The home league as a team record embeds it.
#[derive(Clone, Debug, PartialEq, Eq)]
pub struct HomeLeague {
    pub name: String,
    pub region: String,
}

/// A player of a team.
#[derive(Clone, Debug, PartialEq, Eq)]
pub struct Player {
    pub id: LolesportsId,
    pub summoner_name: String,
    pub first_name: String,
    pub last_name: String,
    pub image: Option<String>,
    pub role: String,
}

/// A team with its players, in upstream order.
#[derive(Clone, Debug, PartialEq, Eq)]
pub struct Team {
    pub id: LolesportsId,
    pub slug: String,
    pub name: String,
    pub code: String,
    pub image: String,
    pub alternative_image: Option<String>,
    pub background_image: Option<String>,
    pub status: String,
    pub home_league: Option<HomeLeague>,
    pub players: Vec<Player>,
}

/// A team as contracts speak of it: its player list as a sequence.
pub struct TeamView {
    pub id: LolesportsId,
    pub slug: String,
    pub name: String,
    pub code: String,
    pub image: String,
    pub alternative_image: Option<String>,
    pub background_image: Option<String>,
    pub status: String,
    pub home_league: Option<HomeLeague>,
    pub players: Seq<Player>,
}

impl View for Team {
    type V = TeamView;

    open spec fn view(&self) -> TeamView {
        TeamView {
            id: self.id,
            slug: self.slug,
            name: self.name,
            code: self.code,
            image: self.image,
            alternative_image: self.alternative_image,
            background_image: self.background_image,
            status: self.status,
            home_league: self.home_league,
            players: self.players@,
        }
    }
}

/// A tournament of a league.
#[derive(Clone, Debug, PartialEq, Eq)]
pub struct Tournament {
    pub id: LolesportsId,
    pub slug: String,
    pub start_date: CalendarDate,
    pub end_date: CalendarDate,
}

/// A member of an upstream document, by the role it plays.
#[derive(Clone, Copy, Debug, PartialEq, Eq, Structural)]
pub enum Field {
    Data,
    Leagues,
    Teams,
    Tournaments,
    Players,
    Id,
    Slug,
    Name,
    Region,
    Image,
    Code,
    AlternativeImage,
    BackgroundImage,
    Status,
    HomeLeague,
    SummonerName,
    FirstName,
    LastName,
    Role,
    StartDate,
    EndDate,
}

impl Field {
    /// The member's key in upstream documents.
    pub open spec fn key_spec(self) -> Seq<char> {
        match self {
            Field::Data => "data"@,
            Field::Leagues => "leagues"@,
            Field::Teams => "teams"@,
            Field::Tournaments => "tournaments"@,
            Field::Players => "players"@,
            Field::Id => "id"@,
            Field::Slug => "slug"@,
            Field::Name => "name"@,
            Field::Region => "region"@,
            Field::Image => "image"@,
            Field::Code => "code"@,
            Field::AlternativeImage => "alternativeImage"@,
            Field::BackgroundImage => "backgroundImage"@,
            Field::Status => "status"@,
            Field::HomeLeague => "homeLeague"@,
            Field::SummonerName => "summonerName"@,
            Field::FirstName => "firstName"@,
            Field::LastName => "lastName"@,
            Field::Role => "role"@,
            Field::StartDate => "startDate"@,
            Field::EndDate => "endDate"@,
        }
    }

    /// The member's key in upstream documents.
    pub fn key(self) -> (r: &'static str)
        ensures
            r@ == self.key_spec(),
    {
        match self {
            Field::Data => "data",
            Field::Leagues => "leagues",
            Field::Teams => "teams",
            Field::Tournaments => "tournaments",
            Field::Players => "players",
            Field::Id => "id",
            Field::Slug => "slug",
            Field::Name => "name",
            Field::Region => "region",
            Field::Image => "image",
            Field::Code => "code",
            Field::AlternativeImage => "alternativeImage",
            Field::BackgroundImage => "backgroundImage",
            Field::Status => "status",
            Field::HomeLeague => "homeLeague",
            Field::SummonerName => "summonerName",
            Field::FirstName => "firstName",
            Field::LastName => "lastName",
            Field::Role => "role",
            Field::StartDate => "startDate",
            Field::EndDate => "endDate",
        }
    }
}

/// Why a document did not decode.
#[derive(Debug, PartialEq, Eq)]
pub enum DecodeError {
    /// The record at this position of a list failed, for the inner reason.
    InRecord(usize, Box<DecodeError>),
    /// The document, or an element of a record list, is not a JSON object.
    NotAnObject,
    /// A required member is absent.
    Missing(Field),
    /// A member holds a JSON value of the wrong kind.
    WrongType(Field),
    /// An identifier is not a decimal integer within 64 bits.
    BadId(Field),
    /// A date is not a calendar date in `YYYY-MM-DD` form.
    BadDate(Field),
}

/// The date for what the date parser returned on a member, or the error that
/// names that member.
pub open spec fn date_result(parsed: Option<(i32, u32, u32)>, field: Field) -> Result<CalendarDate, DecodeError> {
    match parsed {
        Some(d) => Ok(CalendarDate { year: d.0, month: d.1, day: d.2 }),
        None => Err(DecodeError::BadDate(field)),
    }
}

/// Turns what the date parser returned on `field` into a date, or into the
/// error that names `field`.
pub fn date_from_parsed(parsed: Option<(i32, u32, u32)>, field: Field) -> (r: Result<CalendarDate, DecodeError>)
    ensures
        r == date_result(parsed, field),
{
    match parsed {
        Some(d) => Ok(CalendarDate { year: d.0, month: d.1, day: d.2 }),
        None => Err(DecodeError::BadDate(field)),
    }
}

/// Reads a `YYYY-MM-DD` date held by `field`.
pub fn parse_date(s: &str, field: Field) -> (r: Result<CalendarDate, DecodeError>)
    ensures
        r == date_result(iso_date_of(s@), field),
        r matches Ok(d) ==> d.wf(),
{
    date_from_parsed(parse_iso_date(s), field)
}

} // verus!
