//! Decoding of upstream JSON documents into domain records: first the
//! envelope (`data`, then the list), then each record.
use vstd::prelude::*;
use crate::json::{Json, member, find_member, is_decimal, decimal_value, parse_decimal_u64};
use crate::model::{
    CalendarDate, DecodeError, TeamView, Field, HomeLeague, League, LolesportsId, Player, Team, Tournament,
    date_result, iso_date_of, parse_date,
};

verus! {

/// The exact value of a decimal identifier, if it fits in 64 bits.
pub open spec fn id_value(s: Seq<char>) -> Option<u64> {
    if is_decimal(s) && decimal_value(s) <= u64::MAX {
        Some(decimal_value(s) as u64)
    } else {
        None
    }
}

/// The identifier that `field` of an object holds, as a JSON integer or as a
/// string of digits.
pub open spec fn id_member(fields: Seq<(String, Json)>, field: Field) -> Result<LolesportsId, DecodeError> {
    match member(fields, field.key_spec()) {
        None => Err(DecodeError::Missing(field)),
        Some(Json::UInt(n)) => Ok(LolesportsId(n)),
        Some(Json::Str(s)) => match id_value(s@) {
            Some(n) => Ok(LolesportsId(n)),
            None => Err(DecodeError::BadId(field)),
        },
        Some(_) => Err(DecodeError::WrongType(field)),
    }
}

/// The string that required member `field` holds.
pub open spec fn text_member(fields: Seq<(String, Json)>, field: Field) -> Result<String, DecodeError> {
    match member(fields, field.key_spec()) {
        None => Err(DecodeError::Missing(field)),
        Some(Json::Str(s)) => Ok(s),
        Some(_) => Err(DecodeError::WrongType(field)),
    }
}

/// The string that optional member `field` holds; absent or `null` is `None`.
pub open spec fn optional_text_member(fields: Seq<(String, Json)>, field: Field) -> Result<Option<String>, DecodeError> {
    match member(fields, field.key_spec()) {
        None => Ok(None),
        Some(Json::Null) => Ok(None),
        Some(Json::Str(s)) => Ok(Some(s)),
        Some(_) => Err(DecodeError::WrongType(field)),
    }
}

/// The date that member `field` holds as a `YYYY-MM-DD` string.
pub open spec fn date_member(fields: Seq<(String, Json)>, field: Field) -> Result<CalendarDate, DecodeError> {
    match member(fields, field.key_spec()) {
        None => Err(DecodeError::Missing(field)),
        Some(Json::Str(s)) => date_result(iso_date_of(s@), field),
        Some(_) => Err(DecodeError::WrongType(field)),
    }
}

/// The elements of the array that member `field` holds.
pub open spec fn array_member(fields: Seq<(String, Json)>, field: Field) -> Result<Seq<Json>, DecodeError> {
    match member(fields, field.key_spec()) {
        None => Err(DecodeError::Missing(field)),
        Some(Json::Array(v)) => Ok(v@),
        Some(_) => Err(DecodeError::WrongType(field)),
    }
}

/// Decodes the first `n` items with `f`, in order, stopping at the first
/// error, which is then wrapped with the position of the failing item.
pub open spec fn decode_each<T>(f: spec_fn(Json) -> Result<T, DecodeError>, items: Seq<Json>, n: int) -> Result<Seq<T>, DecodeError>
    decreases n,
{
    if n <= 0 {
        Ok(Seq::empty())
    } else {
        match decode_each(f, items, n - 1) {
            Err(e) => Err(e),
            Ok(done) => match f(items[n - 1]) {
                Ok(x) => Ok(done.push(x)),
                Err(e) => Err(DecodeError::InRecord((n - 1) as usize, Box::new(e))),
            },
        }
    }
}

/// Decodes all items with `f`.
pub open spec fn decode_all<T>(f: spec_fn(Json) -> Result<T, DecodeError>, items: Seq<Json>) -> Result<Seq<T>, DecodeError> {
    decode_each(f, items, items.len() as int)
}

proof fn lemma_error_stays<T>(f: spec_fn(Json) -> Result<T, DecodeError>, items: Seq<Json>, n: int, m: int)
    requires
        0 <= n <= m,
        decode_each(f, items, n) is Err,
    ensures
        decode_each(f, items, m) == decode_each(f, items, n),
    decreases m - n,
{
    if n < m {
        lemma_error_stays(f, items, n, m - 1);
    }
}

/// A league record.
pub open spec fn league_of(j: Json) -> Result<League, DecodeError> {
    match j {
        Json::Object(fields) => {
            let fs = fields@;
            let id = id_member(fs, Field::Id);
            let slug = text_member(fs, Field::Slug);
            let name = text_member(fs, Field::Name);
            let region = text_member(fs, Field::Region);
            let image = text_member(fs, Field::Image);
            if let Err(e) = id {
                Err(e)
            } else if let Err(e) = slug {
                Err(e)
            } else if let Err(e) = name {
                Err(e)
            } else if let Err(e) = region {
                Err(e)
            } else if let Err(e) = image {
                Err(e)
            } else {
                Ok(League {
                    id: id->Ok_0,
                    slug: slug->Ok_0,
                    name: name->Ok_0,
                    region: region->Ok_0,
                    image: image->Ok_0,
                })
            }
        },
        _ => Err(DecodeError::NotAnObject),
    }
}

/// `league_of` as a function value, for list decoding.
pub open spec fn league_decoder() -> spec_fn(Json) -> Result<League, DecodeError> {
    |j: Json| league_of(j)
}

/// The envelope of a response: the elements of the array under `list`
/// inside the top-level `data` object.
pub open spec fn envelope_list(doc: Json, list: Field) -> Result<Seq<Json>, DecodeError> {
    match doc {
        Json::Object(top) => match member(top@, Field::Data.key_spec()) {
            None => Err(DecodeError::Missing(Field::Data)),
            Some(Json::Object(data)) => array_member(data@, list),
            Some(_) => Err(DecodeError::WrongType(Field::Data)),
        },
        _ => Err(DecodeError::NotAnObject),
    }
}

/// The leagues of a leagues response.
pub open spec fn leagues_of(doc: Json) -> Result<Seq<League>, DecodeError> {
    match envelope_list(doc, Field::Leagues) {
        Err(e) => Err(e),
        Ok(items) => decode_all(league_decoder(), items),
    }
}

fn read_id(fields: &Vec<(String, Json)>, field: Field) -> (r: Result<LolesportsId, DecodeError>)
    ensures
        r == id_member(fields@, field),
{
    match find_member(fields, field.key()) {
        None => Err(DecodeError::Missing(field)),
        Some(Json::UInt(n)) => Ok(LolesportsId(*n)),
        Some(Json::Str(s)) => match parse_decimal_u64(s.as_str()) {
            Some(n) => Ok(LolesportsId(n)),
            None => Err(DecodeError::BadId(field)),
        },
        Some(_) => Err(DecodeError::WrongType(field)),
    }
}

fn read_text(fields: &Vec<(String, Json)>, field: Field) -> (r: Result<String, DecodeError>)
    ensures
        r == text_member(fields@, field),
{
    match find_member(fields, field.key()) {
        None => Err(DecodeError::Missing(field)),
        Some(Json::Str(s)) => Ok(s.clone()),
        Some(_) => Err(DecodeError::WrongType(field)),
    }
}

fn read_optional_text(fields: &Vec<(String, Json)>, field: Field) -> (r: Result<Option<String>, DecodeError>)
    ensures
        r == optional_text_member(fields@, field),
{
    match find_member(fields, field.key()) {
        None => Ok(None),
        Some(Json::Null) => Ok(None),
        Some(Json::Str(s)) => Ok(Some(s.clone())),
        Some(_) => Err(DecodeError::WrongType(field)),
    }
}

fn read_date(fields: &Vec<(String, Json)>, field: Field) -> (r: Result<CalendarDate, DecodeError>)
    ensures
        r == date_member(fields@, field),
        r matches Ok(d) ==> d.wf(),
{
    match find_member(fields, field.key()) {
        None => Err(DecodeError::Missing(field)),
        Some(Json::Str(s)) => parse_date(s.as_str(), field),
        Some(_) => Err(DecodeError::WrongType(field)),
    }
}

fn read_array<'a>(fields: &'a Vec<(String, Json)>, field: Field) -> (r: Result<&'a Vec<Json>, DecodeError>)
    ensures
        match r {
            Ok(v) => array_member(fields@, field) == Ok::<Seq<Json>, DecodeError>(v@),
            Err(e) => array_member(fields@, field) == Err::<Seq<Json>, DecodeError>(e),
        },
{
    match find_member(fields, field.key()) {
        None => Err(DecodeError::Missing(field)),
        Some(Json::Array(v)) => Ok(v),
        Some(_) => Err(DecodeError::WrongType(field)),
    }
}

/// Decodes one league record.
pub fn decode_league(j: &Json) -> (r: Result<League, DecodeError>)
    ensures
        r == league_of(*j),
{
    let fields = match j {
        Json::Object(fields) => fields,
        _ => return Err(DecodeError::NotAnObject),
    };
    let id = match read_id(fields, Field::Id) {
        Ok(x) => x,
        Err(e) => return Err(e),
    };
    let slug = match read_text(fields, Field::Slug) {
        Ok(x) => x,
        Err(e) => return Err(e),
    };
    let name = match read_text(fields, Field::Name) {
        Ok(x) => x,
        Err(e) => return Err(e),
    };
    let region = match read_text(fields, Field::Region) {
        Ok(x) => x,
        Err(e) => return Err(e),
    };
    let image = match read_text(fields, Field::Image) {
        Ok(x) => x,
        Err(e) => return Err(e),
    };
    Ok(League { id, slug, name, region, image })
}

/// Unwraps the envelope of a response: the array under `list` inside the
/// top-level `data` object.
pub fn unwrap_envelope(doc: &Json, list: Field) -> (r: Result<&Vec<Json>, DecodeError>)
    ensures
        match r {
            Ok(v) => envelope_list(*doc, list) == Ok::<Seq<Json>, DecodeError>(v@),
            Err(e) => envelope_list(*doc, list) == Err::<Seq<Json>, DecodeError>(e),
        },
{
    let top = match doc {
        Json::Object(top) => top,
        _ => return Err(DecodeError::NotAnObject),
    };
    match find_member(top, Field::Data.key()) {
        None => Err(DecodeError::Missing(Field::Data)),
        Some(Json::Object(data)) => read_array(data, list),
        Some(_) => Err(DecodeError::WrongType(Field::Data)),
    }
}

/// Decodes a list of league records, in order.
pub fn decode_league_list(items: &Vec<Json>) -> (r: Result<Vec<League>, DecodeError>)
    ensures
        match r {
            Ok(v) => decode_all(league_decoder(), items@) == Ok::<Seq<League>, DecodeError>(v@),
            Err(e) => decode_all(league_decoder(), items@) == Err::<Seq<League>, DecodeError>(e),
        },
{
    let mut out: Vec<League> = Vec::new();
    let mut i: usize = 0;
    while i < items.len()
        invariant
            i <= items.len(),
            decode_each(league_decoder(), items@, i as int) == Ok::<Seq<League>, DecodeError>(out@),
        decreases items.len() - i,
    {
        match decode_league(&items[i]) {
            Ok(x) => out.push(x),
            Err(e) => {
                proof {
                    lemma_error_stays(league_decoder(), items@, i + 1, items.len() as int);
                }
                return Err(DecodeError::InRecord(i, Box::new(e)));
            },
        }
        i = i + 1;
    }
    Ok(out)
}

/// Decodes a leagues response: every league under `data.leagues`, in order.
pub fn decode_leagues(doc: &Json) -> (r: Result<Vec<League>, DecodeError>)
    ensures
        match r {
            Ok(v) => leagues_of(*doc) == Ok::<Seq<League>, DecodeError>(v@),
            Err(e) => leagues_of(*doc) == Err::<Seq<League>, DecodeError>(e),
        },
{
    match unwrap_envelope(doc, Field::Leagues) {
        Ok(items) => decode_league_list(items),
        Err(e) => Err(e),
    }
}

/// A player record.
pub open spec fn player_of(j: Json) -> Result<Player, DecodeError> {
    match j {
        Json::Object(fields) => {
            let fs = fields@;
            let id = id_member(fs, Field::Id);
            let summoner_name = text_member(fs, Field::SummonerName);
            let first_name = text_member(fs, Field::FirstName);
            let last_name = text_member(fs, Field::LastName);
            let image = optional_text_member(fs, Field::Image);
            let role = text_member(fs, Field::Role);
            if let Err(e) = id {
                Err(e)
            } else if let Err(e) = summoner_name {
                Err(e)
            } else if let Err(e) = first_name {
                Err(e)
            } else if let Err(e) = last_name {
                Err(e)
            } else if let Err(e) = image {
                Err(e)
            } else if let Err(e) = role {
                Err(e)
            } else {
                Ok(Player {
                    id: id->Ok_0,
                    summoner_name: summoner_name->Ok_0,
                    first_name: first_name->Ok_0,
                    last_name: last_name->Ok_0,
                    image: image->Ok_0,
                    role: role->Ok_0,
                })
            }
        },
        _ => Err(DecodeError::NotAnObject),
    }
}

/// `player_of` as a function value, for list decoding.
pub open spec fn player_decoder() -> spec_fn(Json) -> Result<Player, DecodeError> {
    |j: Json| player_of(j)
}

/// The home league embedded in a team: absent or `null` is `None`.
pub open spec fn home_league_member(fields: Seq<(String, Json)>) -> Result<Option<HomeLeague>, DecodeError> {
    match member(fields, Field::HomeLeague.key_spec()) {
        None => Ok(None),
        Some(Json::Null) => Ok(None),
        Some(Json::Object(h)) => {
            let name = text_member(h@, Field::Name);
            let region = text_member(h@, Field::Region);
            if let Err(e) = name {
                Err(e)
            } else if let Err(e) = region {
                Err(e)
            } else {
                Ok(Some(HomeLeague { name: name->Ok_0, region: region->Ok_0 }))
            }
        },
        Some(_) => Err(DecodeError::WrongType(Field::HomeLeague)),
    }
}

/// The players of a team, in order.
pub open spec fn players_member(fields: Seq<(String, Json)>) -> Result<Seq<Player>, DecodeError> {
    match array_member(fields, Field::Players) {
        Err(e) => Err(e),
        Ok(items) => decode_all(player_decoder(), items),
    }
}

/// A team record, with its players.
pub open spec fn team_of(j: Json) -> Result<TeamView, DecodeError> {
    match j {
        Json::Object(fields) => {
            let fs = fields@;
            let id = id_member(fs, Field::Id);
            let slug = text_member(fs, Field::Slug);
            let name = text_member(fs, Field::Name);
            let code = text_member(fs, Field::Code);
            let image = text_member(fs, Field::Image);
            let alternative_image = optional_text_member(fs, Field::AlternativeImage);
            let background_image = optional_text_member(fs, Field::BackgroundImage);
            let status = text_member(fs, Field::Status);
            let home_league = home_league_member(fs);
            let decoded = players_member(fs);
            if let Err(e) = id {
                Err(e)
            } else if let Err(e) = slug {
                Err(e)
            } else if let Err(e) = name {
                Err(e)
            } else if let Err(e) = code {
                Err(e)
            } else if let Err(e) = image {
                Err(e)
            } else if let Err(e) = alternative_image {
                Err(e)
            } else if let Err(e) = background_image {
                Err(e)
            } else if let Err(e) = status {
                Err(e)
            } else if let Err(e) = home_league {
                Err(e)
            } else if let Err(e) = decoded {
                Err(e)
            } else {
                Ok(TeamView {
                    id: id->Ok_0,
                    slug: slug->Ok_0,
                    name: name->Ok_0,
                    code: code->Ok_0,
                    image: image->Ok_0,
                    alternative_image: alternative_image->Ok_0,
                    background_image: background_image->Ok_0,
                    status: status->Ok_0,
                    home_league: home_league->Ok_0,
                    players: decoded->Ok_0,
                })
            }
        },
        _ => Err(DecodeError::NotAnObject),
    }
}

/// `team_of` as a function value, for list decoding.
pub open spec fn team_decoder() -> spec_fn(Json) -> Result<TeamView, DecodeError> {
    |j: Json| team_of(j)
}

/// The teams of a teams response, under `data.teams`.
pub open spec fn teams_of(doc: Json) -> Result<Seq<TeamView>, DecodeError> {
    match envelope_list(doc, Field::Teams) {
        Err(e) => Err(e),
        Ok(items) => decode_all(team_decoder(), items),
    }
}

/// The views of a list of teams.
pub open spec fn team_views(teams: Seq<Team>) -> Seq<TeamView> {
    teams.map_values(|t: Team| t@)
}

/// Decodes one player record.
pub fn decode_player(j: &Json) -> (r: Result<Player, DecodeError>)
    ensures
        r == player_of(*j),
{
    let fields = match j {
        Json::Object(fields) => fields,
        _ => return Err(DecodeError::NotAnObject),
    };
    let id = match read_id(fields, Field::Id) {
        Ok(x) => x,
        Err(e) => return Err(e),
    };
    let summoner_name = match read_text(fields, Field::SummonerName) {
        Ok(x) => x,
        Err(e) => return Err(e),
    };
    let first_name = match read_text(fields, Field::FirstName) {
        Ok(x) => x,
        Err(e) => return Err(e),
    };
    let last_name = match read_text(fields, Field::LastName) {
        Ok(x) => x,
        Err(e) => return Err(e),
    };
    let image = match read_optional_text(fields, Field::Image) {
        Ok(x) => x,
        Err(e) => return Err(e),
    };
    let role = match read_text(fields, Field::Role) {
        Ok(x) => x,
        Err(e) => return Err(e),
    };
    Ok(Player { id, summoner_name, first_name, last_name, image, role })
}

/// Decodes a list of player records, in order.
pub fn decode_player_list(items: &Vec<Json>) -> (r: Result<Vec<Player>, DecodeError>)
    ensures
        match r {
            Ok(v) => decode_all(player_decoder(), items@) == Ok::<Seq<Player>, DecodeError>(v@),
            Err(e) => decode_all(player_decoder(), items@) == Err::<Seq<Player>, DecodeError>(e),
        },
{
    let mut out: Vec<Player> = Vec::new();
    let mut i: usize = 0;
    while i < items.len()
        invariant
            i <= items.len(),
            decode_each(player_decoder(), items@, i as int) == Ok::<Seq<Player>, DecodeError>(out@),
        decreases items.len() - i,
    {
        match decode_player(&items[i]) {
            Ok(x) => out.push(x),
            Err(e) => {
                proof {
                    lemma_error_stays(player_decoder(), items@, i + 1, items.len() as int);
                }
                return Err(DecodeError::InRecord(i, Box::new(e)));
            },
        }
        i = i + 1;
    }
    Ok(out)
}

fn read_home_league(fields: &Vec<(String, Json)>) -> (r: Result<Option<HomeLeague>, DecodeError>)
    ensures
        r == home_league_member(fields@),
{
    match find_member(fields, Field::HomeLeague.key()) {
        None => Ok(None),
        Some(Json::Null) => Ok(None),
        Some(Json::Object(h)) => {
            let name = match read_text(h, Field::Name) {
                Ok(x) => x,
                Err(e) => return Err(e),
            };
            let region = match read_text(h, Field::Region) {
                Ok(x) => x,
                Err(e) => return Err(e),
            };
            Ok(Some(HomeLeague { name, region }))
        },
        Some(_) => Err(DecodeError::WrongType(Field::HomeLeague)),
    }
}

/// Decodes one team record with its players.
pub fn decode_team(j: &Json) -> (r: Result<Team, DecodeError>)
    ensures
        match r {
            Ok(t) => team_of(*j) == Ok::<TeamView, DecodeError>(t@),
            Err(e) => team_of(*j) == Err::<TeamView, DecodeError>(e),
        },
{
    let fields = match j {
        Json::Object(fields) => fields,
        _ => return Err(DecodeError::NotAnObject),
    };
    let id = match read_id(fields, Field::Id) {
        Ok(x) => x,
        Err(e) => return Err(e),
    };
    let slug = match read_text(fields, Field::Slug) {
        Ok(x) => x,
        Err(e) => return Err(e),
    };
    let name = match read_text(fields, Field::Name) {
        Ok(x) => x,
        Err(e) => return Err(e),
    };
    let code = match read_text(fields, Field::Code) {
        Ok(x) => x,
        Err(e) => return Err(e),
    };
    let image = match read_text(fields, Field::Image) {
        Ok(x) => x,
        Err(e) => return Err(e),
    };
    let alternative_image = match read_optional_text(fields, Field::AlternativeImage) {
        Ok(x) => x,
        Err(e) => return Err(e),
    };
    let background_image = match read_optional_text(fields, Field::BackgroundImage) {
        Ok(x) => x,
        Err(e) => return Err(e),
    };
    let status = match read_text(fields, Field::Status) {
        Ok(x) => x,
        Err(e) => return Err(e),
    };
    let home_league = match read_home_league(fields) {
        Ok(x) => x,
        Err(e) => return Err(e),
    };
    let players = match read_array(fields, Field::Players) {
        Ok(items) => match decode_player_list(items) {
            Ok(x) => x,
            Err(e) => return Err(e),
        },
        Err(e) => return Err(e),
    };
    Ok(
        Team {
            id,
            slug,
            name,
            code,
            image,
            alternative_image,
            background_image,
            status,
            home_league,
            players,
        },
    )
}

/// Decodes a list of team records, in order.
pub fn decode_team_list(items: &Vec<Json>) -> (r: Result<Vec<Team>, DecodeError>)
    ensures
        match r {
            Ok(v) => decode_all(team_decoder(), items@) == Ok::<Seq<TeamView>, DecodeError>(team_views(v@)),
            Err(e) => decode_all(team_decoder(), items@) == Err::<Seq<TeamView>, DecodeError>(e),
        },
{
    let mut out: Vec<Team> = Vec::new();
    let mut i: usize = 0;
    assert(team_views(out@) =~= Seq::<TeamView>::empty());
    while i < items.len()
        invariant
            i <= items.len(),
            decode_each(team_decoder(), items@, i as int) == Ok::<Seq<TeamView>, DecodeError>(team_views(out@)),
        decreases items.len() - i,
    {
        match decode_team(&items[i]) {
            Ok(x) => {
                let ghost before = out@;
                out.push(x);
                assert(team_views(out@) =~= team_views(before).push(x@));
            },
            Err(e) => {
                proof {
                    lemma_error_stays(team_decoder(), items@, i + 1, items.len() as int);
                }
                return Err(DecodeError::InRecord(i, Box::new(e)));
            },
        }
        i = i + 1;
    }
    Ok(out)
}

/// Decodes a teams response: every team under `data.teams`, in order.
pub fn decode_teams(doc: &Json) -> (r: Result<Vec<Team>, DecodeError>)
    ensures
        match r {
            Ok(v) => teams_of(*doc) == Ok::<Seq<TeamView>, DecodeError>(team_views(v@)),
            Err(e) => teams_of(*doc) == Err::<Seq<TeamView>, DecodeError>(e),
        },
{
    match unwrap_envelope(doc, Field::Teams) {
        Ok(items) => decode_team_list(items),
        Err(e) => Err(e),
    }
}

/// A tournament record.
pub open spec fn tournament_of(j: Json) -> Result<Tournament, DecodeError> {
    match j {
        Json::Object(fields) => {
            let fs = fields@;
            let id = id_member(fs, Field::Id);
            let slug = text_member(fs, Field::Slug);
            let start_date = date_member(fs, Field::StartDate);
            let end_date = date_member(fs, Field::EndDate);
            if let Err(e) = id {
                Err(e)
            } else if let Err(e) = slug {
                Err(e)
            } else if let Err(e) = start_date {
                Err(e)
            } else if let Err(e) = end_date {
                Err(e)
            } else {
                Ok(Tournament {
                    id: id->Ok_0,
                    slug: slug->Ok_0,
                    start_date: start_date->Ok_0,
                    end_date: end_date->Ok_0,
                })
            }
        },
        _ => Err(DecodeError::NotAnObject),
    }
}

/// `tournament_of` as a function value, for list decoding.
pub open spec fn tournament_decoder() -> spec_fn(Json) -> Result<Tournament, DecodeError> {
    |j: Json| tournament_of(j)
}

/// The tournaments of one league entry of a tournaments response.
pub open spec fn entry_tournaments(entry: Json) -> Result<Seq<Tournament>, DecodeError> {
    match entry {
        Json::Object(fields) => match array_member(fields@, Field::Tournaments) {
            Err(e) => Err(e),
            Ok(items) => decode_all(tournament_decoder(), items),
        },
        _ => Err(DecodeError::NotAnObject),
    }
}

/// The tournaments of the first `n` league entries, one entry after another;
/// an error is wrapped with the position of the failing entry.
pub open spec fn tournaments_each(entries: Seq<Json>, n: int) -> Result<Seq<Tournament>, DecodeError>
    decreases n,
{
    if n <= 0 {
        Ok(Seq::empty())
    } else {
        match tournaments_each(entries, n - 1) {
            Err(e) => Err(e),
            Ok(done) => match entry_tournaments(entries[n - 1]) {
                Ok(more) => Ok(done + more),
                Err(e) => Err(DecodeError::InRecord((n - 1) as usize, Box::new(e))),
            },
        }
    }
}

/// The tournaments of a tournaments response: those of every entry under
/// `data.leagues`, in order.
pub open spec fn tournaments_of(doc: Json) -> Result<Seq<Tournament>, DecodeError> {
    match envelope_list(doc, Field::Leagues) {
        Err(e) => Err(e),
        Ok(entries) => tournaments_each(entries, entries.len() as int),
    }
}

proof fn lemma_tournament_error_stays(entries: Seq<Json>, n: int, m: int)
    requires
        0 <= n <= m,
        tournaments_each(entries, n) is Err,
    ensures
        tournaments_each(entries, m) == tournaments_each(entries, n),
    decreases m - n,
{
    if n < m {
        lemma_tournament_error_stays(entries, n, m - 1);
    }
}

/// Decodes one tournament record.
pub fn decode_tournament(j: &Json) -> (r: Result<Tournament, DecodeError>)
    ensures
        r == tournament_of(*j),
        r matches Ok(t) ==> t.start_date.wf() && t.end_date.wf(),
{
    let fields = match j {
        Json::Object(fields) => fields,
        _ => return Err(DecodeError::NotAnObject),
    };
    let id = match read_id(fields, Field::Id) {
        Ok(x) => x,
        Err(e) => return Err(e),
    };
    let slug = match read_text(fields, Field::Slug) {
        Ok(x) => x,
        Err(e) => return Err(e),
    };
    let start_date = match read_date(fields, Field::StartDate) {
        Ok(x) => x,
        Err(e) => return Err(e),
    };
    let end_date = match read_date(fields, Field::EndDate) {
        Ok(x) => x,
        Err(e) => return Err(e),
    };
    Ok(Tournament { id, slug, start_date, end_date })
}

/// Decodes a list of tournament records, in order.
pub fn decode_tournament_list(items: &Vec<Json>) -> (r: Result<Vec<Tournament>, DecodeError>)
    ensures
        match r {
            Ok(v) => decode_all(tournament_decoder(), items@) == Ok::<Seq<Tournament>, DecodeError>(v@),
            Err(e) => decode_all(tournament_decoder(), items@) == Err::<Seq<Tournament>, DecodeError>(e),
        },
{
    let mut out: Vec<Tournament> = Vec::new();
    let mut i: usize = 0;
    while i < items.len()
        invariant
            i <= items.len(),
            decode_each(tournament_decoder(), items@, i as int) == Ok::<Seq<Tournament>, DecodeError>(out@),
        decreases items.len() - i,
    {
        match decode_tournament(&items[i]) {
            Ok(x) => out.push(x),
            Err(e) => {
                proof {
                    lemma_error_stays(tournament_decoder(), items@, i + 1, items.len() as int);
                }
                return Err(DecodeError::InRecord(i, Box::new(e)));
            },
        }
        i = i + 1;
    }
    Ok(out)
}

/// Decodes a tournaments response: the tournaments of every entry under
/// `data.leagues`, entry after entry, each in order.
pub fn decode_tournaments(doc: &Json) -> (r: Result<Vec<Tournament>, DecodeError>)
    ensures
        match r {
            Ok(v) => tournaments_of(*doc) == Ok::<Seq<Tournament>, DecodeError>(v@),
            Err(e) => tournaments_of(*doc) == Err::<Seq<Tournament>, DecodeError>(e),
        },
{
    let entries = match unwrap_envelope(doc, Field::Leagues) {
        Ok(entries) => entries,
        Err(e) => return Err(e),
    };
    let mut out: Vec<Tournament> = Vec::new();
    let mut i: usize = 0;
    while i < entries.len()
        invariant
            i <= entries.len(),
            envelope_list(*doc, Field::Leagues) == Ok::<Seq<Json>, DecodeError>(entries@),
            tournaments_each(entries@, i as int) == Ok::<Seq<Tournament>, DecodeError>(out@),
        decreases entries.len() - i,
    {
        let decoded = match &entries[i] {
            Json::Object(fields) => match read_array(fields, Field::Tournaments) {
                Ok(items) => decode_tournament_list(items),
                Err(e) => Err(e),
            },
            _ => Err(DecodeError::NotAnObject),
        };
        assert(decoded matches Ok(v) ==> entry_tournaments(entries@[i as int]) == Ok::<Seq<Tournament>, DecodeError>(v@));
        match decoded {
            Ok(mut more) => out.append(&mut more),
            Err(e) => {
                proof {
                    lemma_tournament_error_stays(entries@, i + 1, entries.len() as int);
                }
                return Err(DecodeError::InRecord(i, Box::new(e)));
            },
        }
        i = i + 1;
    }
    Ok(out)
}

/// Two decodings of the same leagues response give equal records, or the
/// same error.
pub proof fn leagues_decode_the_same_twice(
    doc: Json,
    first: Result<Vec<League>, DecodeError>,
    second: Result<Vec<League>, DecodeError>,
)
    requires
        match first {
            Ok(v) => leagues_of(doc) == Ok::<Seq<League>, DecodeError>(v@),
            Err(e) => leagues_of(doc) == Err::<Seq<League>, DecodeError>(e),
        },
        match second {
            Ok(v) => leagues_of(doc) == Ok::<Seq<League>, DecodeError>(v@),
            Err(e) => leagues_of(doc) == Err::<Seq<League>, DecodeError>(e),
        },
    ensures
        match (first, second) {
            (Ok(a), Ok(b)) => a@ == b@,
            (Err(a), Err(b)) => a == b,
            _ => false,
        },
{
}

/// Two decodings of the same teams response give equal teams, with equal
/// player lists, or the same error.
pub proof fn teams_decode_the_same_twice(
    doc: Json,
    first: Result<Vec<Team>, DecodeError>,
    second: Result<Vec<Team>, DecodeError>,
)
    requires
        match first {
            Ok(v) => teams_of(doc) == Ok::<Seq<TeamView>, DecodeError>(team_views(v@)),
            Err(e) => teams_of(doc) == Err::<Seq<TeamView>, DecodeError>(e),
        },
        match second {
            Ok(v) => teams_of(doc) == Ok::<Seq<TeamView>, DecodeError>(team_views(v@)),
            Err(e) => teams_of(doc) == Err::<Seq<TeamView>, DecodeError>(e),
        },
    ensures
        match (first, second) {
            (Ok(a), Ok(b)) => team_views(a@) == team_views(b@),
            (Err(a), Err(b)) => a == b,
            _ => false,
        },
{
}

/// Two decodings of the same tournaments response give equal records, or
/// the same error.
pub proof fn tournaments_decode_the_same_twice(
    doc: Json,
    first: Result<Vec<Tournament>, DecodeError>,
    second: Result<Vec<Tournament>, DecodeError>,
)
    requires
        match first {
            Ok(v) => tournaments_of(doc) == Ok::<Seq<Tournament>, DecodeError>(v@),
            Err(e) => tournaments_of(doc) == Err::<Seq<Tournament>, DecodeError>(e),
        },
        match second {
            Ok(v) => tournaments_of(doc) == Ok::<Seq<Tournament>, DecodeError>(v@),
            Err(e) => tournaments_of(doc) == Err::<Seq<Tournament>, DecodeError>(e),
        },
    ensures
        match (first, second) {
            (Ok(a), Ok(b)) => a@ == b@,
            (Err(a), Err(b)) => a == b,
            _ => false,
        },
{
}

/// An optional member that is absent, or `null`, decodes to `None`; one
/// that holds a string, the empty string too, decodes to `Some` of it.
pub proof fn absent_differs_from_empty(fields: Seq<(String, Json)>, field: Field)
    ensures
        member(fields, field.key_spec()) is None ==> optional_text_member(fields, field)
            == Ok::<Option<String>, DecodeError>(None),
        member(fields, field.key_spec()) matches Some(Json::Str(s)) ==> optional_text_member(fields, field)
            == Ok::<Option<String>, DecodeError>(Some(s)),
{
}

/// A team that decodes, and has no `alternativeImage`, `backgroundImage` or
/// `homeLeague` member, has no alternative image, background image or home
/// league; a player with no `image` member has no image.
pub proof fn absent_members_decode_to_none(team: Vec<(String, Json)>, player: Vec<(String, Json)>)
    ensures
        team_of(Json::Object(team)) matches Ok(t) ==> {
            &&& (member(team@, "alternativeImage"@) is None ==> t.alternative_image is None)
            &&& (member(team@, "backgroundImage"@) is None ==> t.background_image is None)
            &&& (member(team@, "homeLeague"@) is None ==> t.home_league is None)
        },
        player_of(Json::Object(player)) matches Ok(p) ==> (
            member(player@, "image"@) is None ==> p.image is None),
{
}

/// An identifier written as a string of digits decodes to exactly the
/// integer that the digits denote, whenever that integer fits in 64 bits.
pub proof fn digit_identifiers_are_exact(fields: Seq<(String, Json)>, field: Field, digits: String)
    requires
        member(fields, field.key_spec()) == Some(Json::Str(digits)),
        is_decimal(digits@),
        decimal_value(digits@) <= u64::MAX,
    ensures
        id_member(fields, field) matches Ok(id) && id.0 == decimal_value(digits@),
{
}

/// An identifier written as a JSON integer decodes to that integer.
pub proof fn integer_identifiers_are_exact(fields: Seq<(String, Json)>, field: Field, n: u64)
    requires
        member(fields, field.key_spec()) == Some(Json::UInt(n)),
    ensures
        id_member(fields, field) == Ok::<LolesportsId, DecodeError>(LolesportsId(n)),
{
}

} // verus!
