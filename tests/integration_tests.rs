use triforce_data_pull::decode::{decode_leagues, decode_teams, decode_tournaments};
use triforce_data_pull::json::Json;
use triforce_data_pull::model::{CalendarDate, DecodeError, Field, League, LolesportsId, Team};
use triforce_data_pull::retry::{AttemptOutcome, FetchAction, FetchSession, RetryPolicy};

fn text(s: &str) -> Json {
    Json::Str(s.to_string())
}

fn object(members: Vec<(&str, Json)>) -> Json {
    Json::Object(members.into_iter().map(|(k, v)| (k.to_string(), v)).collect())
}

fn envelope(list: &str, items: Vec<Json>) -> Json {
    object(vec![("data", object(vec![(list, Json::Array(items))]))])
}

fn league_json(id: &str, slug: &str, name: &str, region: &str, image: &str) -> Json {
    object(vec![
        ("id", text(id)),
        ("slug", text(slug)),
        ("name", text(name)),
        ("region", text(region)),
        ("image", text(image)),
        ("priority", Json::UInt(1)),
    ])
}

fn player_json(id: &str, summoner: &str, first: &str, last: &str, image: Option<&str>, role: &str) -> Json {
    let mut m = vec![
        ("id", text(id)),
        ("summonerName", text(summoner)),
        ("firstName", text(first)),
        ("lastName", text(last)),
        ("role", text(role)),
    ];
    if let Some(i) = image {
        m.push(("image", text(i)));
    }
    object(m)
}

fn filler_team(n: usize, players: usize) -> Json {
    let ps = (0..players)
        .map(|p| player_json(&format!("{}", 200000 + n * 10 + p), "p", "f", "l", None, "top"))
        .collect();
    object(vec![
        ("id", text(&format!("{}", 100000 + n))),
        ("slug", text(&format!("team-{n}"))),
        ("name", text(&format!("Team {n}"))),
        ("code", text(&format!("T{n}"))),
        ("image", text("http://example.org/t.png")),
        ("alternativeImage", Json::Null),
        ("status", text("active")),
        ("homeLeague", Json::Null),
        ("players", Json::Array(ps)),
    ])
}

fn fnatic_json() -> Json {
    let mut players = vec![player_json(
        "100356590519370319",
        "Humanoid",
        " Marek",
        "Br√°zda",
        Some("http://static.lolesports.com/players/1674150706185_humanoid.png"),
        "mid",
    )];
    for p in 0..7 {
        players.push(player_json(&format!("{}", 300 + p), "x", "y", "z", None, "bottom"));
    }
    object(vec![
        ("id", text("98767991866488695")),
        ("slug", text("fnatic")),
        ("name", text("Fnatic")),
        ("code", text("FNC")),
        ("image", text("http://static.lolesports.com/teams/1631819669150_fnc-2021-worlds.png")),
        (
            "alternativeImage",
            text("http://static.lolesports.com/teams/1592591295310_FnaticFNC-03-FullonLight.png"),
        ),
        ("backgroundImage", text("http://static.lolesports.com/teams/1632941274242_FNC.png")),
        ("status", text("active")),
        ("homeLeague", object(vec![("name", text("LEC")), ("region", text("EMEA"))])),
        ("players", Json::Array(players)),
    ])
}

fn tournament_json(id: &str, slug: &str, start: &str, end: &str) -> Json {
    object(vec![
        ("id", text(id)),
        ("slug", text(slug)),
        ("startDate", text(start)),
        ("endDate", text(end)),
    ])
}

#[test]
fn test_fetch_leagues() {
    let mut items: Vec<Json> = (0..44)
        .map(|n| league_json(&format!("{}", 1000 + n), "s", "N", "R", "http://example.org/l.png"))
        .collect();
    items.insert(
        7,
        league_json(
            "98767991325878492",
            "msi",
            "MSI",
            "INTERNATIONAL",
            "http://static.lolesports.com/leagues/1592594634248_MSIDarkBG.png",
        ),
    );
    let doc = envelope("leagues", items);

    let (attempts, action) = FetchSession::replay(RetryPolicy::standard(), &vec![AttemptOutcome::Responded]);
    assert_eq!(attempts, 1);
    assert_eq!(action, FetchAction::Deliver);

    let leagues = decode_leagues(&doc).unwrap();
    assert_eq!(leagues.len(), 45);
    let league = leagues.iter().find(|l| l.id.0 == 98767991325878492);
    assert!(league.is_some());
    let msi = league.unwrap();
    assert_eq!(msi.id.0, 98767991325878492);
    assert_eq!(msi.slug, "msi");
    assert_eq!(msi.name, "MSI");
    assert_eq!(msi.region, "INTERNATIONAL");
    assert_eq!(msi.image, "http://static.lolesports.com/leagues/1592594634248_MSIDarkBG.png");
}

#[test]
fn test_fetch_tournaments() {
    let lec = League {
        id: LolesportsId(9876799130299601),
        slug: "lec".to_string(),
        name: "LEC".to_string(),
        region: "EMEA".to_string(),
        image: "http://static.lolesports.com/leagues/1592516184297_LEC-01-FullonDark.png".to_string(),
    };
    assert_eq!(lec.id.0, 9876799130299601);
    let mut ts: Vec<Json> = (0..25)
        .map(|n| tournament_json(&format!("{}", 5000 + n), "t", "2019-01-01", "2019-04-01"))
        .collect();
    ts.push(tournament_json("107417059262120466", "lec_spring_2022", "2022-01-01", "2022-05-01"));
    let doc = envelope("leagues", vec![object(vec![("tournaments", Json::Array(ts))])]);

    let tournaments = decode_tournaments(&doc).unwrap();
    assert_eq!(tournaments.len(), 26);
    let tournament = tournaments.iter().find(|t| t.id.0 == 107417059262120466);
    assert!(tournament.is_some());
    let lec_spring_2022 = tournament.unwrap();
    assert_eq!(lec_spring_2022.id.0, 107417059262120466);
    assert_eq!(lec_spring_2022.slug, "lec_spring_2022");
    assert_eq!(lec_spring_2022.start_date, CalendarDate::from_ymd(2022, 1, 1).unwrap());
    assert_eq!(lec_spring_2022.end_date, CalendarDate::from_ymd(2022, 5, 1).unwrap());
}

#[test]
fn test_fetch_teams_and_players() {
    let mut items = vec![];
    for n in 0..1176 {
        items.push(filler_team(n, if n < 512 { 6 } else { 5 }));
    }
    items.insert(300, fnatic_json());
    let doc = envelope("teams", items);

    let teams: Vec<Team> = decode_teams(&doc).unwrap();
    let players: usize = teams.iter().map(|t| t.players.len()).sum();
    assert_eq!(teams.len(), 1177);
    assert_eq!(players, 6400);
    let team = teams.iter().find(|t| t.code == "FNC".to_string());
    assert!(team.is_some());

    let fnatic = team.unwrap();
    assert_eq!(fnatic.id.0, 98767991866488695);
    assert_eq!(fnatic.slug, "fnatic");
    assert_eq!(fnatic.name, "Fnatic");
    assert_eq!(fnatic.code, "FNC");
    assert_eq!(fnatic.image, "http://static.lolesports.com/teams/1631819669150_fnc-2021-worlds.png");
    assert_eq!(
        fnatic.alternative_image,
        Some("http://static.lolesports.com/teams/1592591295310_FnaticFNC-03-FullonLight.png".to_string())
    );
    assert_eq!(
        fnatic.background_image,
        Some("http://static.lolesports.com/teams/1632941274242_FNC.png".to_string())
    );
    assert_eq!(fnatic.status, "active");
    assert!(fnatic.home_league.is_some());
    assert_eq!(fnatic.players.len(), 8);

    let home_league = fnatic.home_league.clone().unwrap();
    assert_eq!(home_league.name, "LEC");
    assert_eq!(home_league.region, "EMEA");
    let player = fnatic.players.iter().find(|p| p.id.0 == 100356590519370319);
    assert!(player.is_some());
    let humanoid = player.unwrap();
    assert_eq!(humanoid.id.0, 100356590519370319);
    assert_eq!(humanoid.summoner_name, "Humanoid");
    assert_eq!(humanoid.first_name, " Marek");
    assert_eq!(humanoid.last_name, "Br√°zda");
    assert_eq!(
        humanoid.image,
        Some("http://static.lolesports.com/players/1674150706185_humanoid.png".to_string())
    );
    assert_eq!(humanoid.role, "mid");
}

#[test]
fn malformed_date_names_the_field() {
    let doc = envelope(
        "leagues",
        vec![object(vec![(
            "tournaments",
            Json::Array(vec![
                tournament_json("1", "ok", "2022-01-01", "2022-05-01"),
                tournament_json("2", "bad", "2022-13-45", "2022-05-01"),
            ]),
        )])],
    );
    assert_eq!(
        decode_tournaments(&doc),
        Err(DecodeError::InRecord(0, Box::new(DecodeError::InRecord(1, Box::new(DecodeError::BadDate(Field::StartDate))))))
    );
    let doc = envelope(
        "leagues",
        vec![object(vec![(
            "tournaments",
            Json::Array(vec![tournament_json("2", "bad", "2022-01-01", "first of May")]),
        )])],
    );
    assert_eq!(
        decode_tournaments(&doc),
        Err(DecodeError::InRecord(0, Box::new(DecodeError::InRecord(0, Box::new(DecodeError::BadDate(Field::EndDate))))))
    );
}

#[test]
fn tournaments_of_several_entries_come_in_order() {
    let doc = envelope(
        "leagues",
        vec![
            object(vec![("tournaments", Json::Array(vec![tournament_json("1", "a", "2020-02-29", "2020-03-01")]))]),
            object(vec![("tournaments", Json::Array(vec![]))]),
            object(vec![("tournaments", Json::Array(vec![tournament_json("2", "b", "2021-12-31", "2022-01-01")]))]),
        ],
    );
    let ts = decode_tournaments(&doc).unwrap();
    assert_eq!(ts.len(), 2);
    assert_eq!(ts[0].slug, "a");
    assert_eq!(ts[0].start_date, CalendarDate { year: 2020, month: 2, day: 29 });
    assert_eq!(ts[1].id, LolesportsId(2));
    assert_eq!(ts[1].end_date, CalendarDate { year: 2022, month: 1, day: 1 });
}

#[test]
fn failing_player_is_named_by_its_path() {
    let mut bad = fnatic_json();
    if let Json::Object(members) = &mut bad {
        if let Json::Array(players) = &mut members[9].1 {
            players[2] = object(vec![("id", text("7")), ("summonerName", text("a")), ("firstName", text("b")), ("lastName", text("c"))]);
        }
    }
    let doc = envelope("teams", vec![filler_team(0, 1), bad]);
    assert_eq!(
        decode_teams(&doc),
        Err(DecodeError::InRecord(1, Box::new(DecodeError::InRecord(2, Box::new(DecodeError::Missing(Field::Role))))))
    );
    let doc = envelope("leagues", vec![object(vec![]), object(vec![("tournaments", Json::Null)])]);
    assert_eq!(
        decode_tournaments(&doc),
        Err(DecodeError::InRecord(0, Box::new(DecodeError::Missing(Field::Tournaments))))
    );
}
