use mlb::classify::PlayerKind;
use mlb::client::MlbClient;
use mlb::errors::StatsError;
use mlb::player::{decode, Batter, Pitcher, Player, PlayerStats};
use mlb::stats::{
    get_int, get_rate, get_text, parse_rate, rate_render, split_team_sections, FieldValue,
    Rate, RawField, StatSection,
};

fn int_field(name: &str, v: u64) -> RawField {
    RawField { name: String::from(name), value: FieldValue::Int(v) }
}

fn text_field(name: &str, v: &str) -> RawField {
    RawField { name: String::from(name), value: FieldValue::Text(String::from(v)) }
}

fn batter_payload() -> Vec<RawField> {
    vec![
        int_field("gamesPlayed", 97),
        int_field("plateAppearances", 291),
        int_field("atBats", 261),
        int_field("runs", 26),
        int_field("hits", 57),
        int_field("doubles", 11),
        int_field("triples", 0),
        int_field("homeRuns", 11),
        int_field("rbi", 22),
        int_field("stolenBases", 0),
        int_field("caughtStealing", 1),
        int_field("baseOnBalls", 25),
        int_field("hitByPitch", 2),
        int_field("strikeOuts", 101),
        text_field("avg", ".215"),
        text_field("babip", ".311"),
        text_field("obp", ".296"),
        text_field("slg", ".364"),
        text_field("ops", ".660"),
    ]
}

fn pitcher_payload() -> Vec<RawField> {
    vec![
        int_field("wins", 15),
        int_field("losses", 9),
        int_field("gamesPitched", 32),
        int_field("gamesStarted", 32),
        int_field("gamesFinished", 0),
        int_field("completeGames", 0),
        int_field("shutouts", 0),
        int_field("holds", 0),
        int_field("saves", 0),
        int_field("hits", 174),
        int_field("runs", 73),
        int_field("earnedRuns", 65),
        int_field("homeRuns", 11),
        int_field("baseOnBalls", 49),
        int_field("strikeOuts", 163),
        int_field("hitByPitch", 5),
        text_field("era", "2.90"),
        text_field("inningsPitched", "192.1"),
        text_field("whip", "1.16"),
        text_field("hitsPer9Inn", "8.14"),
        text_field("homeRunsPer9", "0.51"),
        text_field("walksPer9Inn", "2.29"),
        text_field("strikeoutsPer9Inn", "7.63"),
        text_field("strikeoutWalkRatio", "3.33"),
    ]
}

#[test]
fn rates_parse_exactly() {
    assert_eq!(parse_rate(".301"), Some(Rate::Value { mantissa: 301, scale: 3 }));
    assert_eq!(parse_rate("3.25"), Some(Rate::Value { mantissa: 325, scale: 2 }));
    assert_eq!(parse_rate("180.1"), Some(Rate::Value { mantissa: 1801, scale: 1 }));
    assert_eq!(parse_rate("12"), Some(Rate::Value { mantissa: 12, scale: 0 }));
    assert_eq!(parse_rate("0.000"), Some(Rate::Value { mantissa: 0, scale: 3 }));
}

#[test]
fn the_undefined_placeholder_is_a_state_of_its_own() {
    assert_eq!(parse_rate(".---"), Some(Rate::Undefined));
    assert_eq!(rate_render(&Rate::Undefined), ".---");
}

#[test]
fn malformed_rates_do_not_parse() {
    assert_eq!(parse_rate(""), None);
    assert_eq!(parse_rate("."), None);
    assert_eq!(parse_rate("-1.2"), None);
    assert_eq!(parse_rate("1.2.3"), None);
    assert_eq!(parse_rate("1e5"), None);
    assert_eq!(parse_rate("abc"), None);
    assert_eq!(parse_rate(".--"), None);
}

#[test]
fn rates_render_with_the_point_restored() {
    assert_eq!(rate_render(&Rate::Value { mantissa: 301, scale: 3 }), "0.301");
    assert_eq!(rate_render(&Rate::Value { mantissa: 325, scale: 2 }), "3.25");
    assert_eq!(rate_render(&Rate::Value { mantissa: 12, scale: 0 }), "12");
    assert_eq!(rate_render(&Rate::Value { mantissa: 7, scale: 3 }), "0.007");
    assert_eq!(rate_render(&Rate::Value { mantissa: 0, scale: 2 }), "0.00");
}

#[test]
fn field_lookup_takes_the_first_occurrence() {
    let fields = vec![
        int_field("runs", 3),
        int_field("runs", 9),
        text_field("avg", ".300"),
    ];
    assert_eq!(get_int(&fields, "runs"), Ok(3));
    assert_eq!(get_rate(&fields, "avg"), Ok(Rate::Value { mantissa: 300, scale: 3 }));
    assert_eq!(get_text(&fields, "avg").unwrap(), ".300");
    assert_eq!(get_int(&fields, "hits"), Err(StatsError::Decode));
    assert_eq!(get_int(&fields, "avg"), Err(StatsError::Decode));
    assert_eq!(get_rate(&fields, "runs"), Err(StatsError::Decode));
}

#[test]
fn a_full_batter_payload_decodes() {
    let b = Batter::new(&batter_payload()).unwrap();
    assert_eq!(b.games_played, 97);
    assert_eq!(b.strike_outs, 101);
    assert_eq!(b.avg, Rate::Value { mantissa: 215, scale: 3 });
    assert_eq!(b.ops, Rate::Value { mantissa: 660, scale: 3 });
}

#[test]
fn a_full_pitcher_payload_decodes() {
    let p = Pitcher::new(&pitcher_payload()).unwrap();
    assert_eq!(p.wins, 15);
    assert_eq!(p.era, Rate::Value { mantissa: 290, scale: 2 });
    assert_eq!(p.innings_pitched, Rate::Value { mantissa: 1921, scale: 1 });
}

#[test]
fn a_missing_required_field_refuses_the_record() {
    let mut fields = batter_payload();
    fields.retain(|f| f.name != "rbi");
    assert_eq!(Batter::new(&fields), Err(StatsError::Decode));
}

#[test]
fn a_malformed_rate_refuses_the_record() {
    let mut fields = batter_payload();
    fields.retain(|f| f.name != "slg");
    fields.push(text_field("slg", "not-a-number"));
    assert_eq!(Batter::new(&fields), Err(StatsError::Decode));
}

#[test]
fn an_undefined_rate_still_decodes() {
    let mut fields = pitcher_payload();
    fields.retain(|f| f.name != "era");
    fields.push(text_field("era", ".---"));
    let p = Pitcher::new(&fields).unwrap();
    assert_eq!(p.era, Rate::Undefined);
}

#[test]
fn decode_follows_the_classified_variant() {
    match decode(&batter_payload(), PlayerKind::Batter).unwrap() {
        PlayerStats::Batter(b) => assert_eq!(b.hits, 57),
        PlayerStats::Pitcher(_) => panic!("a batter payload decodes as a batter"),
    }
    match decode(&pitcher_payload(), PlayerKind::Pitcher).unwrap() {
        PlayerStats::Pitcher(p) => assert_eq!(p.strike_outs, 163),
        PlayerStats::Batter(_) => panic!("a pitcher payload decodes as a pitcher"),
    }
    assert_eq!(
        decode(&batter_payload(), PlayerKind::Pitcher),
        Err(StatsError::Decode)
    );
}

#[test]
fn statlines_render() {
    let b = Batter::new(&batter_payload()).unwrap();
    assert_eq!(b.statline(), "0.215/0.296/0.364");
    let p = Pitcher::new(&pitcher_payload()).unwrap();
    assert_eq!(p.statline(), "15 W-9 L, 2.90 ERA");
    assert_eq!(
        MlbClient::statline_for(PlayerKind::Batter, &batter_payload()).unwrap(),
        "0.215/0.296/0.364"
    );
    assert_eq!(
        MlbClient::statline_for(PlayerKind::Pitcher, &pitcher_payload()).unwrap(),
        "15 W-9 L, 2.90 ERA"
    );
}

#[test]
fn team_sections_are_found_in_either_order() {
    let hitting = StatSection {
        group: String::from("hitting"),
        team_name: String::from("San Francisco Giants"),
        fields: vec![int_field("runs", 716)],
    };
    let pitching = StatSection {
        group: String::from("pitching"),
        team_name: String::from("San Francisco Giants"),
        fields: vec![int_field("wins", 81)],
    };
    let in_order = vec![hitting, pitching];
    assert_eq!(split_team_sections(&in_order), Ok((0, 1)));
    let reversed = vec![
        StatSection {
            group: String::from("pitching"),
            team_name: String::from("San Francisco Giants"),
            fields: vec![int_field("wins", 81)],
        },
        StatSection {
            group: String::from("hitting"),
            team_name: String::from("San Francisco Giants"),
            fields: vec![int_field("runs", 716)],
        },
    ];
    assert_eq!(split_team_sections(&reversed), Ok((1, 0)));
    let only_hitting = vec![
        StatSection {
            group: String::from("hitting"),
            team_name: String::from("San Francisco Giants"),
            fields: vec![],
        },
    ];
    assert_eq!(split_team_sections(&only_hitting), Err(StatsError::Remote));
}
