use mlb::errors::StatsError;
use mlb::io::IOReader;
use mlb::season::{validate, Season};

#[test]
fn read_input_appends_one_line() {
    let input = "2022\nBart\n".as_bytes();
    let mut reader = IOReader { reader: input };
    let mut line = String::new();
    reader.read_input(&mut line);
    assert_eq!(line, "2022\n");
    let mut second = String::new();
    reader.read_input(&mut second);
    assert_eq!(second, "Bart\n");
}

#[test]
fn read_input_at_end_of_input_leaves_the_line() {
    let input = "".as_bytes();
    let mut reader = IOReader { reader: input };
    let mut line = String::new();
    reader.read_input(&mut line);
    assert_eq!(line, "");
}

#[test]
fn a_session_reads_a_season_first_try() {
    let input = "2022\n".as_bytes();
    let mut reader = IOReader { reader: input };
    let mut line = String::new();
    reader.read_input(&mut line);
    assert_eq!(validate(&line, 2024), Ok(Season { year: 2022 }));
}

#[test]
fn a_session_reprompts_until_the_season_validates() {
    // The shell's retry loop: each rejected line is answered by reading the
    // next one, so "1850", "2099", "2010" settles on 2010.
    let input = "1850\n2099\n2010\n".as_bytes();
    let mut reader = IOReader { reader: input };
    let mut season = None;
    for _ in 0..3 {
        let mut line = String::new();
        reader.read_input(&mut line);
        match validate(&line, 2022) {
            Ok(s) => {
                season = Some(s);
                break;
            },
            Err(_) => continue,
        }
    }
    assert_eq!(season, Some(Season { year: 2010 }));
}

#[test]
fn a_name_query_line_is_trimmed_by_the_resolver() {
    let input = "Alvarez\n".as_bytes();
    let mut reader = IOReader { reader: input };
    let mut line = String::new();
    reader.read_input(&mut line);
    assert_eq!(line, "Alvarez\n");
    let roster = vec![mlb::resolve::PlayerCandidate {
        id: 7,
        full_name: String::from("Yordan Alvarez"),
        position: String::from("DH"),
        team_id: 117,
    }];
    let found = mlb::resolve::filter_candidates(&line, &roster);
    assert_eq!(found.len(), 1);
    assert_eq!(found[0].full_name, "Yordan Alvarez");
}

#[test]
fn error_descriptions_are_stable() {
    assert_eq!(StatsError::Validation.describe(), "invalid season");
    assert_eq!(StatsError::NotFound.describe(), "no matching player");
    assert_eq!(StatsError::Selection.describe(), "invalid selection");
    assert_eq!(StatsError::InvalidCategory.describe(), "unknown stat category");
    assert_eq!(StatsError::Decode.describe(), "malformed stat field");
    assert_eq!(StatsError::Remote.describe(), "remote call failed");
}
