use anime_repository::matcher::{Key, Matcher, MatcherError, ProviderKnown, Value, parse_i64};

fn rule(tvshow_regex: &str, season: u64, offset: i64, position: u8, episode_regex: &str) -> Matcher {
    let key = Key { id: "207965".to_string(), provider: ProviderKnown::TMDB };
    let value = Value {
        tvshow_regex: tvshow_regex.to_string(),
        season,
        episode_offset: offset,
        episode_position: position,
        episode_regex: episode_regex.to_string(),
    };
    Matcher::try_from(key, &value).unwrap()
}

#[test]
fn main() {
    let key = Key { id: "207965".to_string(), provider: ProviderKnown::TMDB };

    let value = Value {
        tvshow_regex: "Tensei Oujo to Tensai Reijou no Mahou Kakumei".to_string(),
        season: 1,
        episode_offset: 0,
        episode_position: 0,
        episode_regex: r"\d+".to_string(),
    };

    let matcher: Matcher = Matcher::try_from(key, &value).unwrap();

    let result = matcher.match_video(r"C:\Users\chika\Downloads\AnimeRepository\[Lilith-Raws] Tensei Oujo to Tensai Reijou no Mahou Kakumei - 07 [Baha][WEB-DL][1080p][AVC AAC][CHT][MP4].mp4").unwrap();

    assert_eq!(result.1, 1);
    assert_eq!(result.2, 7);
}

#[test]
fn example_show_episode_seven() {
    let m = rule("Example Show", 1, 0, 0, r"\d+");
    let path = "/downloads/Example Show - 07 [WEB].mp4";
    let (p, season, episode) = m.match_video(path).unwrap();
    assert_eq!(p, path);
    assert_eq!(season, 1);
    assert_eq!(episode, 7);
}

#[test]
fn negative_offset_shifts_episode() {
    let m = rule("Example Show", 1, -1, 0, r"\d+");
    let (_, season, episode) = m.match_video("/downloads/Example Show - 08.mkv").unwrap();
    assert_eq!(season, 1);
    assert_eq!(episode, 7);
}

#[test]
fn capture_count_mismatch_is_not_applicable() {
    // Two capture groups where the rule expects the bare match: never a
    // partial match, always not applicable.
    let m = rule("Example Show", 1, 0, 2, r"(\d+)x(\d+)");
    let r = m.match_video("/downloads/Example Show - 03x07.mp4");
    assert_eq!(r.unwrap_err(), MatcherError::NotApplicable);
}

#[test]
fn show_pattern_gates_everything() {
    // The file name alone would match, but the full path does not satisfy
    // the show pattern.
    let m = rule("Another Show", 1, 0, 0, r"\d+");
    let r = m.match_video("/downloads/Example Show - 07.mp4");
    assert_eq!(r.unwrap_err(), MatcherError::NotApplicable);
}

#[test]
fn unmatched_file_name_is_not_applicable() {
    let m = rule("Example Show", 1, 0, 0, r"E\d+");
    let r = m.match_video("/downloads/Example Show - seven.mp4");
    assert_eq!(r.unwrap_err(), MatcherError::NotApplicable);
}

#[test]
fn negative_episode_is_invalid() {
    let m = rule("Example Show", 1, -10, 0, r"\d+");
    let r = m.match_video("/downloads/Example Show - 07.mp4");
    assert_eq!(r.unwrap_err(), MatcherError::InvalidEpisode);
}

#[test]
fn bad_pattern_is_invalid_rule() {
    let key = Key { id: "1".to_string(), provider: ProviderKnown::TMDB };
    let value = Value {
        tvshow_regex: "(".to_string(),
        season: 1,
        episode_offset: 0,
        episode_position: 0,
        episode_regex: r"\d+".to_string(),
    };
    match Matcher::try_from(key, &value) {
        Err(e) => assert_eq!(e, MatcherError::InvalidRule),
        Ok(_) => panic!("a rule with a bad pattern must not compile"),
    }
}

#[test]
fn overflowing_episode_number_is_invalid_rule() {
    let m = rule("Example Show", 1, 0, 0, r"\d+");
    let r = m.match_video("/downloads/Example Show - 99999999999999999999.mp4");
    assert_eq!(r.unwrap_err(), MatcherError::InvalidRule);
}

#[test]
fn matching_is_deterministic() {
    let m = rule("Example Show", 2, 3, 0, r"\d+");
    let path = "/downloads/Example Show - 04.mp4";
    let first = m.match_video(path);
    let second = m.match_video(path);
    assert_eq!(first, second);
    let miss = m.match_video("/downloads/other.mp4");
    assert_eq!(miss, m.match_video("/downloads/other.mp4"));
}

#[test]
fn parse_i64_accepts_signs_and_rejects_junk() {
    assert_eq!(parse_i64("0"), Some(0));
    assert_eq!(parse_i64("07"), Some(7));
    assert_eq!(parse_i64("+12"), Some(12));
    assert_eq!(parse_i64("-5"), Some(-5));
    assert_eq!(parse_i64("9223372036854775807"), Some(i64::MAX));
    assert_eq!(parse_i64("-9223372036854775808"), Some(i64::MIN));
    assert_eq!(parse_i64("9223372036854775808"), None);
    assert_eq!(parse_i64("-9223372036854775809"), None);
    assert_eq!(parse_i64(""), None);
    assert_eq!(parse_i64("+"), None);
    assert_eq!(parse_i64("-"), None);
    assert_eq!(parse_i64("1a"), None);
    assert_eq!(parse_i64("12345678901234567890123456789"), None);
}
