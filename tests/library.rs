use spotify_control::commands::{Args, ArgsErrorKind, Commands, PlayMode};
use spotify_control::error::Error;
use spotify_control::metadata::{Metadata, MetadataError, PropertyMap, Value};
use spotify_control::player::{
    begin_selection, check_service_name, finish_selection, route, selection_target, track_uri,
    Action, PlaybackTarget, SelectStep, Selection,
};
use spotify_control::spotify_api::{search_url, Album, Artist, Track};
use spotify_control::text::{join, parse_index, trim};

fn track(name: &str, id: &str, artists: &[&str], album: &str) -> Track {
    Track {
        name: name.to_string(),
        id: id.to_string(),
        artists: artists
            .iter()
            .map(|a| Artist { name: a.to_string() })
            .collect(),
        album: Album { name: album.to_string() },
    }
}

fn five_tracks() -> Vec<Track> {
    (0..5)
        .map(|i| track(&format!("Song {}", i), &format!("id{}", i), &["Artist"], "Album"))
        .collect()
}

fn text(s: &str) -> Value {
    Value::Str(s.to_string())
}

fn full_bag() -> PropertyMap {
    let mut m = PropertyMap::new();
    m.insert("xesam:title".to_string(), text("Shape of You"));
    m.insert(
        "xesam:artist".to_string(),
        Value::Array(vec![text("Ed Sheeran"), Value::Int(3), text("Guest")]),
    );
    m.insert("xesam:album".to_string(), text("÷"));
    m.insert("mpris:artUrl".to_string(), text("https://i.scdn.co/image/abc"));
    m.insert("mpris:length".to_string(), Value::UInt(233000000));
    m
}

fn missing_key(r: Result<Metadata, MetadataError>) -> String {
    match r {
        Err(MetadataError::MissingKey(k)) => k,
        other => panic!("expected a missing key, got {:?}", other),
    }
}

#[test]
fn parse_index_reads_decimal_numbers() {
    assert_eq!(parse_index("0"), Some(0));
    assert_eq!(parse_index("42"), Some(42));
    assert_eq!(parse_index("+7"), Some(7));
    assert_eq!(parse_index("007"), Some(7));
    assert_eq!(parse_index("18446744073709551615"), Some(usize::MAX));
    assert_eq!(parse_index("18446744073709551616"), None);
    assert_eq!(parse_index(""), None);
    assert_eq!(parse_index("+"), None);
    assert_eq!(parse_index("-1"), None);
    assert_eq!(parse_index("1a"), None);
    assert_eq!(parse_index(" 1"), None);
}

#[test]
fn trim_removes_surrounding_whitespace() {
    assert_eq!(trim("  1\n"), "1");
    assert_eq!(trim("\t a b \r\n"), "a b");
    assert_eq!(trim("\u{3000}x\u{a0}"), "x");
    assert_eq!(trim("   "), "");
    assert_eq!(trim(""), "");
}

#[test]
fn join_puts_separator_between_parts() {
    let parts = vec!["Shape".to_string(), "of".to_string(), "You".to_string()];
    assert_eq!(join(&parts, " "), "Shape of You");
    assert_eq!(join(&vec!["one".to_string()], ", "), "one");
    assert_eq!(join(&Vec::new(), ", "), "");
}

#[test]
fn display_single_artist_has_no_conjunction() {
    let t = track("Shape of You", "x", &["Ed Sheeran"], "÷");
    assert_eq!(t.display_string(), "Shape of You by Ed Sheeran on ÷");
}

#[test]
fn display_two_artists_joined_by_and() {
    let t = track("Song", "x", &["A", "B"], "Album");
    assert_eq!(t.display_string(), "Song by A and B on Album");
}

#[test]
fn display_three_artists_commas_then_and() {
    let t = track("Song", "x", &["A", "B", "C"], "Album");
    assert_eq!(t.display_string(), "Song by A, B and C on Album");
    assert_eq!(t.display_string().matches(" and ").count(), 1);
}

#[test]
fn search_url_escapes_spaces() {
    assert_eq!(
        search_url("Shape of You"),
        "https://spotify-search-api-test.herokuapp.com/search/tracks?track=Shape%20of%20You"
    );
    assert_eq!(
        search_url(""),
        "https://spotify-search-api-test.herokuapp.com/search/tracks?track="
    );
}

#[test]
fn decode_complete_bag() {
    let md = Metadata::try_from(&full_bag()).unwrap();
    assert_eq!(md.title, "Shape of You");
    assert_eq!(md.artists, vec!["Ed Sheeran".to_string(), "Guest".to_string()]);
    assert_eq!(md.album, "÷");
    assert_eq!(md.artwork, "https://i.scdn.co/image/abc");
}

#[test]
fn decode_looks_through_variant_wrappers() {
    let mut m = PropertyMap::new();
    m.insert("xesam:title".to_string(), Value::Variant(Box::new(text("T"))));
    m.insert(
        "xesam:artist".to_string(),
        Value::Variant(Box::new(Value::Array(vec![Value::Variant(Box::new(text("A")))]))),
    );
    m.insert("xesam:album".to_string(), text("Al"));
    m.insert("mpris:artUrl".to_string(), text("u"));
    let md = Metadata::try_from(&m).unwrap();
    assert_eq!(md.title, "T");
    assert_eq!(md.artists, vec!["A".to_string()]);
}

#[test]
fn decode_empty_artist_array() {
    let mut m = full_bag();
    m.insert("xesam:artist".to_string(), Value::Array(vec![Value::Bool(true)]));
    let md = Metadata::try_from(&m).unwrap();
    assert!(md.artists.is_empty());
}

#[test]
fn decode_names_each_missing_key() {
    for key in ["xesam:title", "xesam:artist", "xesam:album", "mpris:artUrl"] {
        let mut m = PropertyMap::new();
        for (k, v) in [
            ("xesam:title", text("T")),
            ("xesam:artist", Value::Array(vec![text("A")])),
            ("xesam:album", text("Al")),
            ("mpris:artUrl", text("u")),
        ] {
            if k != key {
                m.insert(k.to_string(), v);
            }
        }
        assert_eq!(missing_key(Metadata::try_from(&m)), key);
    }
}

#[test]
fn decode_wrong_shape_is_missing_key() {
    let mut m = full_bag();
    m.insert("xesam:title".to_string(), Value::Int(1));
    assert_eq!(missing_key(Metadata::try_from(&m)), "xesam:title");
    let mut m = full_bag();
    m.insert("xesam:artist".to_string(), text("Ed Sheeran"));
    assert_eq!(missing_key(Metadata::try_from(&m)), "xesam:artist");
    let mut m = full_bag();
    m.insert("mpris:artUrl".to_string(), Value::ObjectPath("/a".to_string()));
    assert_eq!(missing_key(Metadata::try_from(&m)), "mpris:artUrl");
}

#[test]
fn decode_reports_first_failing_key() {
    let mut m = PropertyMap::new();
    m.insert("mpris:artUrl".to_string(), text("u"));
    assert_eq!(missing_key(Metadata::try_from(&m)), "xesam:title");
}

#[test]
fn property_map_insert_replaces() {
    let mut m = PropertyMap::new();
    assert!(m.get("k").is_none());
    m.insert("k".to_string(), Value::Int(1));
    m.insert("j".to_string(), Value::Int(2));
    m.insert("k".to_string(), Value::Int(3));
    assert!(matches!(m.get("k"), Some(Value::Int(3))));
    assert!(matches!(m.get("j"), Some(Value::Int(2))));
    assert!(m.get("x").is_none());
}

#[test]
fn notification_body_lists_artists_and_album() {
    let md = Metadata::try_from(&full_bag()).unwrap();
    assert_eq!(md.notification_body(), "Ed Sheeran, Guest - ÷");
}

#[test]
fn error_messages() {
    assert_eq!(
        MetadataError::MissingKey("xesam:artist".to_string()).message(),
        "Missing metadata key: xesam:artist"
    );
    assert_eq!(
        MetadataError::InvalidValueType("k".to_string()).message(),
        "Invalid value type for key: k"
    );
    let e = Error::from(MetadataError::MissingKey("k".to_string()));
    assert_eq!(e.message(), "Metadata error: Missing metadata key: k");
    assert_eq!(Error::ZbusError("x".to_string()).message(), "DBus error: x");
    assert_eq!(Error::ZbusNamesError("x".to_string()).message(), "DBus names error: x");
    assert_eq!(Error::ReqwestError("x".to_string()).message(), "HTTP request error: x");
    assert_eq!(Error::NotificationError("x".to_string()).message(), "Notification error: x");
    assert_eq!(Error::IoError("x".to_string()).message(), "I/O error: x");
    assert_eq!(Error::InputError("x".to_string()).message(), "Invalid input: x");
}

#[test]
fn route_maps_each_command() {
    assert_eq!(route(&Commands::Next), Action::Next);
    assert_eq!(route(&Commands::Previous), Action::Previous);
    assert_eq!(route(&Commands::PlayPause), Action::PlayPause);
    assert_eq!(route(&Commands::NowPlaying), Action::NowPlaying);
    let uri = Commands::PlaySong {
        mode: PlayMode::Uri { uri: "spotify:track:1".to_string() },
    };
    assert_eq!(route(&uri), Action::OpenUri("spotify:track:1".to_string()));
}

#[test]
fn non_interactive_plays_first_whatever_the_count() {
    let tracks = five_tracks();
    for count in [0, 1, 2, 5, 100] {
        assert_eq!(
            begin_selection(&tracks, count, false),
            SelectStep::Done(Selection::Track(0))
        );
    }
}

#[test]
fn empty_candidates_yield_no_track() {
    let none: Vec<Track> = Vec::new();
    assert_eq!(begin_selection(&none, 5, false), SelectStep::Done(Selection::NoTrack));
    assert_eq!(begin_selection(&none, 5, true), SelectStep::Done(Selection::NoTrack));
}

#[test]
fn interactive_asks_for_at_most_the_candidates() {
    let tracks = five_tracks();
    assert_eq!(begin_selection(&tracks, 2, true), SelectStep::Ask(2));
    assert_eq!(begin_selection(&tracks, 10, true), SelectStep::Ask(5));
}

#[test]
fn in_range_index_picks_that_candidate() {
    let tracks = five_tracks();
    assert_eq!(finish_selection(&tracks, 5, "0\n").unwrap(), Selection::Track(0));
    assert_eq!(finish_selection(&tracks, 5, " 4 \n").unwrap(), Selection::Track(4));
}

#[test]
fn out_of_range_index_is_invalid_not_an_error() {
    let tracks = five_tracks();
    assert_eq!(finish_selection(&tracks, 5, "5\n").unwrap(), Selection::Invalid);
    assert_eq!(finish_selection(&tracks, 2, "3\n").unwrap(), Selection::Invalid);
    assert_eq!(
        finish_selection(&tracks, 5, "99999999999999999999999\n").unwrap(),
        Selection::Invalid
    );
}

#[test]
fn non_numeric_selection_is_an_input_error() {
    let tracks = five_tracks();
    match finish_selection(&tracks, 5, "abc\n") {
        Err(Error::InputError(t)) => assert_eq!(t, "abc"),
        other => panic!("expected an input error, got {:?}", other),
    }
    assert!(matches!(finish_selection(&tracks, 5, "\n"), Err(Error::InputError(_))));
}

#[test]
fn playback_target_uris() {
    assert_eq!(
        PlaybackTarget::Uri("spotify:track:abc".to_string()).uri(),
        "spotify:track:abc"
    );
    assert_eq!(PlaybackTarget::Track("abc".to_string()).uri(), "spotify:track:abc");
    assert_eq!(track_uri(&track("n", "xyz", &["a"], "b")), "spotify:track:xyz");
    let tracks = five_tracks();
    assert_eq!(
        selection_target(&tracks, Selection::Track(3)),
        Some(PlaybackTarget::Track("id3".to_string()))
    );
    assert_eq!(selection_target(&tracks, Selection::Invalid), None);
    assert_eq!(selection_target(&tracks, Selection::NoTrack), None);
}

#[test]
fn service_name_validity() {
    assert!(check_service_name("org.mpris.MediaPlayer2.spotify").is_ok());
    assert!(check_service_name(":1.42").is_ok());
    assert!(matches!(
        check_service_name("not a bus name"),
        Err(Error::ZbusNamesError(_))
    ));
    assert!(check_service_name("").is_err());
}

#[test]
fn search_scenario_plays_first_match() {
    let args = Args::try_parse_from(&["spotify-control", "play-song", "search", "Shape", "of", "You"])
        .unwrap();
    let (query, list, count) = match route(&args.action) {
        Action::Search { query, list, count } => (query, list, count),
        other => panic!("expected a search, got {:?}", other),
    };
    assert_eq!(query, "Shape of You");
    let tracks = vec![track("Shape of You", "6habFhsOp", &["Ed Sheeran"], "÷")];
    let step = begin_selection(&tracks, count, list);
    assert_eq!(step, SelectStep::Done(Selection::Track(0)));
    let target = selection_target(&tracks, Selection::Track(0)).unwrap();
    assert_eq!(target.uri(), "spotify:track:6habFhsOp");
}

#[test]
fn now_playing_without_artist_fails() {
    let mut m = PropertyMap::new();
    m.insert("xesam:title".to_string(), text("T"));
    m.insert("xesam:album".to_string(), text("Al"));
    m.insert("mpris:artUrl".to_string(), text("u"));
    let e = Error::from(Metadata::try_from(&m).unwrap_err());
    match e {
        Error::MetadataError(MetadataError::MissingKey(k)) => assert_eq!(k, "xesam:artist"),
        other => panic!("expected a metadata error, got {:?}", other),
    }
}

#[test]
fn list_scenario_shows_two_and_picks() {
    let args = Args::try_parse_from(&[
        "spotify-control",
        "play-song",
        "search",
        "--list",
        "--count",
        "2",
        "q",
    ])
    .unwrap();
    let (list, count) = match route(&args.action) {
        Action::Search { list, count, .. } => (list, count),
        other => panic!("expected a search, got {:?}", other),
    };
    let tracks = five_tracks();
    assert_eq!(begin_selection(&tracks, count, list), SelectStep::Ask(2));
    let picked = finish_selection(&tracks, count, "1\n").unwrap();
    assert_eq!(picked, Selection::Track(1));
    assert_eq!(selection_target(&tracks, picked).unwrap().uri(), "spotify:track:id1");
    let invalid = finish_selection(&tracks, count, "9\n").unwrap();
    assert_eq!(invalid, Selection::Invalid);
    assert_eq!(selection_target(&tracks, invalid), None);
}

#[test]
fn parse_short_options_and_repeated_service() {
    let args = Args::try_parse_from(&[
        "p", "-s", "a.b", "--service-name", "c.d", "play-song", "search", "x", "-l", "-c", "3", "y",
    ])
    .unwrap();
    assert_eq!(args.service_name, "c.d");
    assert_eq!(
        args.action,
        Commands::PlaySong {
            mode: PlayMode::Search {
                query: vec!["x".to_string(), "y".to_string()],
                list: true,
                count: 3
            }
        }
    );
}

#[test]
fn parse_errors() {
    let kind = |argv: &[&str]| Args::try_parse_from(argv).unwrap_err().kind;
    assert_eq!(kind(&["p"]), ArgsErrorKind::MissingSubcommand);
    assert_eq!(kind(&[]), ArgsErrorKind::MissingSubcommand);
    assert_eq!(kind(&["p", "stop"]), ArgsErrorKind::UnknownSubcommand);
    assert_eq!(kind(&["p", "next", "extra"]), ArgsErrorKind::UnexpectedArgument);
    assert_eq!(kind(&["p", "--verbose", "next"]), ArgsErrorKind::UnexpectedArgument);
    assert_eq!(kind(&["p", "--service-name"]), ArgsErrorKind::MissingValue);
    assert_eq!(kind(&["p", "play-song"]), ArgsErrorKind::MissingSubcommand);
    assert_eq!(kind(&["p", "play-song", "uri"]), ArgsErrorKind::MissingArgument);
    assert_eq!(kind(&["p", "play-song", "uri", "a", "b"]), ArgsErrorKind::UnexpectedArgument);
    assert_eq!(kind(&["p", "play-song", "search", "--count"]), ArgsErrorKind::MissingValue);
    assert_eq!(kind(&["p", "play-song", "search", "--count", "x"]), ArgsErrorKind::InvalidValue);
    let e = Args::try_parse_from(&["p", "stop"]).unwrap_err();
    assert_eq!(e.arg, "stop");
    assert_eq!(e.message(), "unrecognized subcommand 'stop'");
}
