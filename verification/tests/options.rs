use rustunes::commands::{
    Action, Arg, CommandDefinition, CommandType, CommandsRegistry,
};
use rustunes::config::{
    MusicPlayerConfig, MusicPlayerOptions, OptionAction, OptionDefinition, OptionType,
    OptionsRegistry,
};
use rustunes::parse::{parse_bool, parse_i16, parse_i64, parse_u64, parse_usize, str_eq};
use rustunes::signals::TuiState;
use rustunes::strutil::{split_char, str_contains};
use rustunes::Error;

#[test]
fn decimal_parsing_matches_std_shapes() {
    assert_eq!(parse_u64("0"), Some(0));
    assert_eq!(parse_u64("600"), Some(600));
    assert_eq!(parse_u64("+600"), Some(600));
    assert_eq!(parse_u64("18446744073709551615"), Some(u64::MAX));
    assert_eq!(parse_u64("18446744073709551616"), None);
    assert_eq!(parse_u64(""), None);
    assert_eq!(parse_u64("+"), None);
    assert_eq!(parse_u64("-1"), None);
    assert_eq!(parse_u64("1a"), None);
    assert_eq!(parse_usize("42"), Some(42));
    assert_eq!(parse_i64("-42"), Some(-42));
    assert_eq!(parse_i64("+42"), Some(42));
    assert_eq!(parse_i64("-9223372036854775808"), Some(i64::MIN));
    assert_eq!(parse_i64("9223372036854775808"), None);
    assert_eq!(parse_i16("-32768"), Some(i16::MIN));
    assert_eq!(parse_i16("32767"), Some(i16::MAX));
    assert_eq!(parse_i16("32768"), None);
    assert_eq!(parse_bool("true"), Some(true));
    assert_eq!(parse_bool("false"), Some(false));
    assert_eq!(parse_bool("True"), None);
    assert!(str_eq("abc", "abc"));
    assert!(!str_eq("abc", "abd"));
}

#[test]
fn split_char_keeps_every_part() {
    let parts = split_char("a,b,,c", ',');
    assert_eq!(parts, vec!["a", "b", "", "c"]);
    let parts = split_char("plain", ',');
    assert_eq!(parts, vec!["plain"]);
    let parts = split_char("", ',');
    assert_eq!(parts, vec![""]);
    assert!(str_contains("hello Music world", "Music"));
    assert!(!str_contains("hello", "Music"));
}

#[test]
fn levenshtein_exact_values() {
    assert_eq!(rustunes::config::lev("kitten", "sitting"), 3);
    assert_eq!(rustunes::config::lev("", "abc"), 3);
    assert_eq!(rustunes::config::lev("abc", ""), 3);
    assert_eq!(rustunes::config::lev("same", "same"), 0);
    assert_eq!(rustunes::config::lev("flaw", "lawn"), 2);
}

#[test]
fn option_text_maps_to_actions() {
    let options = MusicPlayerOptions::new();
    let map = |s: &str| options.options.map_option_str_to_action(s);
    assert_eq!(map("--help"), Some(OptionAction::PrintHelp));
    assert_eq!(map("--mpv_base_volume=50"), Some(OptionAction::SetMpvBaseVolume(50)));
    assert_eq!(map("--shuffle_playlist=false"), Some(OptionAction::SetShufflePlaylist(false)));
    assert_eq!(map("--piped_api_domain_index=2"), Some(OptionAction::SetPipedApiDomainIndex(2)));
    assert_eq!(
        map("--video_duration_limit_s=900"),
        Some(OptionAction::SetVideoDurationLimit(900))
    );
    assert_eq!(
        map("--play_only_recommendations=true"),
        Some(OptionAction::SetPlayOnlyRecommendations(true))
    );
    assert_eq!(map("--fetch_piped_api_domains"), Some(OptionAction::FetchPipedApiDomains));
    assert_eq!(map("--overwrite_config"), Some(OptionAction::OverwriteConfig));
    assert_eq!(map("--mpv_base_volume"), None);  // missing argument
    assert_eq!(map("--mpv_base_volume=loud"), None);  // unparsable argument
    assert_eq!(map("--no_such_option"), None);
}

#[test]
fn preprocess_args_maps_or_rejects() {
    let options = MusicPlayerOptions::new();
    let args = vec!["--help".to_string(), "--debug_log=true".to_string()];
    let actions = options.preprocess_args(&args).unwrap();
    assert_eq!(actions, vec![OptionAction::PrintHelp, OptionAction::SetDebugLog(true)]);
    let bad = vec!["--helpp".to_string()];
    let err = options.preprocess_args(&bad).unwrap_err();
    assert!(matches!(err, Error::InvalidOption(_)));
}

#[test]
fn find_suggestion_picks_nearest_option() {
    let options = MusicPlayerOptions::new();
    assert_eq!(options.find_suggestion("--helpp"), "--help");
    assert_eq!(options.find_suggestion("--debug_lob=true"), "--debug_log");
}

#[test]
fn extract_user_input_url_detaches_trailing_url() {
    let args = vec!["rustunes".to_string(), "https://yt/watch?v=a".to_string()];
    let (rest, url) = MusicPlayerOptions::extract_user_input_url(args);
    assert_eq!(rest, vec!["rustunes".to_string()]);
    assert_eq!(url, Some("https://yt/watch?v=a".to_string()));
    let args = vec!["rustunes".to_string(), "--help".to_string()];
    let (rest, url) = MusicPlayerOptions::extract_user_input_url(args);
    assert_eq!(rest.len(), 2);
    assert_eq!(url, None);
    let args = vec!["https://yt/watch?v=a".to_string()];
    let (_, url) = MusicPlayerOptions::extract_user_input_url(args);
    assert_eq!(url, None);
}

#[test]
fn simple_actions_update_config_and_defer_complex_ones() {
    let mut config = MusicPlayerConfig::new().unwrap();
    let complex = config.apply_simple_actions(vec![
        OptionAction::SetMpvBaseVolume(55),
        OptionAction::SetShufflePlaylist(false),
        OptionAction::RankPipedApiDomains,
        OptionAction::SetVideoDurationLimit(900),
        OptionAction::FetchInvidiousApiDomains,
        OptionAction::SetMpvBaseVolume(60),
    ]);
    assert_eq!(config.mpv_base_volume, 60);
    assert!(!config.shuffle_playlist);
    assert_eq!(config.video_duration_limit_s, 900);
    assert_eq!(
        complex,
        vec![OptionAction::RankPipedApiDomains, OptionAction::FetchInvidiousApiDomains]
    );
}

#[test]
fn complex_actions_install_fetched_directories() {
    let mut config = MusicPlayerConfig::new().unwrap();
    let actions = vec![OptionAction::FetchPipedApiDomains, OptionAction::RankInvidiousApiDomains];
    let fetched = Some(vec!["https://m0".to_string(), "https://m1".to_string()]);
    let (rank_piped, rank_invidious) =
        config.apply_complex_actions(actions, fetched, None).unwrap();
    assert!(!rank_piped);
    assert!(rank_invidious);
    assert_eq!(config.piped_api_domains.len(), 2);
    assert_eq!(config.piped_api_domain_index, 0);

    let mut config = MusicPlayerConfig::new().unwrap();
    let err = config
        .apply_complex_actions(vec![OptionAction::FetchPipedApiDomains], None, None)
        .unwrap_err();
    assert!(matches!(err, Error::OtherError(_)));
}

#[test]
fn default_config_values() {
    let config = MusicPlayerConfig::new().unwrap();
    assert_eq!(config.piped_api_domains, vec!["https://piped-api.garudalinux.org".to_string()]);
    assert_eq!(config.piped_api_domain_index, 0);
    assert_eq!(
        config.invidious_api_domains,
        vec!["https://invidious.garudalinux.org".to_string()]
    );
    assert_eq!(config.mpv_base_volume, 100);
    assert_eq!(config.video_duration_limit_s, 600);
    assert!(config.shuffle_playlist);
    assert!(!config.play_only_recommendations);
    assert!(!config.debug_log);
}

#[test]
fn options_registry_replaces_entries_by_name() {
    let mut registry = OptionsRegistry::new();
    registry.add_option(OptionDefinition {
        name: "--volume".to_string(),
        option_type: OptionType::SetMpvBaseVolume,
        args: vec![Arg::I64(None)],
    });
    registry.add_option(OptionDefinition {
        name: "--volume".to_string(),
        option_type: OptionType::SetMpvBaseVolume,
        args: vec![Arg::I64(None)],
    });
    assert_eq!(registry.get_options_names(), vec!["--volume".to_string()]);
    assert_eq!(
        registry.map_option_str_to_action("--volume=9"),
        Some(OptionAction::SetMpvBaseVolume(9))
    );
}

fn test_commands() -> CommandsRegistry {
    let mut registry = CommandsRegistry::new();
    registry.add_commands(vec![
        CommandDefinition {
            name: "quit".to_string(),
            action_type: CommandType::Quit,
            args: vec![],
            user_facing: true,
        },
        CommandDefinition {
            name: "vol".to_string(),
            action_type: CommandType::Vol,
            args: vec![Arg::I64(None)],
            user_facing: true,
        },
        CommandDefinition {
            name: "view".to_string(),
            action_type: CommandType::View,
            args: vec![Arg::TuiState(None)],
            user_facing: true,
        },
        CommandDefinition {
            name: "scroll".to_string(),
            action_type: CommandType::Scroll,
            args: vec![Arg::I16(None)],
            user_facing: false,
        },
    ]);
    registry
}

#[test]
fn command_text_maps_to_actions() {
    let commands = test_commands();
    assert!(matches!(commands.map_command_str_to_action("quit"), Some(Action::Quit)));
    assert!(matches!(commands.map_command_str_to_action("vol -5"), Some(Action::Vol(-5))));
    assert!(matches!(
        commands.map_command_str_to_action("view player"),
        Some(Action::View(TuiState::Player))
    ));
    assert!(matches!(
        commands.map_command_str_to_action("view help"),
        Some(Action::View(TuiState::Help))
    ));
    assert!(matches!(commands.map_command_str_to_action("scroll 3"), Some(Action::Scroll(3))));
    assert!(commands.map_command_str_to_action("view nowhere").is_none());
    assert!(commands.map_command_str_to_action("vol").is_none());
    assert!(commands.map_command_str_to_action("vol 1 2").is_none());
    assert!(commands.map_command_str_to_action("warp 9").is_none());
}

#[test]
fn commands_names_lists_user_facing_only() {
    let commands = test_commands();
    let names = commands.get_commands_names();
    assert!(names.contains(&"quit".to_string()));
    assert!(names.contains(&"vol".to_string()));
    assert!(!names.contains(&"scroll".to_string()));
}

#[test]
fn arg_extraction_is_variant_exact() {
    assert_eq!(Arg::I64(Some(4)).extract_i64(), Some(4));
    assert_eq!(Arg::I64(Some(4)).extract_u64(), None);
    assert_eq!(Arg::BOOL(Some(true)).extract_bool(), Some(true));
    assert_eq!(Arg::USIZE(Some(7)).extract_usize(), Some(7));
    assert_eq!(Arg::I16(Some(-2)).extract_i16(), Some(-2));
    assert_eq!(Arg::U64(Some(9)).extract_u64(), Some(9));
    assert_eq!(Arg::TuiState(Some(TuiState::Help)).extract_tui_state(), Some(TuiState::Help));
    assert_eq!(Arg::U64(None).to_type_str(), "u64");
    assert_eq!(Arg::TuiState(None).to_type_str(), "TuiState");
}

#[test]
fn tui_state_names() {
    assert_eq!(TuiState::Player.to_str(), "player");
    assert_eq!(TuiState::History.to_str(), "history");
    assert_eq!(TuiState::Help.to_str(), "help");
}

#[test]
fn options_help_is_sorted_and_complete() {
    let options = MusicPlayerOptions::new();
    let help = options.options.generate_help_str();
    let expected = [
        "--debug_log=<bool>",
        "--fetch_invidious_api_domains",
        "--fetch_piped_api_domains",
        "--help",
        "--invidious_api_domain_index=<usize>",
        "--mpv_base_volume=<i64>",
        "--overwrite_config",
        "--piped_api_domain_index=<usize>",
        "--play_only_recommendations=<bool>",
        "--rank_invidious_api_domains",
        "--rank_piped_api_domains",
        "--shuffle_playlist=<bool>",
        "--video_duration_limit_s=<u64>",
    ]
    .join("\n");
    assert_eq!(help, expected);
}

#[test]
fn commands_help_shows_user_facing_sorted() {
    let mut commands = test_commands();
    commands.add_command(CommandDefinition {
        name: "two".to_string(),
        action_type: CommandType::Vol,
        args: vec![Arg::I64(None), Arg::BOOL(None)],
        user_facing: true,
    });
    let help = commands.generate_help_str();
    assert_eq!(help, "quit\ntwo=<i64,bool>\nview=<TuiState>\nvol=<i64>");
}
