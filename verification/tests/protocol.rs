use lichessdbfish::config::Config;
use lichessdbfish::config::SetOptionAction;
use lichessdbfish::config::SortBy;
use lichessdbfish::config::WeightBy;
use lichessdbfish::config::process_setoption;
use lichessdbfish::explorer::explorer_request;
use lichessdbfish::interceptor::EvalState;
use lichessdbfish::interceptor::GoAction;
use lichessdbfish::interceptor::process_go_line;
use lichessdbfish::interceptor::update_eval;
use lichessdbfish::numtext::parse_u64;
use lichessdbfish::numtext::u64_to_string;
use lichessdbfish::protocol::Command;
use lichessdbfish::protocol::STARTPOS;
use lichessdbfish::protocol::Session;
use lichessdbfish::protocol::decode_command;
use lichessdbfish::protocol::handshake_ack;
use lichessdbfish::protocol::option_advertisement;
use lichessdbfish::protocol::process_isready;
use lichessdbfish::protocol::process_position;
use lichessdbfish::protocol::process_stop;
use lichessdbfish::protocol::process_uci;
use lichessdbfish::protocol::unknown_command_line;
use lichessdbfish::stats::MoveStats;
use lichessdbfish::stats::Turn;
use lichessdbfish::text::join_tokens;
use lichessdbfish::text::tokenize;
use lichessdbfish::text::trim_line;

fn toks(words: &[&str]) -> Vec<String> {
    words.iter().map(|w| w.to_string()).collect()
}

#[test]
fn parse_u64_accepts_exactly_decimal_u64() {
    assert_eq!(parse_u64("0"), Some(0));
    assert_eq!(parse_u64("30"), Some(30));
    assert_eq!(parse_u64("007"), Some(7));
    assert_eq!(parse_u64("18446744073709551615"), Some(u64::MAX));
    assert_eq!(parse_u64("18446744073709551616"), None);
    assert_eq!(parse_u64(""), None);
    assert_eq!(parse_u64("-1"), None);
    assert_eq!(parse_u64("12a"), None);
}

#[test]
fn u64_to_string_prints_decimal() {
    assert_eq!(u64_to_string(0), "0");
    assert_eq!(u64_to_string(7), "7");
    assert_eq!(u64_to_string(12345), "12345");
    assert_eq!(u64_to_string(u64::MAX), "18446744073709551615");
}

#[test]
fn decode_recognizes_every_command_word() {
    assert_eq!(decode_command(&"uci".to_string()), Command::Uci);
    assert_eq!(decode_command(&"setoption".to_string()), Command::SetOption);
    assert_eq!(decode_command(&"isready".to_string()), Command::IsReady);
    assert_eq!(decode_command(&"position".to_string()), Command::Position);
    assert_eq!(decode_command(&"go".to_string()), Command::Go);
    assert_eq!(decode_command(&"stop".to_string()), Command::Stop);
    assert_eq!(decode_command(&"quit".to_string()), Command::Quit);
    assert_eq!(decode_command(&"exit".to_string()), Command::Quit);
    assert_eq!(decode_command(&"ucinewgame".to_string()), Command::Unknown);
}

#[test]
fn unknown_command_gets_a_diagnostic_line() {
    assert_eq!(unknown_command_line(&"frobnicate".to_string()), "Unknown command: frobnicate");
}

#[test]
fn advertisement_lists_the_sixteen_options() {
    let v = option_advertisement();
    assert_eq!(v.len(), 16);
    assert_eq!(v[0], "option name LichessDB_Masters type check default false");
    assert_eq!(v[10], "option name LichessDB_Games_GT type spin default 30 min 1 max 1000000000");
    assert_eq!(
        v[15],
        "option name LichessDB_Variant_Weight type combo default Random var Games var Score var Random"
    );
    assert_eq!(handshake_ack(), "uciok");
}

#[test]
fn setoption_value_below_declared_minimum_is_ignored() {
    let mut c = Config::new();
    let r = process_setoption(&mut c, &toks(&["name", "LichessDB_Games_GT", "value", "0"]));
    assert!(matches!(r, SetOptionAction::Handled));
    assert_eq!(c.games_min, 30);
}

#[test]
fn setoption_assigns_values_in_range() {
    let mut c = Config::new();
    process_setoption(&mut c, &toks(&["name", "LichessDB_Games_GT", "value", "100"]));
    assert_eq!(c.games_min, 100);
    process_setoption(&mut c, &toks(&["name", "LichessDB_Games_Percent_GT", "value", "0"]));
    assert_eq!(c.games_pct_min, 0);
    process_setoption(&mut c, &toks(&["name", "LichessDB_Variants", "value", "50"]));
    assert_eq!(c.variants, 50);
    process_setoption(&mut c, &toks(&["name", "LichessDB_Masters", "value", "true"]));
    assert!(c.master_games);
    process_setoption(&mut c, &toks(&["name", "LichessDB_Sort_By", "value", "Score"]));
    assert!(matches!(c.sortby, SortBy::Score));
    process_setoption(&mut c, &toks(&["name", "LichessDB_Variant_Weight", "value", "Games"]));
    assert!(matches!(c.weightby, WeightBy::Games));
    process_setoption(&mut c, &toks(&["name", "LichessDB_Bullet", "value", "false"]));
    assert!(!c.bullet);
}

#[test]
fn setoption_rejects_invalid_values_silently() {
    let mut c = Config::new();
    process_setoption(&mut c, &toks(&["name", "LichessDB_Variants", "value", "51"]));
    assert_eq!(c.variants, 1);
    process_setoption(&mut c, &toks(&["name", "LichessDB_Games_GT", "value", "abc"]));
    assert_eq!(c.games_min, 30);
    process_setoption(&mut c, &toks(&["name", "LichessDB_Masters", "value", "yes"]));
    assert!(!c.master_games);
}

#[test]
fn setoption_forwards_unknown_options() {
    let mut c = Config::new();
    let r = process_setoption(&mut c, &toks(&["name", "Hash", "value", "128"]));
    match r {
        SetOptionAction::Forward(line) => assert_eq!(line, "setoption name Hash value 128"),
        _ => panic!("expected a forwarded line"),
    }
}

#[test]
fn setoption_malformed_yields_diagnostic() {
    let mut c = Config::new();
    assert!(matches!(process_setoption(&mut c, &toks(&[])), SetOptionAction::Diagnostic));
    assert!(matches!(
        process_setoption(&mut c, &toks(&["value", "x"])),
        SetOptionAction::Diagnostic
    ));
    assert!(matches!(process_setoption(&mut c, &toks(&["name"])), SetOptionAction::Diagnostic));
}

#[test]
fn position_startpos_resets_the_session() {
    let mut s = Session::new();
    s.fen = "something".to_string();
    s.turn = Turn::Black;
    let fwd = process_position(&mut s, &toks(&["startpos"]));
    assert_eq!(fwd.as_deref(), Some("position startpos"));
    assert_eq!(s.fen, STARTPOS);
    assert!(matches!(s.turn, Turn::White));
}

#[test]
fn position_fen_stores_fields_and_side_to_move() {
    let mut s = Session::new();
    let args = toks(&["fen", "8/8/8/8/8/8/8/8", "b", "-", "-", "0", "1"]);
    let fwd = process_position(&mut s, &args);
    assert_eq!(fwd.as_deref(), Some("position fen 8/8/8/8/8/8/8/8 b - - 0 1"));
    assert_eq!(s.fen, "8/8/8/8/8/8/8/8 b - - 0 1 ");
    assert!(matches!(s.turn, Turn::Black));
}

#[test]
fn position_with_bad_side_token_is_ignored() {
    let mut s = Session::new();
    let before = s.fen.clone();
    let fwd = process_position(&mut s, &toks(&["fen", "8/8/8/8/8/8/8/8", "x"]));
    assert!(fwd.is_none());
    assert_eq!(s.fen, before);
    assert!(process_position(&mut s, &toks(&[])).is_none());
}

#[test]
fn stop_and_acknowledgement_lines() {
    assert_eq!(process_stop(), "stop");
    assert!(process_isready(&"  readyok ".to_string()));
    assert!(!process_isready(&"info depth 1".to_string()));
    assert!(process_uci(&"uciok".to_string()));
    assert!(!process_uci(&"id name engine".to_string()));
}

#[test]
fn eval_tracking_reads_depth_seldepth_and_score() {
    let mut ev = EvalState::new();
    update_eval(&mut ev, &toks(&["info", "depth", "12", "seldepth", "15", "score", "cp", "34"]));
    assert_eq!(ev.depth, "12");
    assert_eq!(ev.seldepth, "15");
    assert_eq!(ev.score_unit, "cp");
    assert_eq!(ev.score, "34");
    update_eval(&mut ev, &toks(&["info", "score", "mate", "-3"]));
    assert_eq!(ev.score_unit, "mate");
    assert_eq!(ev.score, "-3");
}

#[test]
fn eval_tracking_ignores_other_lines_and_truncated_keywords() {
    let mut ev = EvalState::new();
    update_eval(&mut ev, &toks(&["bestmove", "depth", "9"]));
    assert_eq!(ev.depth, "1");
    update_eval(&mut ev, &toks(&["info", "multipv", "1", "depth"]));
    assert_eq!(ev.depth, "1");
    update_eval(&mut ev, &toks(&["info", "score", "lowerbound", "55"]));
    assert_eq!(ev.score_unit, "cp");
    assert_eq!(ev.score, "55");
}

#[test]
fn fetch_failure_relays_the_engine_best_move_verbatim() {
    let mut ev = EvalState::new();
    let line = "bestmove g1f3 ponder d7d5".to_string();
    let r = process_go_line(&None, &mut ev, &line);
    assert!(matches!(r, GoAction::RelayFinish));
    let progress = "info depth 5 score cp 10".to_string();
    let r = process_go_line(&None, &mut ev, &progress);
    assert!(matches!(r, GoAction::Relay));
    assert_eq!(ev.depth, "1");
}

#[test]
fn book_move_replaces_the_terminal_line_with_three_lines() {
    let best = Some(MoveStats {
        uci: "e2e4".to_string(),
        san: "e4".to_string(),
        white: 2,
        draws: 1,
        black: 1,
    });
    let mut ev = EvalState::new();
    let r = process_go_line(&best, &mut ev, &"info depth 7 seldepth 9 score cp 25 pv g1f3".to_string());
    assert!(matches!(r, GoAction::Silent));
    let r = process_go_line(&best, &mut ev, &"bestmove g1f3".to_string());
    match r {
        GoAction::BookFinish(lines) => {
            assert_eq!(lines.len(), 3);
            assert_eq!(lines[0], "info white 50 draws 25 black 25 games 4 lichessdbmove e4");
            assert_eq!(lines[1], "info depth 7 seldepth 9 multipv 1 score cp 25 pv e2e4");
            assert_eq!(lines[2], "bestmove e2e4");
        },
        _ => panic!("expected the book lines"),
    }
}

#[test]
fn explorer_request_for_master_has_no_filters() {
    let mut c = Config::new();
    c.master_games = true;
    let (base, params) = explorer_request(&"FEN".to_string(), &c);
    assert_eq!(base, "https://explorer.lichess.ovh/master");
    assert_eq!(params, vec![
        ("fen".to_string(), "FEN".to_string()),
        ("moves".to_string(), "50".to_string()),
    ]);
}

#[test]
fn explorer_request_for_public_carries_toggled_bands() {
    let mut c = Config::new();
    c.rating_1800 = false;
    c.bullet = false;
    let (base, params) = explorer_request(&"FEN".to_string(), &c);
    assert_eq!(base, "https://explorer.lichess.ovh/lichess");
    let keys: Vec<(&str, &str)> = params.iter().map(|p| (p.0.as_str(), p.1.as_str())).collect();
    assert_eq!(keys, vec![
        ("fen", "FEN"),
        ("moves", "50"),
        ("variant", "standard"),
        ("ratings[]", "1600"),
        ("ratings[]", "2000"),
        ("ratings[]", "2200"),
        ("ratings[]", "2500"),
        ("speeds[]", "blitz"),
        ("speeds[]", "rapid"),
        ("speeds[]", "classical"),
    ]);
}

#[test]
fn session_starts_with_the_initial_position_and_defaults() {
    let s = Session::new();
    assert_eq!(s.fen, STARTPOS);
    assert!(matches!(s.turn, Turn::White));
    assert_eq!(s.config.games_min, 30);
    assert_eq!(s.config.variants, 1);
    assert!(matches!(s.config.weightby, WeightBy::Random));
    assert!(!s.config.master_games);
}

#[test]
fn tokenize_splits_on_ascii_whitespace() {
    assert_eq!(tokenize("go depth 10"), vec!["go", "depth", "10"]);
    assert_eq!(tokenize("  a\t b  "), vec!["a", "b"]);
    assert!(tokenize("").is_empty());
    assert!(tokenize(" \t ").is_empty());
}

#[test]
fn join_rebuilds_a_command_line() {
    let args = toks(&["name", "Hash", "value", "128"]);
    assert_eq!(join_tokens("setoption", &args), "setoption name Hash value 128");
    assert_eq!(join_tokens("go", &toks(&[])), "go");
}

#[test]
fn trim_removes_leading_and_trailing_whitespace() {
    assert_eq!(trim_line("  uciok \t"), "uciok");
    assert_eq!(trim_line("readyok"), "readyok");
    assert_eq!(trim_line("   "), "");
}
