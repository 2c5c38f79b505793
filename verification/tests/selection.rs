use lichessdbfish::cache::Cache;
use lichessdbfish::cache::get_position_info_cached;
use lichessdbfish::castle::fix_castle;
use lichessdbfish::config::Config;
use lichessdbfish::selector::get_position_move;
use lichessdbfish::selector::retained_moves;
use lichessdbfish::selector::select_move;
use lichessdbfish::selector::total_weight;
use lichessdbfish::config::SortBy;
use lichessdbfish::config::WeightBy;
use lichessdbfish::stats::MoveStats;
use lichessdbfish::stats::PositionInfo;
use lichessdbfish::stats::Turn;

fn mv(uci: &str, san: &str, white: u64, draws: u64, black: u64) -> MoveStats {
    MoveStats { uci: uci.to_string(), san: san.to_string(), white, draws, black }
}

fn pos(white: u64, draws: u64, black: u64, moves: Vec<MoveStats>) -> PositionInfo {
    PositionInfo { white, draws, black, moves }
}

#[test]
fn castle_rewrites_the_four_encodings() {
    assert_eq!(fix_castle(&"e1h1".to_string()), "e1g1");
    assert_eq!(fix_castle(&"e1a1".to_string()), "e1c1");
    assert_eq!(fix_castle(&"e8h8".to_string()), "e8g8");
    assert_eq!(fix_castle(&"e8a8".to_string()), "e8c8");
}

#[test]
fn castle_is_identity_elsewhere() {
    for s in ["e2e4", "e1g1", "e8c8", "a1h1", "", "bestmove"] {
        assert_eq!(fix_castle(&s.to_string()), s);
    }
}

#[test]
fn castle_is_idempotent_on_samples() {
    for s in ["e1h1", "e1a1", "e8h8", "e8a8", "e2e4", "e1g1"] {
        let once = fix_castle(&s.to_string());
        assert_eq!(fix_castle(&once), once);
    }
}

#[test]
fn filter_respects_min_sample_size() {
    let p = pos(50, 30, 20, vec![mv("e2e4", "e4", 20, 10, 10), mv("d2d4", "d4", 10, 5, 5), mv(
        "g1f3",
        "Nf3",
        3,
        2,
        1,
    )]);
    let mut c = Config::new();
    c.games_min = 20;
    c.games_pct_min = 0;
    c.score_pct_min = 0;
    c.variants = 10;
    let v = retained_moves(&p, &c, Turn::White);
    assert_eq!(v, vec![0, 1]);
}

#[test]
fn pipeline_len_is_at_most_variants_and_passing() {
    let p = pos(100, 0, 0, vec![
        mv("a", "a", 40, 0, 0),
        mv("b", "b", 30, 0, 0),
        mv("c", "c", 20, 0, 0),
        mv("d", "d", 5, 0, 0),
    ]);
    let mut c = Config::new();
    c.games_min = 10;
    c.games_pct_min = 0;
    c.score_pct_min = 0;
    c.variants = 2;
    let v = retained_moves(&p, &c, Turn::White);
    assert_eq!(v.len(), 2);
    c.variants = 50;
    let v = retained_moves(&p, &c, Turn::White);
    assert_eq!(v.len(), 3);
}

#[test]
fn zero_game_candidate_is_always_filtered_out() {
    let p = pos(10, 10, 10, vec![mv("e2e4", "e4", 0, 0, 0)]);
    let mut c = Config::new();
    c.games_min = 1;
    c.games_pct_min = 0;
    c.score_pct_min = 0;
    c.variants = 50;
    let v = retained_moves(&p, &c, Turn::White);
    assert!(v.is_empty());
    assert!(get_position_move(&c, Turn::White, &p).is_none());
}

#[test]
fn sort_by_games_is_descending_and_stable() {
    let p = pos(100, 0, 0, vec![
        mv("a", "a", 10, 0, 0),
        mv("b", "b", 30, 0, 0),
        mv("c", "c", 5, 5, 0),
        mv("d", "d", 30, 0, 0),
    ]);
    let mut c = Config::new();
    c.games_min = 1;
    c.games_pct_min = 0;
    c.score_pct_min = 0;
    c.variants = 50;
    c.sortby = SortBy::Games;
    let v = retained_moves(&p, &c, Turn::White);
    assert_eq!(v, vec![1, 3, 0, 2]);
}

#[test]
fn sort_by_score_uses_side_adjusted_percent() {
    // White to move: score percents are 100, 0, 50.
    let p = pos(30, 0, 30, vec![
        mv("a", "a", 10, 0, 0),
        mv("b", "b", 0, 0, 10),
        mv("c", "c", 5, 0, 5),
    ]);
    let mut c = Config::new();
    c.games_min = 1;
    c.games_pct_min = 0;
    c.score_pct_min = 0;
    c.variants = 50;
    c.sortby = SortBy::Score;
    let v = retained_moves(&p, &c, Turn::White);
    assert_eq!(v, vec![0, 2, 1]);
    let v = retained_moves(&p, &c, Turn::Black);
    assert_eq!(v, vec![1, 2, 0]);
}

#[test]
fn selection_draw_walks_cumulative_weights() {
    let p = pos(40, 0, 0, vec![mv("a", "a", 3, 0, 0), mv("b", "b", 1, 0, 0)]);
    let mut c = Config::new();
    c.games_min = 1;
    c.games_pct_min = 0;
    c.score_pct_min = 0;
    c.variants = 50;
    c.weightby = WeightBy::Games;
    let v = retained_moves(&p, &c, Turn::White);
    assert_eq!(total_weight(&p, &c, Turn::White, &v), 4);
    for draw in 0..3 {
        assert_eq!(select_move(&p, &c, Turn::White, &v, draw).uci, "a");
    }
    assert_eq!(select_move(&p, &c, Turn::White, &v, 3).uci, "b");
}

#[test]
fn selection_uniform_weighting_counts_each_candidate_once() {
    let p = pos(40, 0, 0, vec![mv("a", "a", 3, 0, 0), mv("b", "b", 1, 0, 0)]);
    let mut c = Config::new();
    c.games_min = 1;
    c.games_pct_min = 0;
    c.score_pct_min = 0;
    c.variants = 50;
    c.weightby = WeightBy::Random;
    let v = retained_moves(&p, &c, Turn::White);
    assert_eq!(total_weight(&p, &c, Turn::White, &v), 2);
    assert_eq!(select_move(&p, &c, Turn::White, &v, 0).uci, "a");
    assert_eq!(select_move(&p, &c, Turn::White, &v, 1).uci, "b");
}

#[test]
fn selection_output_is_castling_fixed() {
    let p = pos(10, 0, 0, vec![mv("e1h1", "O-O", 10, 0, 0)]);
    let mut c = Config::new();
    c.games_min = 1;
    c.games_pct_min = 0;
    c.score_pct_min = 0;
    c.variants = 1;
    let v = retained_moves(&p, &c, Turn::White);
    let m = select_move(&p, &c, Turn::White, &v, 0);
    assert_eq!(m.uci, "e1g1");
    assert_eq!(m.san, "O-O");
    assert_eq!((m.white, m.draws, m.black), (10, 0, 0));
}

#[test]
fn zero_total_weight_yields_no_move() {
    // White to move, the only candidate loses every game: score weight 0.
    let p = pos(0, 0, 40, vec![mv("a", "a", 0, 0, 40)]);
    let mut c = Config::new();
    c.games_min = 1;
    c.games_pct_min = 0;
    c.score_pct_min = 0;
    c.variants = 50;
    c.weightby = WeightBy::Score;
    assert!(get_position_move(&c, Turn::White, &p).is_none());
}

#[test]
fn initial_position_master_defaults_return_one_well_sampled_move() {
    // Defaults: min sample 30, one retained variant, uniform weighting.
    let mut c = Config::new();
    c.master_games = true;
    let p = pos(100, 50, 50, vec![
        mv("e2e4", "e4", 40, 20, 20),
        mv("d2d4", "d4", 20, 10, 10),
        mv("f2f3", "f3", 5, 3, 2),
    ]);
    let m = get_position_move(&c, Turn::White, &p).expect("a book move is owed");
    assert_eq!(m.uci, "e2e4");
    let v = retained_moves(&p, &c, Turn::White);
    assert_eq!(v.len(), 1);
}

#[test]
fn cache_returns_the_shared_instance_without_refetching() {
    let mut cache = Cache::new();
    let fen = "startpos-key".to_string();
    let first = get_position_info_cached(&mut cache, &fen, Some(pos(1, 2, 3, vec![])))
        .expect("stored on miss");
    assert!(cache.contains(&fen));
    // The second query needs no fetched value and returns the same instance.
    let second = get_position_info_cached(&mut cache, &fen, None).expect("hit");
    assert!(std::rc::Rc::ptr_eq(&first, &second));
    assert_eq!((second.white, second.draws, second.black), (1, 2, 3));
}

#[test]
fn cache_does_not_store_failures() {
    let mut cache = Cache::new();
    let fen = "some-key".to_string();
    assert!(get_position_info_cached(&mut cache, &fen, None).is_none());
    assert!(!cache.contains(&fen));
    // A later query re-attempts the fetch and can then store.
    let stored = get_position_info_cached(&mut cache, &fen, Some(pos(7, 0, 0, vec![])));
    assert!(stored.is_some());
    assert!(cache.contains(&fen));
}

#[test]
fn cache_keeps_distinct_keys_apart() {
    let mut cache = Cache::new();
    let k1 = "key-one".to_string();
    let k2 = "key-two".to_string();
    let p1 = get_position_info_cached(&mut cache, &k1, Some(pos(1, 0, 0, vec![]))).unwrap();
    let p2 = get_position_info_cached(&mut cache, &k2, Some(pos(2, 0, 0, vec![]))).unwrap();
    assert!(!std::rc::Rc::ptr_eq(&p1, &p2));
    let again = get_position_info_cached(&mut cache, &k1, None).unwrap();
    assert_eq!(again.white, 1);
}
