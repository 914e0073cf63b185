use snake_session::{
    effects_from_loadout, lcg_next, next_food_position, next_respawn_position, policy_for,
    spawn_food_positions, ActiveEffects, Board, GameEngine, GameMode, LeaderboardEntry,
    Leaderboards, ModePolicy, Point, Profile, RunEnd, RunMetrics, ToolLoadout, ToolRegistry,
};

fn metrics(food: u64, ticks: u64) -> RunMetrics {
    RunMetrics {
        food_eaten: food,
        growth_units: 0,
        survival_ticks: ticks,
    }
}

fn entry(mode: GameMode, score: u64, ticks: u64, tag: &str) -> LeaderboardEntry {
    LeaderboardEntry {
        mode,
        score,
        survival_ticks: ticks,
        loadout_summary: tag.to_string(),
    }
}

#[test]
fn score_formulas_per_mode() {
    let plain = ActiveEffects::default();
    let bonus = ActiveEffects {
        score_bonus_percent: 15,
        ..ActiveEffects::default()
    };
    let m = metrics(7, 23);
    assert_eq!(policy_for(GameMode::Practice).score(&m, &bonus), 70);
    assert_eq!(policy_for(GameMode::Challenge).score(&m, &plain), 23_070);
    assert_eq!(
        policy_for(GameMode::Challenge).score(&m, &bonus),
        23_070 + 23_070 * 15 / 100
    );
    assert_eq!(policy_for(GameMode::Experimental).score(&m, &plain), 84 + 4);
    assert_eq!(policy_for(GameMode::Experimental).score(&m, &bonus), 88 + 13);
    assert_eq!(policy_for(GameMode::Invincible).score(&m, &plain), 56 + 2);
    assert_eq!(policy_for(GameMode::Invincible).score(&m, &bonus), 58 + 8);
}

#[test]
fn scores_saturate() {
    let m = metrics(u64::MAX, u64::MAX);
    let e = ActiveEffects {
        score_bonus_percent: 10,
        ..ActiveEffects::default()
    };
    assert_eq!(policy_for(GameMode::Practice).score(&m, &e), u64::MAX);
    assert_eq!(policy_for(GameMode::Challenge).score(&m, &e), u64::MAX);
    assert_eq!(policy_for(GameMode::Experimental).score(&m, &e), u64::MAX);
    assert_eq!(policy_for(GameMode::Invincible).score(&m, &e), u64::MAX);
}

#[test]
fn run_end_state_follows_replay_setting_for_mortal_modes() {
    for mode in [GameMode::Practice, GameMode::Challenge, GameMode::Experimental] {
        assert_eq!(
            policy_for(mode).run_end_state(true),
            RunEnd::End { show_replay: true }
        );
        assert_eq!(
            policy_for(mode).run_end_state(false),
            RunEnd::End { show_replay: false }
        );
    }
    assert_eq!(
        policy_for(GameMode::Invincible).run_end_state(true),
        RunEnd::Continue
    );
    assert_eq!(policy_for(GameMode::Invincible).mode(), GameMode::Invincible);
}

#[test]
fn replay_flag_decides_show_replay_on_death() {
    for replay in [true, false] {
        let mut engine = GameEngine::new(Profile::default());
        engine.enable_replay(replay);
        let mut run = engine.start_run(GameMode::Challenge, None).unwrap();
        engine
            .handle_collision(&mut run, Point { x: -1, y: 0 })
            .unwrap();
        assert!(run.ended);
        assert_eq!(run.show_replay, replay);
    }
}

#[test]
fn effects_come_from_loadout_slots() {
    let loadout = ToolLoadout {
        slots: [
            "soft-wrap".to_string(),
            "rewind-step".to_string(),
            "turn-buffer".to_string(),
        ],
    };
    let e = effects_from_loadout(Some(&loadout));
    assert_eq!(e.score_bonus_percent, 15);
    assert!(e.has_soft_wrap && e.has_rewind_step && e.has_turn_buffer);
    assert!(!e.has_slow_window);
    assert_eq!(effects_from_loadout(None), ActiveEffects::default());
}

#[test]
fn registry_lists_tools_by_id() {
    let registry = ToolRegistry::demo();
    let ids: Vec<&str> = registry.list().iter().map(|d| d.id.as_str()).collect();
    assert_eq!(ids, vec!["rewind-step", "slow-window", "soft-wrap", "turn-buffer"]);
    assert_eq!(registry.tool("soft-wrap").unwrap().unlock_threshold, Some(80));
    assert!(registry.tool("laser").is_none());
}

#[test]
fn challenge_board_ranks_by_ticks_then_score_and_keeps_ties_stable() {
    let mut boards = Leaderboards::default();
    boards.submit(entry(GameMode::Challenge, 10, 5, "a"));
    boards.submit(entry(GameMode::Challenge, 99, 3, "b"));
    boards.submit(entry(GameMode::Challenge, 20, 5, "c"));
    boards.submit(entry(GameMode::Challenge, 20, 5, "d"));
    let tags: Vec<&str> = boards
        .rows(GameMode::Challenge)
        .iter()
        .map(|r| r.loadout_summary.as_str())
        .collect();
    assert_eq!(tags, vec!["c", "d", "a", "b"]);
}

#[test]
fn other_boards_rank_by_score_only() {
    let mut boards = Leaderboards::default();
    boards.submit(entry(GameMode::Practice, 10, 500, "a"));
    boards.submit(entry(GameMode::Practice, 30, 1, "b"));
    boards.submit(entry(GameMode::Practice, 10, 900, "c"));
    let tags: Vec<&str> = boards
        .rows(GameMode::Practice)
        .iter()
        .map(|r| r.loadout_summary.as_str())
        .collect();
    assert_eq!(tags, vec!["b", "a", "c"]);
    assert!(boards.rows(GameMode::Experimental).is_empty());
}

#[test]
fn generator_step_is_the_documented_lcg() {
    assert_eq!(lcg_next(0), 1);
    assert_eq!(lcg_next(1), 6364136223846793006);
    assert_eq!(lcg_next(2), 6364136223846793005u64.wrapping_mul(2).wrapping_add(1));
}

#[test]
fn invincible_growth_unlocks_tools() {
    let mut engine = GameEngine::new(Profile::default());
    let mut run = engine.start_run(GameMode::Invincible, None).unwrap();
    for _ in 0..5 {
        run.add_food(10);
    }
    assert_eq!(run.metrics.growth_units, 50);
    engine.finish_run(&run).unwrap();
    assert!(engine.profile.invincible_cumulative_length >= 50);
    let unlocked = &engine.profile.unlocked_tool_ids;
    assert!(unlocked.contains(&"turn-buffer".to_string()));
    assert!(unlocked.contains(&"slow-window".to_string()));
    assert!(!unlocked.contains(&"soft-wrap".to_string()));
}

#[test]
fn tick_counts_and_saturates() {
    let engine = GameEngine::new(Profile::default());
    let mut run = engine.start_run(GameMode::Practice, None).unwrap();
    run.tick();
    assert_eq!(run.metrics.survival_ticks, 1);
    run.metrics.survival_ticks = u64::MAX;
    run.tick();
    assert_eq!(run.metrics.survival_ticks, u64::MAX);
}

#[test]
fn respawn_draw_scans_circularly_from_the_seed() {
    let board = Board { width: 3, height: 1 };
    let body = [Point { x: 0, y: 0 }];
    assert_eq!(
        next_respawn_position(5, board, &body),
        (Point { x: 2, y: 0 }, 6)
    );
    let body = [Point { x: 2, y: 0 }, Point { x: 1, y: 0 }];
    assert_eq!(
        next_respawn_position(4, board, &body),
        (Point { x: 0, y: 0 }, 5)
    );
    let full = [Point { x: 0, y: 0 }, Point { x: 1, y: 0 }, Point { x: 2, y: 0 }];
    assert_eq!(
        next_respawn_position(u64::MAX, board, &full),
        (Point { x: 0, y: 0 }, 0)
    );
}

#[test]
fn food_on_a_full_board_falls_back_to_the_head() {
    let board = Board { width: 1, height: 1 };
    let body = [Point { x: 0, y: 0 }];
    let (cell, next) = next_food_position(9, board, &body, &[]);
    assert_eq!(cell, Point { x: 0, y: 0 });
    assert_eq!(next, lcg_next(lcg_next(lcg_next(9))));
}

#[test]
fn food_fallback_ignores_spacing_but_not_occupancy() {
    let board = Board { width: 2, height: 1 };
    let body = [Point { x: 0, y: 0 }];
    let foods: [Point; 0] = [];
    let (cell, _) = next_food_position(1, board, &body, &foods);
    assert_eq!(cell, Point { x: 1, y: 0 });
    let board = Board { width: 3, height: 1 };
    let foods = [Point { x: 1, y: 0 }];
    let (cell, _) = next_food_position(3, board, &body, &foods);
    assert_eq!(cell, Point { x: 2, y: 0 });
}

#[test]
fn spawned_batch_has_requested_size_and_avoids_the_body() {
    let board = Board { width: 12, height: 12 };
    let body = [Point { x: 5, y: 5 }, Point { x: 4, y: 5 }, Point { x: 3, y: 5 }];
    let (foods, _) = spawn_food_positions(42, board, &body, &[], 6);
    assert_eq!(foods.len(), 6);
    for f in &foods {
        assert!(!body.contains(f));
        assert!(f.x >= 0 && f.x < 12 && f.y >= 0 && f.y < 12);
    }
    let (again, _) = spawn_food_positions(42, board, &body, &[], 6);
    assert_eq!(foods, again);
}
