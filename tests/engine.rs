use snake_session::{
    policy_for, CollisionOutcome, EngineError, GameEngine, GameMode, LegacyProfile, ModePolicy,
    Point, Profile, ToolLoadout, ToolRegistry, CURRENT_SCHEMA_VERSION, DEFAULT_THRESHOLDS,
};

fn unlocked_profile() -> Profile {
    let mut profile = Profile::default();
    profile.invincible_cumulative_length = 200;
    let registry = ToolRegistry::demo();
    profile.apply_threshold_unlocks(&registry, &DEFAULT_THRESHOLDS);
    profile
}

fn ids(names: &[&str]) -> Vec<String> {
    names.iter().map(|s| s.to_string()).collect()
}

#[test]
fn policy_collision_outcomes_are_mode_scoped() {
    assert_eq!(
        policy_for(GameMode::Practice).collision_outcome(),
        CollisionOutcome::Die
    );
    assert_eq!(
        policy_for(GameMode::Challenge).collision_outcome(),
        CollisionOutcome::Die
    );
    assert_eq!(
        policy_for(GameMode::Experimental).collision_outcome(),
        CollisionOutcome::Die
    );
    assert_eq!(
        policy_for(GameMode::Invincible).collision_outcome(),
        CollisionOutcome::Reposition
    );
}

#[test]
fn mortal_collision_ends_immediately_with_optional_replay() {
    let mut engine = GameEngine::new(Profile::default());
    engine.enable_replay(true);
    let mut run = engine.start_run(GameMode::Practice, None).unwrap();

    engine
        .handle_collision(&mut run, Point { x: 0, y: 0 })
        .unwrap();

    assert!(run.ended);
    assert!(run.show_replay);
}

#[test]
fn invincible_collision_repositions_without_ending() {
    let mut engine = GameEngine::new(Profile::default());
    let mut run = engine.start_run(GameMode::Invincible, None).unwrap();
    let body = run.snake.clone();

    engine
        .handle_collision(&mut run, body[0])
        .expect("must reposition to safe tile");

    assert!(!run.ended);
    assert_eq!(run.grace_ticks_remaining, 1);
}

#[test]
fn challenge_leaderboard_orders_by_survival_time_first() {
    let mut engine = GameEngine::new(Profile::default());

    let mut short = engine.start_run(GameMode::Challenge, None).unwrap();
    short.metrics.survival_ticks = 30;
    short.metrics.food_eaten = 100;
    engine.finish_run(&short).unwrap();

    let mut long = engine.start_run(GameMode::Challenge, None).unwrap();
    long.metrics.survival_ticks = 60;
    long.metrics.food_eaten = 1;
    engine.finish_run(&long).unwrap();

    let rows = engine.leaderboards.rows(GameMode::Challenge);
    assert_eq!(rows[0].survival_ticks, 60);
}

#[test]
fn invincible_scores_are_isolated_from_other_modes() {
    let mut engine = GameEngine::new(Profile::default());

    let mut invincible = engine.start_run(GameMode::Invincible, None).unwrap();
    invincible.metrics.food_eaten = 10;
    engine.finish_run(&invincible).unwrap();

    let practice = engine.start_run(GameMode::Practice, None).unwrap();
    engine.finish_run(&practice).unwrap();

    assert_eq!(engine.leaderboards.rows(GameMode::Invincible).len(), 1);
    assert_eq!(engine.leaderboards.rows(GameMode::Practice).len(), 1);
    assert_eq!(engine.leaderboards.rows(GameMode::Challenge).len(), 0);
}

#[test]
fn invincible_growth_updates_cumulative_length_only_for_invincible() {
    let mut engine = GameEngine::new(Profile::default());

    let mut invincible = engine.start_run(GameMode::Invincible, None).unwrap();
    invincible.add_food(20);
    engine.finish_run(&invincible).unwrap();
    assert_eq!(engine.profile.invincible_cumulative_length, 20);

    let mut practice = engine.start_run(GameMode::Practice, None).unwrap();
    practice.add_food(99);
    engine.finish_run(&practice).unwrap();
    assert_eq!(engine.profile.invincible_cumulative_length, 20);
}

#[test]
fn threshold_unlocks_are_idempotent_and_deterministic() {
    let mut profile = Profile::default();
    let registry = ToolRegistry::demo();
    profile.invincible_cumulative_length = 80;

    profile.apply_threshold_unlocks(&registry, &DEFAULT_THRESHOLDS);
    let first = profile.unlocked_tool_ids.clone();

    profile.apply_threshold_unlocks(&registry, &DEFAULT_THRESHOLDS);
    let second = profile.unlocked_tool_ids.clone();

    assert_eq!(first, second);
    assert!(second.contains(&"turn-buffer".to_string()));
    assert!(second.contains(&"slow-window".to_string()));
    assert!(second.contains(&"soft-wrap".to_string()));
    assert!(!second.contains(&"rewind-step".to_string()));
}

#[test]
fn legacy_profile_migration_applies_defaults_and_guards_newer_schema() {
    let migrated = Profile::from_legacy(LegacyProfile {
        best_score: 123,
        replay_on_death: None,
        schema_version: Some(1),
    })
    .unwrap();
    assert_eq!(migrated.schema_version, CURRENT_SCHEMA_VERSION);
    assert_eq!(migrated.old_best_score, Some(123));

    let err = Profile::from_legacy(LegacyProfile {
        best_score: 0,
        replay_on_death: Some(true),
        schema_version: Some(CURRENT_SCHEMA_VERSION + 1),
    });
    assert!(err.is_err());
}

#[test]
fn experimental_loadout_requires_three_unlocked_tools() {
    let engine = GameEngine::new(unlocked_profile());
    let ok = engine.start_run(
        GameMode::Experimental,
        Some(ids(&["turn-buffer", "slow-window", "soft-wrap"])),
    );
    assert!(ok.is_ok());

    let bad_len = engine.start_run(GameMode::Experimental, Some(ids(&["turn-buffer"])));
    assert!(bad_len.is_err());
}

#[test]
fn locked_tools_cannot_be_equipped() {
    let engine = GameEngine::new(Profile::default());
    let run = engine.start_run(
        GameMode::Experimental,
        Some(ids(&["turn-buffer", "slow-window", "soft-wrap"])),
    );
    assert!(run.is_err());
}

#[test]
fn active_loadout_is_snapshot_and_immutable_during_run() {
    let engine = GameEngine::new(unlocked_profile());
    let mut run = engine
        .start_run(
            GameMode::Experimental,
            Some(ids(&["turn-buffer", "slow-window", "soft-wrap"])),
        )
        .unwrap();

    assert_eq!(
        run.runtime_loadout().unwrap().summary(),
        "turn-buffer+slow-window+soft-wrap"
    );

    let change_result = run.update_runtime_loadout(ToolLoadout {
        slots: [
            "turn-buffer".to_string(),
            "slow-window".to_string(),
            "rewind-step".to_string(),
        ],
    });
    assert!(change_result.is_err());
}

#[test]
fn challenge_rows_keep_mode_and_loadout_metadata() {
    let mut engine = GameEngine::new(unlocked_profile());
    let mut run = engine.start_run(GameMode::Challenge, None).unwrap();
    run.metrics.survival_ticks = 7;
    run.metrics.food_eaten = 2;
    engine.finish_run(&run).unwrap();

    let row = &engine.leaderboards.rows(GameMode::Challenge)[0];
    assert_eq!(row.mode, GameMode::Challenge);
    assert_eq!(row.loadout_summary, "none");
}

#[test]
fn no_daily_or_weekly_menu_surfaces_exist() {
    let engine = GameEngine::new(Profile::default());
    let items = engine.build_menu_items();
    assert!(!items.iter().any(|i| i.contains("Daily")));
    assert!(!items.iter().any(|i| i.contains("Weekly")));
}

#[test]
fn e2e_mode_rule_coverage() {
    let mut engine = GameEngine::new(unlocked_profile());

    let mut practice = engine.start_run(GameMode::Practice, None).unwrap();
    practice.tick();
    engine
        .handle_collision(&mut practice, Point { x: 0, y: 0 })
        .unwrap();
    assert!(practice.ended);

    let mut invincible = engine.start_run(GameMode::Invincible, None).unwrap();
    invincible.add_food(50);
    engine
        .handle_collision(&mut invincible, Point { x: 5, y: 5 })
        .unwrap();
    assert!(!invincible.ended);
    engine.finish_run(&invincible).unwrap();
    assert!(engine.profile.invincible_cumulative_length >= 50);
}

#[test]
fn error_variants_of_loadout_validation() {
    let engine = GameEngine::new(unlocked_profile());
    assert_eq!(
        engine.start_run(GameMode::Experimental, None).unwrap_err(),
        EngineError::LoadoutRequired
    );
    assert_eq!(
        engine
            .start_run(GameMode::Experimental, Some(ids(&["a", "b"])))
            .unwrap_err(),
        EngineError::InvalidSlotCount
    );
    assert_eq!(
        engine
            .start_run(
                GameMode::Experimental,
                Some(ids(&["turn-buffer", "laser", "soft-wrap"]))
            )
            .unwrap_err(),
        EngineError::UnknownTool("laser".to_string())
    );
    let locked = GameEngine::new(Profile::default());
    assert_eq!(
        locked
            .start_run(
                GameMode::Experimental,
                Some(ids(&["turn-buffer", "slow-window", "soft-wrap"]))
            )
            .unwrap_err(),
        EngineError::ToolLocked("turn-buffer".to_string())
    );
}

#[test]
fn practice_boundary_collision_ends_with_food_score() {
    let mut engine = GameEngine::new(Profile::default());
    let mut run = engine.start_run(GameMode::Practice, None).unwrap();
    run.add_food(1);
    run.add_food(1);
    run.add_food(1);
    engine
        .handle_collision(&mut run, Point { x: -1, y: 0 })
        .unwrap();
    assert!(run.ended);
    assert!(!run.show_replay);
    engine.finish_run(&run).unwrap();
    assert_eq!(engine.leaderboards.rows(GameMode::Practice)[0].score, 30);
}

#[test]
fn collision_after_end_is_refused() {
    let mut engine = GameEngine::new(Profile::default());
    let mut run = engine.start_run(GameMode::Challenge, None).unwrap();
    engine.handle_collision(&mut run, Point { x: 0, y: 0 }).unwrap();
    assert_eq!(
        engine.handle_collision(&mut run, Point { x: 0, y: 0 }),
        Err(EngineError::AlreadyEnded)
    );
}

#[test]
fn reposition_falls_back_to_first_free_cell() {
    let mut engine = GameEngine::new(Profile::default());
    let mut run = engine.start_run(GameMode::Invincible, None).unwrap();
    engine
        .handle_collision(&mut run, Point { x: -3, y: 2 })
        .unwrap();
    assert_eq!(run.snake[0], Point { x: 0, y: 0 });
    assert_eq!(run.snake.len(), 3);
}

#[test]
fn reposition_on_full_board_fails() {
    let mut engine = GameEngine::new(Profile::default());
    let mut run = engine.start_run(GameMode::Invincible, None).unwrap();
    run.board = snake_session::Board { width: 2, height: 1 };
    run.snake = vec![Point { x: 0, y: 0 }, Point { x: 1, y: 0 }];
    assert_eq!(
        engine.handle_collision(&mut run, Point { x: 0, y: 0 }),
        Err(EngineError::NoSafeRespawn)
    );
    assert!(!run.ended);
}

#[test]
fn invincible_grace_lasts_one_tick() {
    let mut engine = GameEngine::new(Profile::default());
    let mut run = engine.start_run(GameMode::Invincible, None).unwrap();
    engine
        .handle_collision(&mut run, Point { x: 8, y: 8 })
        .unwrap();
    assert_eq!(run.snake[0], Point { x: 8, y: 8 });
    assert_eq!(run.grace_ticks_remaining, 1);
    run.tick();
    assert_eq!(run.grace_ticks_remaining, 0);
    assert!(!run.ended);
}

#[test]
fn loadout_change_is_rejected_with_its_error() {
    let engine = GameEngine::new(Profile::default());
    let mut run = engine.start_run(GameMode::Practice, None).unwrap();
    let before = run.clone();
    let result = run.update_runtime_loadout(ToolLoadout {
        slots: ["a".to_string(), "b".to_string(), "c".to_string()],
    });
    assert_eq!(result, Err(EngineError::LoadoutImmutable));
    assert_eq!(run, before);
}

#[test]
fn newer_schema_is_refused_with_its_version() {
    let mut profile = Profile::default();
    profile.schema_version = 9;
    assert_eq!(
        snake_session::migrate_profile(profile),
        Err(EngineError::SchemaTooNew(9))
    );
}

#[test]
fn schema_zero_replay_flag_is_dropped() {
    let migrated = Profile::from_legacy(LegacyProfile {
        best_score: 5,
        replay_on_death: Some(true),
        schema_version: Some(0),
    })
    .unwrap();
    assert!(!migrated.replay_on_death);
    let kept = Profile::from_legacy(LegacyProfile {
        best_score: 5,
        replay_on_death: Some(true),
        schema_version: Some(1),
    })
    .unwrap();
    assert!(kept.replay_on_death);
}

#[test]
fn engine_falls_back_to_default_profile_on_newer_schema() {
    let mut profile = Profile::default();
    profile.schema_version = 7;
    profile.invincible_cumulative_length = 500;
    let engine = GameEngine::new(profile);
    assert_eq!(engine.profile.schema_version, CURRENT_SCHEMA_VERSION);
    assert_eq!(engine.profile.invincible_cumulative_length, 0);
    assert!(engine.profile.unlocked_tool_ids.is_empty());
}
