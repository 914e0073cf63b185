use snake_session::{
    points_touch_or_adjacent, Direction, GameMode, Point, PointerPos, Profile, RunningPhase,
    ScreenState, SnakeGuiApp, ToolRegistry, UiCommand, DEFAULT_THRESHOLDS, INITIAL_FOOD_COUNT,
    MAIN_MENU_ITEMS, MODES,
};

fn unlocked_profile() -> Profile {
    let mut profile = Profile::default();
    profile.invincible_cumulative_length = 200;
    profile.apply_threshold_unlocks(&ToolRegistry::demo(), &DEFAULT_THRESHOLDS);
    profile
}

fn at(x: i32, y: i32) -> PointerPos {
    PointerPos { x, y }
}

fn phase(app: &SnakeGuiApp) -> RunningPhase {
    app.running.as_ref().unwrap().phase
}

#[test]
fn state_machine_reaches_all_required_screens() {
    let mut app = SnakeGuiApp::new();
    assert_eq!(app.screen, ScreenState::MainMenu);

    app.apply_command(UiCommand::Confirm);
    assert_eq!(app.screen, ScreenState::ModeSelect);

    app.apply_command(UiCommand::Right);
    app.apply_command(UiCommand::Right);
    app.apply_command(UiCommand::Confirm);
    assert_eq!(app.screen, ScreenState::Loadout);

    app.apply_command(UiCommand::Back);
    assert_eq!(app.screen, ScreenState::ModeSelect);

    app.apply_command(UiCommand::Back);
    assert_eq!(app.screen, ScreenState::MainMenu);

    app.apply_command(UiCommand::Down);
    app.apply_command(UiCommand::Confirm);
    assert_eq!(app.screen, ScreenState::Leaderboard);

    app.apply_command(UiCommand::Back);
    app.apply_command(UiCommand::Down);
    app.apply_command(UiCommand::Confirm);
    assert_eq!(app.screen, ScreenState::Settings);
}

#[test]
fn direction_queue_applies_one_turn_per_tick() {
    let mut app = SnakeGuiApp::new();
    app.start_mode(GameMode::Practice, None);
    assert_eq!(app.screen, ScreenState::Running);

    app.enqueue_direction(Direction::Up);
    app.enqueue_direction(Direction::Left);

    let before = app.running.as_ref().unwrap().direction;
    assert_eq!(before, Direction::Right);

    app.step_running_tick();
    let after_first = app.running.as_ref().unwrap().direction;
    assert_eq!(after_first, Direction::Up);

    app.step_running_tick();
    let after_second = app.running.as_ref().unwrap().direction;
    assert_eq!(after_second, Direction::Left);
}

#[test]
fn gui_flow_can_start_and_complete_each_mode() {
    let mut app = SnakeGuiApp::with_profile(unlocked_profile());

    for mode in MODES {
        let requested = if mode == GameMode::Experimental {
            Some(vec![
                "turn-buffer".to_string(),
                "slow-window".to_string(),
                "soft-wrap".to_string(),
            ])
        } else {
            None
        };

        app.start_mode(mode, requested);
        assert_eq!(app.screen, ScreenState::Running);

        if mode == GameMode::Invincible {
            {
                let running = app.running.as_mut().unwrap();
                running.run.ended = true;
            }
            app.complete_running_session();
        } else {
            let (engine, running_opt) = (&mut app.engine, &mut app.running);
            let running = running_opt.as_mut().unwrap();
            engine
                .handle_collision(&mut running.run, Point { x: -1, y: 0 })
                .unwrap();
            app.complete_running_session();
        }

        assert_eq!(app.screen, ScreenState::Summary);
        assert!(app.summary.is_some());
        app.apply_command(UiCommand::Confirm);
        assert_eq!(app.screen, ScreenState::MainMenu);
    }
}

fn enter_pointer_idle_pause(app: &mut SnakeGuiApp) {
    app.start_mode(GameMode::Practice, None);
    assert_eq!(app.screen, ScreenState::Running);
    let outside_board = at(40, 90);
    app.apply_pointer_input(4_000, outside_board, 0);
    app.apply_pointer_input(7_000, outside_board, 0);
    assert_eq!(phase(app), RunningPhase::PointerIdlePause);
}

#[test]
fn pointer_idle_pause_enters_and_resumes_with_keyboard() {
    let mut app = SnakeGuiApp::new();
    enter_pointer_idle_pause(&mut app);

    app.apply_command(UiCommand::Up);

    let running = app.running.as_ref().unwrap();
    assert_eq!(running.phase, RunningPhase::Active);
    assert_eq!(
        running.queued_directions.front().copied(),
        Some(Direction::Up)
    );
}

#[test]
fn pointer_idle_pause_resumes_with_pointer_motion() {
    let mut app = SnakeGuiApp::new();
    enter_pointer_idle_pause(&mut app);

    app.apply_pointer_input(10_000, at(325, 320), 0);

    assert_eq!(phase(&app), RunningPhase::Active);
}

#[test]
fn pointer_edge_intent_does_not_trigger_idle_pause() {
    let mut app = SnakeGuiApp::new();
    app.start_mode(GameMode::Practice, None);
    assert_eq!(app.screen, ScreenState::Running);

    let hold_top_edge = at(470, 132);
    app.apply_pointer_input(10_000, hold_top_edge, 0);
    app.apply_pointer_input(300_000, hold_top_edge, 0);
    app.apply_pointer_input(300_000, hold_top_edge, 0);

    assert_eq!(phase(&app), RunningPhase::Active);
}

#[test]
fn pointer_hover_inside_board_does_not_trigger_idle_pause() {
    let mut app = SnakeGuiApp::new();
    app.start_mode(GameMode::Practice, None);
    assert_eq!(app.screen, ScreenState::Running);

    let inside_board = at(484, 306);
    app.apply_pointer_input(300_000, inside_board, 0);
    app.apply_pointer_input(300_000, inside_board, 0);

    assert_eq!(phase(&app), RunningPhase::Active);
}

#[test]
fn pointer_hover_outside_board_for_10ms_triggers_idle_pause() {
    let mut app = SnakeGuiApp::new();
    app.start_mode(GameMode::Practice, None);
    assert_eq!(app.screen, ScreenState::Running);

    let outside_board = at(40, 90);
    app.apply_pointer_input(5_000, outside_board, 0);
    assert_eq!(phase(&app), RunningPhase::Active);

    app.apply_pointer_input(5_000, outside_board, 0);
    assert_eq!(phase(&app), RunningPhase::PointerIdlePause);
}

#[test]
fn pointer_hover_inside_board_steers_toward_pointer() {
    let mut app = SnakeGuiApp::new();
    app.start_mode(GameMode::Practice, None);
    assert_eq!(app.screen, ScreenState::Running);

    // The head starts at (5,5); hovering above it asks for an Up turn.
    let inside_board_up = at(484, 210);
    app.apply_pointer_input(5_000, inside_board_up, 0);

    let queued = app
        .running
        .as_ref()
        .unwrap()
        .queued_directions
        .front()
        .copied();
    assert_eq!(queued, Some(Direction::Up));
    assert_eq!(phase(&app), RunningPhase::Active);
}

#[test]
fn initial_foods_are_non_contiguous() {
    let mut app = SnakeGuiApp::new();
    app.start_mode(GameMode::Practice, None);
    let foods = &app.running.as_ref().unwrap().foods;
    assert_eq!(foods.len(), INITIAL_FOOD_COUNT);

    for (i, food_a) in foods.iter().enumerate() {
        for food_b in foods.iter().skip(i + 1) {
            assert!(!points_touch_or_adjacent(*food_a, *food_b));
        }
    }
}

#[test]
fn pointer_navigation_matches_menu_traversal_and_confirmation() {
    let mut app = SnakeGuiApp::new();
    assert_eq!(app.screen, ScreenState::MainMenu);

    app.apply_pointer_input(10_000, at(110, 260), 0);
    assert_eq!(app.main_menu_cursor, 1);

    app.apply_pointer_input(500_000, at(110, 260), 0);
    assert_eq!(app.screen, ScreenState::Leaderboard);

    app.apply_command(UiCommand::Back);
    app.apply_pointer_input(10_000, at(110, 210), 0);
    app.apply_command(UiCommand::Confirm);
    assert_eq!(app.screen, ScreenState::ModeSelect);

    app.apply_pointer_input(10_000, at(760, 90), -1);
    assert_eq!(app.mode_cursor, 1);

    app.apply_pointer_input(10_000, at(760, 90), 1);
    assert_eq!(app.mode_cursor, 0);
}

#[test]
fn gui_menu_has_no_daily_weekly_or_literary_surfaces() {
    assert!(MAIN_MENU_ITEMS.iter().all(|item| !item.contains("Daily")
        && !item.contains("Weekly")
        && !item.contains("Literary")));
}

#[test]
fn direction_queue_rejects_reversal_repeat_and_overflow() {
    let mut app = SnakeGuiApp::new();
    app.start_mode(GameMode::Practice, None);
    app.enqueue_direction(Direction::Left);
    app.enqueue_direction(Direction::Right);
    assert!(app.running.as_ref().unwrap().queued_directions.is_empty());
    app.enqueue_direction(Direction::Up);
    app.enqueue_direction(Direction::Up);
    app.enqueue_direction(Direction::Down);
    assert_eq!(app.running.as_ref().unwrap().queued_directions.len(), 1);
    app.enqueue_direction(Direction::Left);
    app.enqueue_direction(Direction::Up);
    app.enqueue_direction(Direction::Right);
    let queue: Vec<Direction> = app
        .running
        .as_ref()
        .unwrap()
        .queued_directions
        .iter()
        .copied()
        .collect();
    assert_eq!(queue, vec![Direction::Up, Direction::Left, Direction::Up]);
}

#[test]
fn practice_boundary_collision_through_ticks_ends_session() {
    let mut app = SnakeGuiApp::new();
    app.start_mode(GameMode::Practice, None);
    app.enqueue_direction(Direction::Up);
    let mut finished = false;
    for _ in 0..20 {
        if app.step_running_tick() {
            finished = true;
            break;
        }
    }
    assert!(finished);
    assert_eq!(app.screen, ScreenState::Summary);
    let summary = app.summary.as_ref().unwrap();
    assert_eq!(summary.score, summary.food_eaten * 10);
}

#[test]
fn replay_phase_counts_down_then_summarizes() {
    let mut app = SnakeGuiApp::new();
    app.apply_command(UiCommand::Down);
    app.apply_command(UiCommand::Down);
    app.apply_command(UiCommand::Confirm);
    assert_eq!(app.screen, ScreenState::Settings);
    app.apply_command(UiCommand::Confirm);
    assert!(app.engine.profile.replay_on_death);
    app.apply_command(UiCommand::Back);
    app.start_mode(GameMode::Practice, None);
    app.enqueue_direction(Direction::Up);
    for _ in 0..20 {
        app.step_running_tick();
        if phase(&app) == RunningPhase::Replay {
            break;
        }
    }
    assert_eq!(phase(&app), RunningPhase::Replay);
    app.update_running(400_000);
    assert_eq!(app.screen, ScreenState::Running);
    app.update_running(500_000);
    assert_eq!(app.screen, ScreenState::Summary);
}

#[test]
fn fixed_timestep_runs_whole_ticks_only() {
    let mut app = SnakeGuiApp::new();
    app.start_mode(GameMode::Practice, None);
    app.update_running(400_000);
    let running = app.running.as_ref().unwrap();
    assert_eq!(running.run.metrics.survival_ticks, 2);
    assert_eq!(running.accumulator_micros, 40_000);
}

#[test]
fn back_while_running_ends_run_and_records_it() {
    let mut app = SnakeGuiApp::new();
    app.start_mode(GameMode::Challenge, None);
    app.apply_command(UiCommand::Back);
    assert_eq!(app.screen, ScreenState::Summary);
    assert!(app.running.is_none());
    assert_eq!(app.engine.leaderboards.rows(GameMode::Challenge).len(), 1);
    assert_eq!(app.leaderboard_mode_cursor, 1);
    app.apply_command(UiCommand::Right);
    assert_eq!(app.screen, ScreenState::Leaderboard);
}

#[test]
fn locked_experimental_start_returns_to_loadout() {
    let mut app = SnakeGuiApp::new();
    app.apply_command(UiCommand::Confirm);
    app.apply_command(UiCommand::Right);
    app.apply_command(UiCommand::Right);
    app.apply_command(UiCommand::Confirm);
    assert_eq!(app.screen, ScreenState::Loadout);
    app.apply_command(UiCommand::Confirm);
    assert_eq!(app.screen, ScreenState::Loadout);
    assert!(app.message.is_some());
}

#[test]
fn back_hotzone_dwell_goes_back_once() {
    let mut app = SnakeGuiApp::new();
    app.apply_command(UiCommand::Confirm);
    assert_eq!(app.screen, ScreenState::ModeSelect);
    app.apply_pointer_input(10_000, at(50, 40), 0);
    assert_eq!(app.screen, ScreenState::ModeSelect);
    app.apply_pointer_input(450_000, at(50, 40), 0);
    assert_eq!(app.screen, ScreenState::MainMenu);
    app.apply_pointer_input(450_000, at(50, 40), 0);
    assert_eq!(app.screen, ScreenState::MainMenu);
}
