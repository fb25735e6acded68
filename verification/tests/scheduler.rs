use usnake::game::{Game, GameState, Point, PointSeed};
use usnake::io_controller::{DisplayCommand, IOController};
use usnake::joystick::{Direction, Joystick};
use usnake::scheduler::{
    delay_cycles, due, game_over, game_tick, idle_screen, next_deadline, reached, IdleScreen,
    Next, Resources, Task, FLASH_SCREEN_COUNT, GAME_OVER_PERIOD_MS, GAME_TICK_PERIOD_MS,
    IDLE_SCREEN_PERIOD_MS,
};

const SYSCLK_HZ: u32 = 72_000_000;

fn at(x: u8, y: u8) -> Point {
    Point { x, y }
}

fn seed_for(wanted: u8) -> u64 {
    let mut seed: u64 = 0;
    loop {
        let mut state = seed;
        if wyhash::wyrng(&mut state) % 8 == u64::from(wanted) {
            return seed;
        }
        seed += 1;
    }
}

fn seeds_for(p: Point) -> PointSeed {
    PointSeed { x: seed_for(p.x), y: seed_for(p.y) }
}

/// Resources with a display that is asleep, as after start-up.
fn resources(game: Game) -> Resources {
    let joystick = Joystick::from_pins(2000, &[(2000, 2000); 64]);
    let (mut io_controller, commands) = IOController::from(joystick);
    for command in commands.iter() {
        io_controller.acknowledge(command);
    }
    Resources { game, io_controller, sysclk_hz: SYSCLK_HZ }
}

#[test]
fn the_periods_and_the_flash_count() {
    assert_eq!(IDLE_SCREEN_PERIOD_MS, 150);
    assert_eq!(GAME_TICK_PERIOD_MS, 200);
    assert_eq!(GAME_OVER_PERIOD_MS, 500);
    assert_eq!(FLASH_SCREEN_COUNT, 10);
}

#[test]
fn delay_cycles_is_the_period_times_the_frequency() {
    assert_eq!(delay_cycles(150, 72_000_000), 10_800_000);
    assert_eq!(delay_cycles(200, 72_000_000), 14_400_000);
    assert_eq!(delay_cycles(500, 72_000_000), 36_000_000);
    assert_eq!(delay_cycles(150, 8_000_000), 1_200_000);
    assert_eq!(delay_cycles(1000, 1), 1);
    assert_eq!(delay_cycles(999, 1), 0);
    assert_eq!(delay_cycles(1, 1999), 1);
    assert_eq!(delay_cycles(0, SYSCLK_HZ), 0);
    assert_eq!(delay_cycles(200, 0), 0);
}

#[test]
fn delay_cycles_stops_at_the_largest_count() {
    assert_eq!(delay_cycles(1000, u32::MAX), u32::MAX);
    assert_eq!(delay_cycles(1001, u32::MAX), u32::MAX);
    assert_eq!(delay_cycles(u32::MAX, u32::MAX), u32::MAX);
    assert_eq!(delay_cycles(500, u32::MAX), 2_147_483_647);
}

#[test]
fn next_deadline_counts_from_the_deadline_that_was_set() {
    assert_eq!(next_deadline(0, 150, SYSCLK_HZ), 10_800_000);
    assert_eq!(next_deadline(10_800_000, 150, SYSCLK_HZ), 21_600_000);
    assert_eq!(next_deadline(1_000, 200, SYSCLK_HZ), 14_401_000);
    let mut due = 0u32;
    for n in 1..=20u32 {
        due = next_deadline(due, 200, SYSCLK_HZ);
        assert_eq!(due, n * 14_400_000);
    }
}

#[test]
fn next_deadline_wraps_with_the_cycle_counter() {
    assert_eq!(next_deadline(0xffff_ff00, 200, SYSCLK_HZ), 14_399_744);
    assert_eq!(next_deadline(u32::MAX, 1000, 1), 0);
    assert_eq!(next_deadline(u32::MAX - 36_000_000, 500, SYSCLK_HZ), u32::MAX);
    assert_eq!(next_deadline(u32::MAX - 36_000_000 + 1, 500, SYSCLK_HZ), 0);
}

#[test]
fn the_idle_pattern_counts_each_row_up() {
    let mut screen = IdleScreen::new();
    assert_eq!(screen.rows(), [0, 1, 2, 3, 4, 5, 6, 7]);
    screen.advance();
    assert_eq!(screen.rows(), [1, 2, 3, 4, 5, 6, 7, 8]);
    screen.advance();
    assert_eq!(screen.rows(), [2, 3, 4, 5, 6, 7, 8, 9]);
}

#[test]
fn the_idle_pattern_starts_again_after_254() {
    let mut screen = IdleScreen::new();
    for _ in 0..247 {
        screen.advance();
    }
    assert_eq!(screen.rows(), [247, 248, 249, 250, 251, 252, 253, 254]);
    screen.advance();
    assert_eq!(screen.rows(), [248, 249, 250, 251, 252, 253, 254, 0]);
    for _ in 0..7 {
        screen.advance();
    }
    assert_eq!(screen.rows(), [0, 1, 2, 3, 4, 5, 6, 7]);
}

#[test]
fn idle_screen_comes_back_one_period_later_while_nothing_is_pressed() {
    let mut screen = IdleScreen::new();
    let mut shared = resources(Game::start_at(at(1, 1), at(2, 2)));
    shared.game.step(None, at(0, 0));
    let out = idle_screen(&mut screen, &mut shared, false, seeds_for(at(5, 5)), seeds_for(at(6, 6)), 1_000);
    assert_eq!(out.next, Next::Schedule(Task::IdleScreen, 10_801_000));
    assert_eq!(
        out.commands,
        vec![DisplayCommand::PowerOn, DisplayCommand::Write([0, 1, 2, 3, 4, 5, 6, 7])]
    );
    assert_eq!(screen.rows(), [1, 2, 3, 4, 5, 6, 7, 8]);
    assert_eq!(shared.game.snake().cells(), vec![at(2, 1)]);
    assert_eq!(shared.game.fruit(), at(2, 2));
    assert_eq!(shared.sysclk_hz, SYSCLK_HZ);
    assert!(!shared.io_controller.display_is_on());
}

#[test]
fn idle_screen_shows_each_pattern_in_turn() {
    let mut screen = IdleScreen::new();
    let mut shared = resources(Game::start_at(at(1, 1), at(2, 2)));
    shared.io_controller.acknowledge(&DisplayCommand::PowerOn);
    let mut due = 0u32;
    for n in 0..5u8 {
        let out = idle_screen(&mut screen, &mut shared, false, seeds_for(at(0, 0)), seeds_for(at(0, 0)), due);
        let rows = [n, n + 1, n + 2, n + 3, n + 4, n + 5, n + 6, n + 7];
        assert_eq!(out.commands, vec![DisplayCommand::Write(rows)]);
        assert_eq!(out.next, Next::Schedule(Task::IdleScreen, due + 10_800_000));
        due += 10_800_000;
    }
}

#[test]
fn idle_screen_starts_a_game_when_pressed() {
    let mut screen = IdleScreen::new();
    let mut shared = resources(Game::start_at(at(1, 1), at(2, 2)));
    shared.game.step(Some(Direction::North), at(0, 0));
    let out = idle_screen(&mut screen, &mut shared, true, seeds_for(at(5, 3)), seeds_for(at(6, 4)), 1_000);
    assert_eq!(out.next, Next::Spawn(Task::GameTick));
    assert_eq!(
        out.commands,
        vec![DisplayCommand::PowerOn, DisplayCommand::Write([0, 1, 2, 3, 4, 5, 6, 7])]
    );
    assert_eq!(screen.rows(), [1, 2, 3, 4, 5, 6, 7, 8]);
    assert_eq!(shared.game.state(), GameState::Running);
    assert_eq!(shared.game.snake().cells(), vec![at(5, 3)]);
    assert_eq!(shared.game.snake().direction(), Direction::West);
    assert_eq!(shared.game.fruit(), at(6, 4));
}

#[test]
fn game_tick_plays_and_comes_back_one_period_later() {
    let mut shared = resources(Game::start_at(at(4, 4), at(1, 6)));
    let out = game_tick(&mut shared, &[(2000, 2000); 16], seeds_for(at(0, 0)), 5_000);
    assert_eq!(out.state, GameState::Running);
    assert_eq!(out.score, 0);
    assert_eq!(out.next, Next::Schedule(Task::GameTick, 14_405_000));
    assert_eq!(out.frame, [0, 0, 0, 0, 0b0010_0000, 0, 0b0000_0010, 0]);
    assert_eq!(out.commands, vec![DisplayCommand::PowerOn, DisplayCommand::Write(out.frame)]);
    assert_eq!(shared.game.snake().cells(), vec![at(5, 4)]);
    assert!(!shared.io_controller.display_is_on());
}

#[test]
fn game_tick_steers_by_the_joystick() {
    let mut shared = resources(Game::start_at(at(4, 4), at(1, 6)));
    shared.io_controller.acknowledge(&DisplayCommand::PowerOn);
    let out = game_tick(&mut shared, &[(2000, 100); 16], seeds_for(at(0, 0)), 0);
    assert_eq!(shared.game.snake().cells(), vec![at(4, 3)]);
    assert_eq!(out.commands, vec![DisplayCommand::Write(out.frame)]);
    game_tick(&mut shared, &[(4000, 2000); 16], seeds_for(at(0, 0)), 0);
    assert_eq!(shared.game.snake().cells(), vec![at(3, 3)]);
    game_tick(&mut shared, &[(4000, 4000); 16], seeds_for(at(0, 0)), 0);
    assert_eq!(shared.game.snake().cells(), vec![at(2, 3)]);
    game_tick(&mut shared, &[(2000, 4000); 16], seeds_for(at(0, 0)), 0);
    assert_eq!(shared.game.snake().cells(), vec![at(2, 4)]);
    game_tick(&mut shared, &[(2000, 100); 16], seeds_for(at(0, 0)), 0);
    assert_eq!(shared.game.snake().cells(), vec![at(2, 5)]);
}

#[test]
fn game_tick_places_the_next_fruit_by_its_seeds() {
    let mut shared = resources(Game::start_at(at(4, 4), at(4, 4)));
    let out = game_tick(&mut shared, &[(2000, 2000); 16], seeds_for(at(3, 7)), 0);
    assert_eq!(out.score, 1);
    assert_eq!(shared.game.fruit(), at(3, 7));
    assert_eq!(out.frame, [0, 0, 0, 0, 0b0011_0000, 0, 0, 0b0000_1000]);
}

#[test]
fn game_tick_hands_over_when_the_game_ends() {
    let mut game = Game::start_at(at(0, 0), at(0, 0));
    game.step(None, at(1, 0));
    game.step(None, at(2, 0));
    game.step(None, at(3, 0));
    game.step(None, at(7, 7));
    game.step(Some(Direction::South), at(6, 6));
    game.step(Some(Direction::East), at(6, 6));
    let mut shared = resources(game);
    let north = [(2000u16, 100u16); 16];
    let out = game_tick(&mut shared, &north, seeds_for(at(0, 0)), 77);
    assert_eq!(out.state, GameState::GameOver);
    assert_eq!(out.score, 4);
    assert_eq!(out.next, Next::Spawn(Task::GameOver));
    assert_eq!(out.frame, [0b0001_1000, 0b0001_1000, 0, 0, 0, 0, 0, 0b1000_0000]);
    assert_eq!(shared.game.state(), GameState::GameOver);
}

#[test]
fn game_over_flashes_ten_times_and_then_hands_over() {
    let mut shared = resources(Game::start_at(at(0, 0), at(1, 1)));
    shared.io_controller.acknowledge(&DisplayCommand::PowerOn);
    let mut count = 0u8;
    let mut due = 3u32;
    for flash in 1..=10u8 {
        let out = game_over(&mut count, &shared, due);
        assert_eq!(count, flash);
        let expected = if flash % 2 == 1 { DisplayCommand::PowerOff } else { DisplayCommand::PowerOn };
        assert_eq!(out.command, Some(expected));
        assert_eq!(out.next, Next::Schedule(Task::GameOver, due + 36_000_000));
        shared.io_controller.acknowledge(&expected);
        due += 36_000_000;
    }
    assert!(shared.io_controller.display_is_on());
    let out = game_over(&mut count, &shared, due);
    assert_eq!(count, 0);
    assert_eq!(out.command, None);
    assert_eq!(out.next, Next::Spawn(Task::IdleScreen));
    assert!(shared.io_controller.display_is_on());
    // The count starts anew for the next game.
    let out = game_over(&mut count, &shared, due);
    assert_eq!(count, 1);
    assert_eq!(out.command, Some(DisplayCommand::PowerOff));
}

#[test]
fn the_tasks_follow_each_other_in_a_cycle() {
    let mut screen = IdleScreen::new();
    let mut shared = resources(Game::start_at(at(0, 0), at(0, 0)));
    let idle = [(2000u16, 2000u16); 16];
    let fruit = seeds_for(at(7, 7));

    let out = idle_screen(&mut screen, &mut shared, false, fruit, fruit, 0);
    assert_eq!(out.next, Next::Schedule(Task::IdleScreen, 10_800_000));
    let out = idle_screen(&mut screen, &mut shared, true, seeds_for(at(0, 0)), seeds_for(at(0, 0)), 10_800_000);
    assert_eq!(out.next, Next::Spawn(Task::GameTick));

    // A snake that only ever heads West and eats its first fruit runs
    // round the row and never meets itself: two cells on eight.
    let mut due = 10_800_000u32;
    for _ in 0..20 {
        let out = game_tick(&mut shared, &idle, fruit, due);
        due += 14_400_000;
        assert_eq!(out.next, Next::Schedule(Task::GameTick, due));
    }
    assert_eq!(shared.game.score(), 1);
}

#[test]
fn a_spawned_task_keeps_the_deadline_and_a_scheduled_one_brings_its_own() {
    assert_eq!(due(Next::Spawn(Task::GameTick), 1_234), (Task::GameTick, 1_234));
    assert_eq!(due(Next::Spawn(Task::IdleScreen), 0), (Task::IdleScreen, 0));
    assert_eq!(due(Next::Schedule(Task::GameOver, 36_000_000), 1_234), (Task::GameOver, 36_000_000));
    assert_eq!(due(Next::Schedule(Task::IdleScreen, 5), u32::MAX), (Task::IdleScreen, 5));
}

#[test]
fn a_game_tick_spawned_by_the_idle_screen_counts_from_its_deadline() {
    let mut screen = IdleScreen::new();
    let mut shared = resources(Game::start_at(at(0, 0), at(5, 5)));
    let out = idle_screen(&mut screen, &mut shared, true, seeds_for(at(0, 0)), seeds_for(at(5, 5)), 21_600_000);
    let (task, scheduled) = due(out.next, 21_600_000);
    assert_eq!(task, Task::GameTick);
    assert_eq!(scheduled, 21_600_000);
    let out = game_tick(&mut shared, &[(2000, 2000); 16], seeds_for(at(0, 0)), scheduled);
    assert_eq!(due(out.next, scheduled), (Task::GameTick, 36_000_000));
}

#[test]
fn a_deadline_is_reached_from_its_cycle_on() {
    assert!(reached(100, 100));
    assert!(reached(101, 100));
    assert!(!reached(99, 100));
    assert!(!reached(0, 14_400_000));
    assert!(reached(14_400_000, 14_400_000));
    assert!(reached(0x8000_0063, 100));
    assert!(!reached(0x8000_0064, 100));
}

#[test]
fn a_deadline_beyond_the_wrap_of_the_counter_is_still_to_come() {
    let deadline = next_deadline(0xffff_ff00, 200, SYSCLK_HZ);
    assert_eq!(deadline, 14_399_744);
    assert!(!reached(0xffff_ff00, deadline));
    assert!(!reached(u32::MAX, deadline));
    assert!(!reached(0, deadline));
    assert!(!reached(14_399_743, deadline));
    assert!(reached(14_399_744, deadline));
    assert!(reached(5, 0xffff_fff0));
}
