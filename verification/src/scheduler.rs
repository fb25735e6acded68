use crate::game::{lit, seeded_point, Game, GameState, GameView, Point, PointSeed};
use crate::io_controller::{power_after, write_commands, DisplayCommand, IOController};
use crate::joystick::mean;
use vstd::prelude::*;

verus! {

/// The period of the idle screen, in milliseconds.
pub const IDLE_SCREEN_PERIOD_MS: u32 = 150;

/// The period of the game, in milliseconds.
pub const GAME_TICK_PERIOD_MS: u32 = 200;

/// The period at which the display flashes when a game is over, in
/// milliseconds.
pub const GAME_OVER_PERIOD_MS: u32 = 500;

/// How many times the display is switched when a game is over.
pub const FLASH_SCREEN_COUNT: u8 = 10;

/// The three tasks. Exactly one of them is due at any time.
#[derive(Clone, Copy, Debug, PartialEq, Eq, Structural)]
pub enum Task {
    /// Shows a moving pattern until the joystick is pressed.
    IdleScreen,
    /// Plays one tick of the game.
    GameTick,
    /// Flashes the display after a game.
    GameOver,
}

/// What a task asks for when it returns.
#[derive(Clone, Copy, Debug, PartialEq, Eq, Structural)]
pub enum Next {
    /// Run the task at once.
    Spawn(Task),
    /// Run the task when the cycle counter reaches the deadline.
    Schedule(Task, u32),
}

impl Task {
    /// The task that takes over when this one is done: the idle screen
    /// hands over to the game, the game to the flashing, and the flashing to
    /// the idle screen.
    pub open spec fn successor(self) -> Task {
        match self {
            Task::IdleScreen => Task::GameTick,
            Task::GameTick => Task::GameOver,
            Task::GameOver => Task::IdleScreen,
        }
    }

    /// Whether `next` is open to the task: to run again at a deadline, or to
    /// have its successor run at once.
    pub open spec fn permits(self, next: Next) -> bool {
        match next {
            Next::Schedule(task, _) => task == self,
            Next::Spawn(task) => task == self.successor(),
        }
    }
}

/// The state shared by the tasks.
pub struct Resources {
    pub game: Game,
    pub io_controller: IOController,
    pub sysclk_hz: u32,
}

/// The clock cycles in `period_ms` milliseconds at `sysclk_hz` cycles a
/// second, fractions dropped, and no more than a `u32` holds.
pub open spec fn delay(period_ms: u32, sysclk_hz: u32) -> u32 {
    if period_ms * sysclk_hz / 1000 > u32::MAX {
        u32::MAX
    } else {
        (period_ms * sysclk_hz / 1000) as u32
    }
}

/// The deadline one period after the deadline `scheduled`, on a cycle
/// counter that starts again from 0 after `u32::MAX`.
pub open spec fn deadline(scheduled: u32, period_ms: u32, sysclk_hz: u32) -> u32 {
    if scheduled + delay(period_ms, sysclk_hz) > u32::MAX {
        (scheduled + delay(period_ms, sysclk_hz) - 0x1_0000_0000) as u32
    } else {
        (scheduled + delay(period_ms, sysclk_hz)) as u32
    }
}

/// The clock cycles in `period_ms` milliseconds.
pub fn delay_cycles(period_ms: u32, sysclk_hz: u32) -> (cycles: u32)
    ensures
        cycles == delay(period_ms, sysclk_hz),
{
    assert(period_ms * sysclk_hz <= 0xffff_ffff * 0xffff_ffff) by (nonlinear_arith)
        requires
            period_ms <= 0xffff_ffff,
            sysclk_hz <= 0xffff_ffff,
    ;
    let cycles: u64 = period_ms as u64 * sysclk_hz as u64 / 1000;
    if cycles > u32::MAX as u64 {
        u32::MAX
    } else {
        cycles as u32
    }
}

/// The deadline of a task that was due at `scheduled` and is due again one
/// period later. It is counted from the deadline that was set, not from the
/// time at which the task ran, so that the period does not drift.
pub fn next_deadline(scheduled: u32, period_ms: u32, sysclk_hz: u32) -> (due: u32)
    ensures
        due == deadline(scheduled, period_ms, sysclk_hz),
{
    scheduled.wrapping_add(delay_cycles(period_ms, sysclk_hz))
}

/// Whether the cycle counter, which reads `now`, has come to `deadline`.
/// The counter starts again from 0 after `u32::MAX`, so a deadline counts
/// as reached for half a turn of the counter after it, and as still to
/// come for the half turn before it.
pub open spec fn is_reached(now: u32, deadline: u32) -> bool {
    (now - deadline) % 0x1_0000_0000 < 0x8000_0000
}

/// Whether the cycle counter has come to `deadline`.
pub fn reached(now: u32, deadline: u32) -> (r: bool)
    ensures
        r == is_reached(now, deadline),
{
    now.wrapping_sub(deadline) < 0x8000_0000
}

/// The task that runs next, and the deadline that it is given. A task that
/// was spawned runs at once and takes over the deadline `scheduled` of the
/// task that spawned it; a task that was scheduled runs at its own
/// deadline.
pub fn due(next: Next, scheduled: u32) -> (r: (Task, u32))
    ensures
        r == match next {
            Next::Spawn(task) => (task, scheduled),
            Next::Schedule(task, deadline) => (task, deadline),
        },
{
    match next {
        Next::Spawn(task) => (task, scheduled),
        Next::Schedule(task, deadline) => (task, deadline),
    }
}

/// The deadline `n` periods after the deadline `first`, each one counted
/// from the one before.
pub open spec fn nth_deadline(first: u32, period_ms: u32, sysclk_hz: u32, n: nat) -> u32
    decreases n,
{
    if n == 0 {
        first
    } else {
        deadline(nth_deadline(first, period_ms, sysclk_hz, (n - 1) as nat), period_ms, sysclk_hz)
    }
}

/// Deadlines do not drift: the deadline `n` periods after the first lies
/// exactly `n` times the delay after it, on the wrapping cycle counter.
pub proof fn lemma_deadlines_do_not_drift(first: u32, period_ms: u32, sysclk_hz: u32, n: nat)
    ensures
        nth_deadline(first, period_ms, sysclk_hz, n) == (first + n * delay(period_ms, sysclk_hz))
            % 0x1_0000_0000,
    decreases n,
{
    let d = delay(period_ms, sysclk_hz) as int;
    if n == 0 {
        assert(n * d == 0) by (nonlinear_arith)
            requires
                n == 0,
        ;
    } else {
        let before = (n - 1) as nat;
        lemma_deadlines_do_not_drift(first, period_ms, sysclk_hz, before);
        let sum = first + before * d;
        assert(first + n * d == sum + d) by (nonlinear_arith)
            requires
                n == before + 1,
                sum == first + before * d,
        ;
        vstd::arithmetic::div_mod::lemma_add_mod_noop(sum, d, 0x1_0000_0000);
    }
}

/// The pattern on the idle screen.
pub struct IdleScreen {
    screen: [u8; 8],
}

impl View for IdleScreen {
    type V = Seq<u8>;

    closed spec fn view(&self) -> Seq<u8> {
        self.screen@
    }
}

/// The pattern that follows `rows`: each row counts up, and starts again
/// from 0 after 254.
pub open spec fn next_pattern(rows: Seq<u8>) -> Seq<u8> {
    Seq::new(rows.len(), |i: int| ((rows[i] + 1) % 255) as u8)
}

impl IdleScreen {
    /// Eight rows, none of them 255.
    pub open spec fn wf(&self) -> bool {
        &&& self@.len() == 8
        &&& forall|i: int| 0 <= i < 8 ==> #[trigger] self@[i] < 255
    }

    /// The pattern at start-up: row `i` shows `i`.
    pub fn new() -> (idle: IdleScreen)
        ensures
            idle.wf(),
            idle@ == seq![0u8, 1u8, 2u8, 3u8, 4u8, 5u8, 6u8, 7u8],
    {
        IdleScreen { screen: [0, 1, 2, 3, 4, 5, 6, 7] }
    }

    /// The rows to show.
    pub fn rows(&self) -> (rows: [u8; 8])
        ensures
            rows@ == self@,
    {
        self.screen
    }

    /// Moves on to the next pattern.
    pub fn advance(&mut self)
        requires
            old(self).wf(),
        ensures
            final(self).wf(),
            final(self)@ == next_pattern(old(self)@),
    {
        let mut i: usize = 0;
        while i < 8
            invariant
                i <= 8,
                self.screen@.len() == 8,
                forall|j: int| 0 <= j < i ==> #[trigger] self.screen@[j] == ((old(self)@[j] + 1) % 255) as u8,
                forall|j: int| i <= j < 8 ==> #[trigger] self.screen@[j] == old(self)@[j],
                forall|j: int| 0 <= j < 8 ==> #[trigger] old(self)@[j] < 255,
            decreases 8 - i,
        {
            self.screen[i] = (self.screen[i] + 1) % 255;
            i += 1;
        }
    }
}

/// Whether the game's frame shows cell `p`: the snake or the fruit lies on
/// it.
pub open spec fn shown(game: GameView, p: Point) -> bool {
    game.snake.body.contains(p) || p == game.fruit
}

/// Whether the display is awake after it has been switched `times` times.
pub open spec fn power_after_flashes(display_is_on: bool, times: nat) -> bool
    decreases times,
{
    if times == 0 {
        display_is_on
    } else {
        !power_after_flashes(display_is_on, (times - 1) as nat)
    }
}

/// When the display has flashed as often as the game over task asks for,
/// it is awake or asleep as it was before.
pub proof fn lemma_flashes_restore_power(display_is_on: bool)
    ensures
        power_after_flashes(display_is_on, FLASH_SCREEN_COUNT as nat) == display_is_on,
{
    reveal_with_fuel(power_after_flashes, 11);
}

/// What the idle screen task asks for.
pub struct IdleOutcome {
    /// The commands for the display driver, in order.
    pub commands: Vec<DisplayCommand>,
    pub next: Next,
}

/// What the game tick task asks for.
pub struct TickOutcome {
    /// The game as eight rows of bits.
    pub frame: [u8; 8],
    /// The commands for the display driver, in order: they show `frame`.
    pub commands: Vec<DisplayCommand>,
    pub state: GameState,
    /// The score after this tick. It is final when the game is over.
    pub score: usize,
    pub next: Next,
}

/// What the game over task asks for.
pub struct FlashOutcome {
    /// The command for the display driver, if there is one.
    pub command: Option<DisplayCommand>,
    pub next: Next,
}

/// The idle screen task, due at `scheduled`. It shows the pattern and moves
/// it on. If the joystick is pressed it starts a new game, placed by the
/// seeds, and the game tick is next; otherwise the idle screen is due again
/// one period later.
pub fn idle_screen(
    screen: &mut IdleScreen,
    resources: &mut Resources,
    pressed: bool,
    start: PointSeed,
    fruit: PointSeed,
    scheduled: u32,
) -> (out: IdleOutcome)
    requires
        old(screen).wf(),
    ensures
        Task::IdleScreen.permits(out.next),
        final(screen).wf(),
        final(screen)@ == next_pattern(old(screen)@),
        exists|rows: [u8; 8]|
            rows@ == old(screen)@ && out.commands@ == write_commands(
                old(resources).io_controller.is_on(),
                rows,
            ),
        final(resources).io_controller == old(resources).io_controller,
        final(resources).sysclk_hz == old(resources).sysclk_hz,
        pressed ==> final(resources).game.wf() && final(resources).game@ == GameView::started(
            seeded_point(start),
            seeded_point(fruit),
        ) && out.next == Next::Spawn(Task::GameTick),
        !pressed ==> final(resources).game == old(resources).game && out.next == Next::Schedule(
            Task::IdleScreen,
            deadline(scheduled, IDLE_SCREEN_PERIOD_MS, old(resources).sysclk_hz),
        ),
{
    // Update idlescreen
    let rows = screen.rows();
    let commands = resources.io_controller.write_display(&rows);
    screen.advance();

    // Check for user input - indicates that they are ready to play...
    let next = if pressed {
        resources.game.reset(start, fruit);
        Next::Spawn(Task::GameTick)
    } else {
        Next::Schedule(
            Task::IdleScreen,
            next_deadline(scheduled, IDLE_SCREEN_PERIOD_MS, resources.sysclk_hz),
        )
    };
    IdleOutcome { commands, next }
}

/// The game tick task, due at `scheduled`. It takes the joystick's
/// direction from `samples`, ticks the game and shows it. While the game
/// runs the tick is due again one period later; when it is over the game
/// over task is next.
pub fn game_tick(
    resources: &mut Resources,
    samples: &[(u16, u16); 16],
    fruit: PointSeed,
    scheduled: u32,
) -> (out: TickOutcome)
    requires
        old(resources).game.wf(),
        old(resources).io_controller@.dead_zone.wf(),
    ensures
        Task::GameTick.permits(out.next),
        final(resources).game.wf(),
        final(resources).game@ == old(resources).game@.ticked(
            old(resources).io_controller@.dead_zone.compass(
                mean(samples@).0 as u16,
                mean(samples@).1 as u16,
            ),
            seeded_point(fruit),
        ),
        final(resources).io_controller == old(resources).io_controller,
        final(resources).sysclk_hz == old(resources).sysclk_hz,
        out.state == final(resources).game@.state,
        out.score == final(resources).game@.score(),
        forall|p: Point|
            p.on_grid() ==> (#[trigger] lit(out.frame, p) <==> shown(final(resources).game@, p)),
        out.commands@ == write_commands(old(resources).io_controller.is_on(), out.frame),
        out.next == match out.state {
            GameState::Running => Next::Schedule(
                Task::GameTick,
                deadline(scheduled, GAME_TICK_PERIOD_MS, old(resources).sysclk_hz),
            ),
            GameState::GameOver => Next::Spawn(Task::GameOver),
        },
{
    let user_input = resources.io_controller.joystick().direction(samples);

    // Tick the game and refresh the screen
    let state = resources.game.tick(user_input, fruit);
    let frame = resources.game.render();
    let commands = resources.io_controller.write_display(&frame);
    let score = resources.game.score();

    // Determine what to do next based on the state after the game tick
    let next = match state {
        GameState::Running => Next::Schedule(
            Task::GameTick,
            next_deadline(scheduled, GAME_TICK_PERIOD_MS, resources.sysclk_hz),
        ),
        GameState::GameOver => Next::Spawn(Task::GameOver),
    };
    TickOutcome { frame, commands, state, score, next }
}

/// The game over task, due at `scheduled`. For its first ten runs it
/// switches the display, asleep or awake, and is due again one period
/// later. On the run after those it starts counting anew, and the idle
/// screen is next.
pub fn game_over(flash_screen_count: &mut u8, resources: &Resources, scheduled: u32) -> (out:
    FlashOutcome)
    ensures
        Task::GameOver.permits(out.next),
        *old(flash_screen_count) < FLASH_SCREEN_COUNT ==> {
            &&& *final(flash_screen_count) == *old(flash_screen_count) + 1
            &&& out.command == Some(
                if resources.io_controller.is_on() {
                    DisplayCommand::PowerOff
                } else {
                    DisplayCommand::PowerOn
                },
            )
            &&& out.next == Next::Schedule(
                Task::GameOver,
                deadline(scheduled, GAME_OVER_PERIOD_MS, resources.sysclk_hz),
            )
            &&& out.command matches Some(command) && power_after(
                resources.io_controller.is_on(),
                command,
            ) == !resources.io_controller.is_on()
        },
        *old(flash_screen_count) >= FLASH_SCREEN_COUNT ==> {
            &&& *final(flash_screen_count) == 0
            &&& out.command.is_none()
            &&& out.next == Next::Spawn(Task::IdleScreen)
        },
{
    if *flash_screen_count < FLASH_SCREEN_COUNT {
        *flash_screen_count += 1;
        let command = resources.io_controller.toggle_display();
        FlashOutcome {
            command: Some(command),
            next: Next::Schedule(
                Task::GameOver,
                next_deadline(scheduled, GAME_OVER_PERIOD_MS, resources.sysclk_hz),
            ),
        }
    } else {
        *flash_screen_count = 0;
        FlashOutcome { command: None, next: Next::Spawn(Task::IdleScreen) }
    }
}

} // verus!
