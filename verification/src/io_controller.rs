use crate::joystick::{DeadZone, Joystick};
use vstd::prelude::*;

verus! {

/// A request that the controller turns down: to switch the display to the
/// state it is already in, or a brightness over 100.
#[derive(Clone, Copy, Debug, PartialEq, Eq, Structural)]
pub struct Error {}

/// One operation of the display driver.
#[derive(Clone, Copy, Debug, PartialEq, Eq)]
pub enum DisplayCommand {
    /// Wake the display up.
    PowerOn,
    /// Put the display to sleep.
    PowerOff,
    /// Blank every row.
    Clear,
    /// Show eight rows of eight bits.
    Write([u8; 8]),
    /// Set the brightness, from 0 to 255.
    SetIntensity(u8),
}

/// The highest brightness that can be asked for, in percent.
pub const MAX_BRIGHTNESS: u8 = 100;

/// The intensity that stands for a brightness in percent: 255 hundredths of
/// it, fractions dropped.
pub open spec fn intensity(brightness: u8) -> u8 {
    (brightness * 255 / 100) as u8
}

/// What `write_display` sends: the rows, after waking a sleeping display.
pub open spec fn write_commands(display_is_on: bool, rows: [u8; 8]) -> Seq<DisplayCommand> {
    if display_is_on {
        seq![DisplayCommand::Write(rows)]
    } else {
        seq![DisplayCommand::PowerOn, DisplayCommand::Write(rows)]
    }
}

/// Whether the display is awake once `done` has been carried out.
pub open spec fn power_after(display_is_on: bool, done: DisplayCommand) -> bool {
    match done {
        DisplayCommand::PowerOn => true,
        DisplayCommand::PowerOff => false,
        _ => display_is_on,
    }
}

/// The joystick and what is known of the display: whether it is awake.
///
/// The controller sends nothing itself. Each request returns the commands
/// that the display driver is to carry out, and `acknowledge` records each
/// one that the driver has carried out.
pub struct IOController {
    pub joystick: Joystick,
    display_is_on: bool,
}

/// What a controller is: the joystick's dead zone, and whether the display
/// is awake as far as the controller has been told.
pub struct IOControllerView {
    pub dead_zone: DeadZone,
    pub display_is_on: bool,
}

impl View for IOController {
    type V = IOControllerView;

    closed spec fn view(&self) -> IOControllerView {
        IOControllerView { dead_zone: self.joystick@, display_is_on: self.display_is_on }
    }
}

impl IOController {
    /// Whether the display is awake, as far as the controller has been told.
    pub open spec fn is_on(&self) -> bool {
        self@.display_is_on
    }

    /// A controller for a display that has just been started, and is awake,
    /// with the two commands that bring the display to a known state: a
    /// blank screen, asleep.
    pub fn from(joystick: Joystick) -> (r: (IOController, [DisplayCommand; 2]))
        ensures
            r.0@.dead_zone == joystick@,
            r.0.is_on(),
            r.1@ == seq![DisplayCommand::Clear, DisplayCommand::PowerOff],
    {
        let controller = IOController { joystick, display_is_on: true };
        // Start the IOController in a known state
        let clear = controller.reset_display();
        let off = DisplayCommand::PowerOff;
        (controller, [clear, off])
    }

    /// The joystick.
    pub fn joystick(&self) -> (joystick: &Joystick)
        ensures
            joystick@ == self@.dead_zone,
    {
        &self.joystick
    }

    /// Whether the display is awake.
    pub fn display_is_on(&self) -> (on: bool)
        ensures
            on == self.is_on(),
    {
        self.display_is_on
    }

    /// Records that the driver has carried out `done`.
    pub fn acknowledge(&mut self, done: &DisplayCommand)
        ensures
            final(self).is_on() == power_after(old(self).is_on(), *done),
            final(self)@.dead_zone == old(self)@.dead_zone,
    {
        match done {
            DisplayCommand::PowerOn => {
                self.display_is_on = true;
            },
            DisplayCommand::PowerOff => {
                self.display_is_on = false;
            },
            _ => {},
        }
    }

    /// The commands that show `input`: a sleeping display is woken first.
    pub fn write_display(&self, input: &[u8; 8]) -> (commands: Vec<DisplayCommand>)
        ensures
            commands@ == write_commands(self.is_on(), *input),
    {
        let mut commands: Vec<DisplayCommand> = Vec::new();
        if !self.display_is_on {
            commands.push(DisplayCommand::PowerOn);
        }
        commands.push(DisplayCommand::Write(*input));
        commands
    }

    /// The command that puts the display to sleep; an error if it sleeps
    /// already.
    pub fn turn_off_display(&self) -> (r: Result<DisplayCommand, Error>)
        ensures
            self.is_on() ==> (r matches Ok(command) && command == DisplayCommand::PowerOff),
            !self.is_on() ==> r.is_err(),
    {
        if !self.display_is_on {
            return Err(Error {  });
        }
        Ok(DisplayCommand::PowerOff)
    }

    /// The command that wakes the display; an error if it is awake already.
    pub fn turn_on_display(&self) -> (r: Result<DisplayCommand, Error>)
        ensures
            !self.is_on() ==> (r matches Ok(command) && command == DisplayCommand::PowerOn),
            self.is_on() ==> r.is_err(),
    {
        if self.display_is_on {
            return Err(Error {  });
        }
        Ok(DisplayCommand::PowerOn)
    }

    /// The command that puts a waking display to sleep and wakes a sleeping
    /// one.
    pub fn toggle_display(&self) -> (command: DisplayCommand)
        ensures
            command == if self.is_on() {
                DisplayCommand::PowerOff
            } else {
                DisplayCommand::PowerOn
            },
            power_after(self.is_on(), command) == !self.is_on(),
    {
        if self.display_is_on {
            DisplayCommand::PowerOff
        } else {
            DisplayCommand::PowerOn
        }
    }

    /// The command that blanks the display.
    pub fn reset_display(&self) -> (command: DisplayCommand)
        ensures
            command == DisplayCommand::Clear,
    {
        DisplayCommand::Clear
    }

    /// The command that sets the brightness to `brightness` percent; an
    /// error if that is over 100.
    pub fn set_brightness(&self, brightness: u8) -> (r: Result<DisplayCommand, Error>)
        ensures
            brightness <= MAX_BRIGHTNESS ==> (r matches Ok(command) && command == DisplayCommand::SetIntensity(
                intensity(brightness),
            )),
            brightness > MAX_BRIGHTNESS ==> r.is_err(),
    {
        if brightness > MAX_BRIGHTNESS {
            return Err(Error {  });
        }
        let brightness: u8 = (brightness as u16 * 255 / 100) as u8;
        Ok(DisplayCommand::SetIntensity(brightness))
    }
}

} // verus!
