//! The interaction state machine: which inputs mean something, and what
//! they do.
//!
//! | state       | event                         | effect                                  |
//! |-------------|-------------------------------|-----------------------------------------|
//! | `Register`  | any, once an identity is held | state becomes `Exploring`, no command   |
//! | `Register`  | `Character(c)`                | `c` is appended to the pseudo           |
//! | `Register`  | `Erase`                       | the pseudo loses its last character     |
//! | `Register`  | `Confirm`, pseudo not empty   | command `Register` with the pseudo      |
//! | `Exploring` | `Move`                        | command `Move` with the same step       |
//! | `Exploring` | `ToggleMenu`                  | state becomes `Menu`                    |
//! | `Menu`      | `ToggleMenu`                  | state becomes `Exploring`               |
//! | `Menu`      | `Move`                        | the rectangle moves by the step         |
//!
//! Every other pair of state and event changes nothing and sends nothing.

use vstd::prelude::*;
use crate::geometry::Rect;
use crate::render::rect_fits;

verus! {

/// The mode of the client.
#[derive(Clone, Copy, Debug, PartialEq, Eq, Structural)]
pub enum Runstate {
    /// Waiting for the server to assign an identity.
    Register,
    /// Moving freely through the world.
    Exploring,
    /// A menu is open.
    Menu,
}

/// One input event of a frame.
#[derive(Clone, Copy, Debug, PartialEq, Eq, Structural)]
pub enum InputEvent {
    /// No input in this frame.
    Nothing,
    /// A step along the two axes.
    Move { dx: i32, dy: i32 },
    /// The key that opens and closes the menu.
    ToggleMenu,
    /// A character typed.
    Character(char),
    /// The key that erases the last character typed.
    Erase,
    /// The key that confirms what was typed.
    Confirm,
}

/// A command for the server, not yet serialized.
#[derive(Clone, Debug)]
pub enum Command {
    /// Asks the server to register the player under a pseudo.
    Register { pseudo: String },
    /// Asks the server to move the player by a step.
    Move { dx: i32, dy: i32 },
}

/// A command as plain mathematical values.
pub enum CommandView {
    Register { pseudo: Seq<char> },
    Move { dx: i32, dy: i32 },
}

impl View for Command {
    type V = CommandView;

    open spec fn view(&self) -> CommandView {
        match *self {
            Command::Register { pseudo } => CommandView::Register { pseudo: pseudo@ },
            Command::Move { dx, dy } => CommandView::Move { dx, dy },
        }
    }
}

/// What one input event leads to.
pub struct Step {
    /// The state after the event.
    pub runstate: Runstate,
    /// The rectangle after the event.
    pub rectangle: Rect,
    /// The pseudo typed so far, after the event.
    pub pseudo: Seq<char>,
    /// The command to send, if the event calls for one.
    pub command: Option<CommandView>,
}

/// Whether a rectangle moved by a step still has 32-bit coordinates, its far
/// edges included.
pub open spec fn can_shift(rect: Rect, dx: i32, dy: i32) -> bool {
    &&& i32::MIN <= rect.x + dx <= i32::MAX
    &&& i32::MIN <= rect.y + dy <= i32::MAX
    &&& i32::MIN <= rect.x + dx + rect.width <= i32::MAX
    &&& i32::MIN <= rect.y + dy + rect.height <= i32::MAX
}

/// The rectangle moved by a step, or as it was where it cannot move so.
pub open spec fn shifted(rect: Rect, dx: i32, dy: i32) -> Rect {
    if can_shift(rect, dx, dy) {
        Rect { width: rect.width, height: rect.height, x: (rect.x + dx) as i32, y: (rect.y + dy) as i32 }
    } else {
        rect
    }
}

/// The transition function of the machine. `assigned` says whether the
/// latest snapshot holds an identity for the local player.
pub open spec fn step(
    runstate: Runstate,
    assigned: bool,
    event: InputEvent,
    rectangle: Rect,
    pseudo: Seq<char>,
) -> Step {
    let stay = Step { runstate, rectangle, pseudo, command: None };
    match runstate {
        Runstate::Register => if assigned {
            Step { runstate: Runstate::Exploring, ..stay }
        } else {
            match event {
                InputEvent::Character(c) => Step { pseudo: pseudo.push(c), ..stay },
                InputEvent::Erase => if pseudo.len() > 0 {
                    Step { pseudo: pseudo.drop_last(), ..stay }
                } else {
                    stay
                },
                InputEvent::Confirm => if pseudo.len() > 0 {
                    Step { command: Some(CommandView::Register { pseudo }), ..stay }
                } else {
                    stay
                },
                _ => stay,
            }
        },
        Runstate::Exploring => match event {
            InputEvent::Move { dx, dy } => Step {
                command: Some(CommandView::Move { dx, dy }),
                ..stay
            },
            InputEvent::ToggleMenu => Step { runstate: Runstate::Menu, ..stay },
            _ => stay,
        },
        Runstate::Menu => match event {
            InputEvent::ToggleMenu => Step { runstate: Runstate::Exploring, ..stay },
            InputEvent::Move { dx, dy } => Step { rectangle: shifted(rectangle, dx, dy), ..stay },
            _ => stay,
        },
    }
}

/// `String::push` appends one character at the end of the string.
pub assume_specification[ String::push ](s: &mut String, ch: char)
    ensures
        final(s)@ == old(s)@.push(ch),
;

/// `String::pop` removes the last character of the string and returns it,
/// or returns `None` where the string is empty.
pub assume_specification[ String::pop ](s: &mut String) -> (last: Option<char>)
    ensures
        old(s)@.len() == 0 ==> last.is_none() && final(s)@ == old(s)@,
        old(s)@.len() > 0 ==> last == Some(old(s)@.last()) && final(s)@ == old(s)@.drop_last(),
;

/// Moves a rectangle by a step; it stays where it is if a coordinate of the
/// moved rectangle would not fit in 32 bits.
pub fn shift_rect(rect: &Rect, dx: i32, dy: i32) -> (moved: Rect)
    ensures
        moved == shifted(*rect, dx, dy),
{
    let x: i64 = rect.x as i64 + dx as i64;
    let y: i64 = rect.y as i64 + dy as i64;
    let far_x: i64 = x + rect.width as i64;
    let far_y: i64 = y + rect.height as i64;
    let low: i64 = i32::MIN as i64;
    let high: i64 = i32::MAX as i64;
    if low <= x && x <= high && low <= y && y <= high && low <= far_x && far_x <= high && low
        <= far_y && far_y <= high {
        Rect { width: rect.width, height: rect.height, x: x as i32, y: y as i32 }
    } else {
        *rect
    }
}

/// Advances the machine by one input event. `my_uid` is the identity that
/// the latest snapshot holds. Returns the next state and the command to
/// send, if any; the rectangle and the pseudo are changed in place.
pub fn player_input(
    my_uid: &String,
    event: InputEvent,
    runstate: &Runstate,
    rectangle: &mut Rect,
    pseudo: &mut String,
) -> (out: (Runstate, Option<Command>))
    ensures
        (Step {
            runstate: out.0,
            rectangle: *final(rectangle),
            pseudo: final(pseudo)@,
            command: match out.1 {
                Some(command) => Some(command@),
                None => None,
            },
        }) == step(*runstate, my_uid@.len() > 0, event, *old(rectangle), old(pseudo)@),
{
    let assigned = my_uid.as_str().unicode_len() > 0;
    match *runstate {
        Runstate::Register => {
            if assigned {
                return (Runstate::Exploring, None);
            }
            match event {
                InputEvent::Character(c) => {
                    pseudo.push(c);
                    (Runstate::Register, None)
                },
                InputEvent::Erase => {
                    pseudo.pop();
                    (Runstate::Register, None)
                },
                InputEvent::Confirm => {
                    if pseudo.as_str().unicode_len() > 0 {
                        (Runstate::Register, Some(Command::Register { pseudo: pseudo.clone() }))
                    } else {
                        (Runstate::Register, None)
                    }
                },
                _ => (Runstate::Register, None),
            }
        },
        Runstate::Exploring => match event {
            InputEvent::Move { dx, dy } => (Runstate::Exploring, Some(Command::Move { dx, dy })),
            InputEvent::ToggleMenu => (Runstate::Menu, None),
            _ => (Runstate::Exploring, None),
        },
        Runstate::Menu => match event {
            InputEvent::ToggleMenu => (Runstate::Exploring, None),
            InputEvent::Move { dx, dy } => {
                *rectangle = shift_rect(rectangle, dx, dy);
                (Runstate::Menu, None)
            },
            _ => (Runstate::Menu, None),
        },
    }
}

/// Once the server has assigned an identity, a client that waits for
/// registration starts exploring, whatever the input, and sends nothing.
pub proof fn lemma_registration_ends_quietly(event: InputEvent, rectangle: Rect, pseudo: Seq<char>)
    ensures
        step(Runstate::Register, true, event, rectangle, pseudo).runstate == Runstate::Exploring,
        step(Runstate::Register, true, event, rectangle, pseudo).command.is_none(),
{
}

/// Without an identity a client that waits for registration keeps waiting.
pub proof fn lemma_registration_waits(event: InputEvent, rectangle: Rect, pseudo: Seq<char>)
    ensures
        step(Runstate::Register, false, event, rectangle, pseudo).runstate == Runstate::Register,
{
}

/// A rectangle that can be drawn can still be drawn after any event in any
/// state.
pub proof fn lemma_step_keeps_rectangle_fit(
    runstate: Runstate,
    assigned: bool,
    event: InputEvent,
    rectangle: Rect,
    pseudo: Seq<char>,
)
    requires
        rect_fits(rectangle),
    ensures
        rect_fits(step(runstate, assigned, event, rectangle, pseudo).rectangle),
{
}

} // verus!
