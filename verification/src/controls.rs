use crate::bullet::BulletType;
use crate::player::Player;
use vstd::prelude::*;

verus! {

/// The keys the game tells apart.
#[derive(Debug, Copy, Clone, PartialEq, Eq, Structural)]
pub enum Key {
    Up,
    Down,
    Left,
    Right,
    Escape,
    Other,
}

/// What the player did, as the event loop reports it. Mouse positions are in
/// window coordinates.
#[derive(Debug, Copy, Clone, PartialEq, Eq, Structural)]
pub enum Input {
    Quit,
    KeyDown { key: Key, repeat: bool },
    KeyUp { key: Key },
    MouseButtonDown,
    MouseButtonUp { x: i32, y: i32 },
    Other,
}

/// What the event loop is to do in answer to an input.
#[derive(Debug, Copy, Clone, PartialEq, Eq, Structural)]
pub enum Command {
    /// Leave the game.
    Quit,
    /// Change the player's acceleration by `(x, y)` units. `y` grows downwards.
    Accelerate { x: i32, y: i32 },
    /// Send a projectile from the player towards `(x, y)`.
    Fire { bullet_type: BulletType, x: i32, y: i32 },
    /// Nothing beyond what happened to the player's gun.
    Nothing,
}

impl Key {
    /// The direction in which holding the key pushes the player, or `None`
    /// for a key that does not steer.
    pub open spec fn direction(self) -> Option<(int, int)> {
        match self {
            Key::Right => Some((1, 0)),
            Key::Left => Some((-1, 0)),
            Key::Down => Some((0, 1)),
            Key::Up => Some((0, -1)),
            Key::Escape | Key::Other => None,
        }
    }
}

/// The command that `input` gives while the player's gun is as in `player`.
///
/// Closing the window or pressing Escape quits. Pressing a steering key adds
/// its direction to the acceleration once, however long it is held, and
/// letting it go takes the direction back out. Letting the mouse button go
/// fires what the gun holds, if it holds anything, at the mouse position.
pub open spec fn command_for(player: Player, input: Input) -> Command {
    match input {
        Input::Quit => Command::Quit,
        Input::KeyDown { key: Key::Escape, .. } => Command::Quit,
        Input::KeyDown { key, repeat } => match key.direction() {
            Some((x, y)) if !repeat => Command::Accelerate { x: x as i32, y: y as i32 },
            _ => Command::Nothing,
        },
        Input::KeyUp { key } => match key.direction() {
            Some((x, y)) => Command::Accelerate { x: (-x) as i32, y: (-y) as i32 },
            None => Command::Nothing,
        },
        Input::MouseButtonUp { x, y } => match player.spec_bullet_type() {
            Some(bullet_type) => Command::Fire { bullet_type, x, y },
            None => Command::Nothing,
        },
        Input::MouseButtonDown | Input::Other => Command::Nothing,
    }
}

/// The player's gun after `input`: pressing the mouse button starts charging
/// from zero, letting it go puts the gun at rest, anything else leaves it.
pub open spec fn player_after(player: Player, input: Input) -> Player {
    match input {
        Input::MouseButtonDown => Player { gun_is_charging: true, gun_charge_time: 0 },
        Input::MouseButtonUp { .. } => Player { gun_is_charging: false, gun_charge_time: 0 },
        _ => player,
    }
}

/// The change of acceleration that a command asks for, none for a command
/// that is not about steering.
pub open spec fn push_of(command: Command) -> (int, int) {
    match command {
        Command::Accelerate { x, y } => (x as int, y as int),
        _ => (0, 0),
    }
}

/// Letting a key go undoes what pressing it did: the two changes of
/// acceleration cancel, whatever the gun does in between, and holding the key
/// down in the meantime changes nothing.
pub proof fn lemma_release_undoes_press(pressed: Player, held: Player, released: Player, key: Key)
    ensures
        push_of(command_for(held, (Input::KeyDown { key, repeat: true }))) == (0int, 0int),
        push_of(command_for(pressed, (Input::KeyDown { key, repeat: false }))).0 + push_of(
            command_for(released, (Input::KeyUp { key })),
        ).0 == 0,
        push_of(command_for(pressed, (Input::KeyDown { key, repeat: false }))).1 + push_of(
            command_for(released, (Input::KeyUp { key })),
        ).1 == 0,
{
}

/// Applies one input to the player's gun and says what the event loop has to
/// do about it.
pub fn handle_input(player: &mut Player, input: Input) -> (command: Command)
    ensures
        command == command_for(*old(player), input),
        *final(player) == player_after(*old(player), input),
{
    match input {
        Input::Quit => Command::Quit,
        Input::KeyDown { key: Key::Escape, .. } => Command::Quit,
        Input::KeyDown { repeat: true, .. } => Command::Nothing,
        Input::KeyDown { key, repeat: false } => match key {
            Key::Right => Command::Accelerate { x: 1, y: 0 },
            Key::Left => Command::Accelerate { x: -1, y: 0 },
            Key::Down => Command::Accelerate { x: 0, y: 1 },
            Key::Up => Command::Accelerate { x: 0, y: -1 },
            Key::Escape | Key::Other => Command::Nothing,
        },
        Input::KeyUp { key } => match key {
            Key::Right => Command::Accelerate { x: -1, y: 0 },
            Key::Left => Command::Accelerate { x: 1, y: 0 },
            Key::Down => Command::Accelerate { x: 0, y: -1 },
            Key::Up => Command::Accelerate { x: 0, y: 1 },
            Key::Escape | Key::Other => Command::Nothing,
        },
        Input::MouseButtonDown => {
            player.start_gun_charging();
            Command::Nothing
        },
        Input::MouseButtonUp { x, y } => match player.fire_gun() {
            Some(bullet_type) => Command::Fire { bullet_type, x, y },
            None => Command::Nothing,
        },
        Input::Other => Command::Nothing,
    }
}

} // verus!
