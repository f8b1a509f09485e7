//! What a fire asks of the sprite: drop the colour fade that may be running
//! and start a new one from black to red.

use vstd::prelude::*;

verus! {

/// How long the fade of a fire lasts, in milliseconds.
pub const FADE_MILLIS: u64 = 500;

/// Marks the one sprite that the commands of a fire are meant for.
#[derive(Clone, Copy, Debug, PartialEq, Eq, Default)]
pub struct SpriteCompo;

/// A display colour, eight bits a channel.
#[derive(Clone, Copy, Debug, PartialEq, Eq)]
pub struct Rgb {
    pub red: u8,
    pub green: u8,
    pub blue: u8,
}

/// The curve along which a fade runs from its first colour to its last.
#[derive(Clone, Copy, Debug, PartialEq, Eq)]
pub enum Easing {
    /// Slow at first: the progress is the square of the time that has passed.
    QuadraticIn,
}

/// A fade of the sprite's colour, to be run by the animation engine.
#[derive(Clone, Copy, Debug, PartialEq, Eq)]
pub struct ColorFade {
    pub start: Rgb,
    pub end: Rgb,
    /// The length of the fade in milliseconds, counted from the fire.
    pub millis: u64,
    pub easing: Easing,
}

/// One thing to do to the sprite.
#[derive(Clone, Copy, Debug, PartialEq, Eq)]
pub enum SpriteCommand {
    /// Remove the colour fade that is running on the sprite, if there is one.
    CancelFade,
    /// Attach this colour fade to the sprite.
    StartFade(ColorFade),
}

pub open spec fn black() -> Rgb {
    Rgb { red: 0, green: 0, blue: 0 }
}

pub open spec fn red() -> Rgb {
    Rgb { red: 255, green: 0, blue: 0 }
}

/// The fade that every fire starts: black to red in half a second, easing in.
pub open spec fn fade_on_fire() -> ColorFade {
    ColorFade { start: black(), end: red(), millis: FADE_MILLIS, easing: Easing::QuadraticIn }
}

/// The commands of a fire, in the order in which they are carried out.
pub open spec fn restart_fade() -> Seq<SpriteCommand> {
    seq![SpriteCommand::CancelFade, SpriteCommand::StartFade(fade_on_fire())]
}

/// The commands that reach the scene when it holds `sprites` marked sprites.
/// They are meant for exactly one; with none, or with several, nothing is done.
pub open spec fn delivered(commands: Seq<SpriteCommand>, sprites: nat) -> Seq<SpriteCommand> {
    if sprites == 1 {
        commands
    } else {
        Seq::empty()
    }
}

/// Builds the commands of a fire.
pub fn restart_commands() -> (commands: Vec<SpriteCommand>)
    ensures
        commands@ == restart_fade(),
{
    let fade = ColorFade {
        start: Rgb { red: 0, green: 0, blue: 0 },
        end: Rgb { red: 255, green: 0, blue: 0 },
        millis: FADE_MILLIS,
        easing: Easing::QuadraticIn,
    };
    let mut commands: Vec<SpriteCommand> = Vec::new();
    commands.push(SpriteCommand::CancelFade);
    commands.push(SpriteCommand::StartFade(fade));
    commands
}

/// Keeps `commands` for a scene with exactly one marked sprite and drops them
/// for any other.
pub fn deliver(commands: Vec<SpriteCommand>, sprites: usize) -> (kept: Vec<SpriteCommand>)
    ensures
        kept@ == delivered(commands@, sprites as nat),
{
    if sprites == 1 {
        commands
    } else {
        Vec::new()
    }
}

} // verus!
