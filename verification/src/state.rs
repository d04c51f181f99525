//! The per-frame screen controller: a finite-state machine over two screens,
//! driven by edge-triggered input events.
//!
//! Each frame the controller consumes a plain input snapshot (action-button
//! edge, pointer position and press state, canvas bounds), advances the game
//! state, and returns the frame's drawing and animation commands as plain
//! data. Performing the input polling and the drawing is the surrounding
//! runtime's concern.

use vstd::prelude::*;

verus! {

use crate::easing::Easing;
use crate::geometry::Bounds;
use crate::tween::Tween;

/// The screen that is active; exactly one at a time, and transitions are the
/// only mutation path.
#[derive(Clone, Copy, Debug, PartialEq, Eq, Structural)]
pub enum Screen {
    Title,
    Game,
}

/// Clear color of the title screen, as 0xRRGGBBAA.
pub const COLOR_TITLE_CLEAR: u32 = 0xFFFFFFFF;

/// Color of the title screen's caption.
pub const COLOR_TITLE_TEXT: u32 = 0x000000FF;

/// Clear color of the game screen.
pub const COLOR_GAME_CLEAR: u32 = 0x000000FF;

/// Color of the game screen's caption.
pub const COLOR_GAME_TEXT: u32 = 0xFFFFFFFF;

/// Button fill while the pointer is outside it.
pub const COLOR_BUTTON_REGULAR: u32 = 0x33CCFFFF;

/// Button fill while the pointer hovers it without pressing.
pub const COLOR_BUTTON_HOVERED: u32 = 0x66DDFFFF;

/// Button fill while the pointer presses it.
pub const COLOR_BUTTON_PRESSED: u32 = 0x00FFFFFF;

/// The sprite's resting value: the tween starts here and is re-armed back to
/// it whenever it completes.
pub const WIZZY_HOME_X: i32 = 150;

/// The value the tween is re-armed to when the button is clicked.
pub const WIZZY_ATTACK_X: i32 = 200;

/// Vertical position the sprite is drawn at.
pub const WIZZY_Y: i32 = 45;

/// Duration, in ticks, of the sprite's animation.
pub const WIZZY_DURATION: u32 = 120;

/// Button width.
pub const BUTTON_W: u32 = 48;

/// Button height.
pub const BUTTON_H: u32 = 14;

/// How far below the canvas center the button sits.
pub const BUTTON_DROP: i32 = 16;

/// Inset of the button's label from the button's left and top edges.
pub const LABEL_INSET: u32 = 4;

/// Corner radius of the button rectangle.
pub const BUTTON_RADIUS: u32 = 2;

/// Repeat count for the attack animation override.
pub const ATTACK_REPEAT: u32 = 1;

/// The aggregate the controller owns and mutates once per frame: the active
/// screen and the sprite's tween.
#[derive(Clone, Copy, Debug, PartialEq, Eq, Structural)]
pub struct GameState {
    /// The screen that is active this frame.
    pub screen: Screen,
    /// The sprite's horizontal-position animator.
    pub wizzy_tween: Tween,
}

/// One frame's input snapshot, supplied by the surrounding runtime.
#[derive(Clone, Copy, Debug, PartialEq, Eq, Structural)]
pub struct FrameInput {
    /// Edge-triggered: the action button went down this frame.
    pub action_just_pressed: bool,
    /// Pointer horizontal position.
    pub pointer_x: i32,
    /// Pointer vertical position.
    pub pointer_y: i32,
    /// Level-triggered: the pointer is currently held down.
    pub pointer_pressed: bool,
    /// Edge-triggered: the pointer went down this frame.
    pub pointer_just_pressed: bool,
    /// The drawable area for this frame.
    pub canvas: Bounds,
}

/// The commands a title frame emits: clear, then a caption.
#[derive(Clone, Copy, Debug, PartialEq, Eq)]
pub struct TitleFrame {
    pub clear_color: u32,
    pub text: &'static str,
    pub text_color: u32,
}

/// The animation override emitted when the button is clicked: swap the named
/// clip in and play it a fixed number of times.
#[derive(Clone, Copy, Debug, PartialEq, Eq)]
pub struct AttackCommand {
    pub clip: &'static str,
    pub repeat: u32,
}

/// The commands a game frame emits: clear, caption, the tween-driven sprite,
/// the looping animation, the button with its label, and possibly an attack
/// override.
#[derive(Clone, Copy, Debug, PartialEq, Eq)]
pub struct GameFrame {
    pub clear_color: u32,
    pub text: &'static str,
    pub text_color: u32,
    pub wizzy_sprite: &'static str,
    pub wizzy_x: i32,
    pub wizzy_y: i32,
    pub crab_animation_key: &'static str,
    pub crab_default_sprite: &'static str,
    pub button: Bounds,
    pub button_color: u32,
    pub button_radius: u32,
    pub label_text: &'static str,
    pub label_font: &'static str,
    pub label_x: i32,
    pub label_y: i32,
    pub attack: Option<AttackCommand>,
}

/// Everything one frame draws, by screen.
#[derive(Clone, Copy, Debug, PartialEq, Eq)]
pub enum FrameOutput {
    Title(TitleFrame),
    Game(GameFrame),
}

/// The other screen.
pub open spec fn spec_toggled(s: Screen) -> Screen {
    match s {
        Screen::Title => Screen::Game,
        Screen::Game => Screen::Title,
    }
}

/// The screen active after a frame: the action-button edge toggles it
/// unconditionally, on either screen.
pub open spec fn next_screen(s: Screen, action_just_pressed: bool) -> Screen {
    if action_just_pressed {
        spec_toggled(s)
    } else {
        s
    }
}

/// The button rectangle: a 48 by 14 rectangle centered in the canvas, then
/// dropped 16 units.
pub open spec fn spec_button_bounds(canvas: Bounds) -> Bounds {
    Bounds {
        x: (canvas.x + (canvas.w - BUTTON_W) / 2) as i32,
        y: (canvas.y + (canvas.h - BUTTON_H) / 2 + BUTTON_DROP) as i32,
        w: BUTTON_W,
        h: BUTTON_H,
    }
}

/// The canvas geometry the controller can lay the button out in: the button
/// and its label positions fit in machine range.
pub open spec fn canvas_fits(canvas: Bounds) -> bool {
    &&& i32::MIN <= canvas.x + (canvas.w - BUTTON_W) / 2
    &&& canvas.x + (canvas.w - BUTTON_W) / 2 + LABEL_INSET <= i32::MAX
    &&& i32::MIN <= canvas.y + (canvas.h - BUTTON_H) / 2
    &&& canvas.y + (canvas.h - BUTTON_H) / 2 + BUTTON_DROP + LABEL_INSET <= i32::MAX
}

/// Law: the button's visual state is selected by partitioning pointer
/// positions with the containment predicate — inside and pressed gives the
/// pressed color, inside unpressed the hovered color, outside the regular
/// color.
pub open spec fn spec_button_color(hovered: bool, pressed: bool) -> u32 {
    if hovered && pressed {
        COLOR_BUTTON_PRESSED
    } else if hovered {
        COLOR_BUTTON_HOVERED
    } else {
        COLOR_BUTTON_REGULAR
    }
}

/// Whether this frame's pointer input clicks the button: an edge-triggered
/// press while hovering it.
pub open spec fn spec_attacking(input: FrameInput) -> bool {
    &&& spec_button_bounds(input.canvas).spec_contains(
        input.pointer_x as int,
        input.pointer_y as int,
    )
    &&& input.pointer_just_pressed
}

/// The tween after a game frame: it is ticked once; re-armed back to the
/// resting value if it reports done; and re-armed toward the attack value if
/// the button was clicked.
pub open spec fn spec_game_tween(t: Tween, attacking: bool) -> Tween {
    let ticked = t.spec_ticked();
    let rested = if ticked.spec_done() {
        ticked.spec_set(WIZZY_HOME_X)
    } else {
        ticked
    };
    if attacking {
        rested.spec_set(WIZZY_ATTACK_X)
    } else {
        rested
    }
}

/// The commands a title frame emits.
pub open spec fn spec_title_frame() -> TitleFrame {
    TitleFrame {
        clear_color: COLOR_TITLE_CLEAR,
        text: "this is the title!",
        text_color: COLOR_TITLE_TEXT,
    }
}

/// The commands a game frame emits, as a function of the tween at the start
/// of the frame and the frame's input. The sprite is drawn at the value
/// sampled right after the tick, before any re-arming.
pub open spec fn spec_game_frame(t: Tween, input: FrameInput) -> GameFrame {
    let button = spec_button_bounds(input.canvas);
    let hovered = button.spec_contains(input.pointer_x as int, input.pointer_y as int);
    GameFrame {
        clear_color: COLOR_GAME_CLEAR,
        text: "this is the game!",
        text_color: COLOR_GAME_TEXT,
        wizzy_sprite: "Wizzy",
        wizzy_x: t.spec_ticked().spec_sample() as i32,
        wizzy_y: WIZZY_Y,
        crab_animation_key: "crab",
        crab_default_sprite: "Decapod#Idle",
        button,
        button_color: spec_button_color(hovered, input.pointer_pressed),
        button_radius: BUTTON_RADIUS,
        label_text: "Attack!",
        label_font: "medium",
        label_x: (button.x + LABEL_INSET) as i32,
        label_y: (button.y + LABEL_INSET) as i32,
        attack: if hovered && input.pointer_just_pressed {
            Option::Some(AttackCommand { clip: "Decapod#Ranged Attack", repeat: ATTACK_REPEAT })
        } else {
            Option::None
        },
    }
}

impl GameState {
    /// Invariant: the embedded tween is well-formed.
    pub open spec fn wf(self) -> bool {
        self.wizzy_tween.wf()
    }

    /// The default state at process start: the title screen, with the
    /// sprite's tween resting at its home value under an ease-out-cubic
    /// curve.
    pub fn new() -> (r: GameState)
        ensures
            r == (GameState {
                screen: Screen::Title,
                wizzy_tween: Tween {
                    start: WIZZY_HOME_X,
                    target: WIZZY_HOME_X,
                    duration: WIZZY_DURATION,
                    elapsed: WIZZY_DURATION,
                    easing: Easing::EaseOutCubic,
                },
            }),
            r.wf(),
    {
        GameState {
            screen: Screen::Title,
            wizzy_tween: Tween::new(WIZZY_HOME_X).duration(WIZZY_DURATION).ease(
                Easing::EaseOutCubic,
            ),
        }
    }
}

/// Run one frame: consume the input snapshot, mutate the game state, and
/// return the frame's drawing and animation commands.
///
/// The action-button edge toggles the screen. On the game screen the tween is
/// ticked and sampled for the sprite, re-armed to its home value when done,
/// and re-armed toward the attack value when the button is clicked; the
/// button's color follows the pointer's hover and press state.
pub fn state_of_game(state: &mut GameState, input: &FrameInput) -> (out: FrameOutput)
    requires
        old(state).wf(),
        old(state).screen == Screen::Game ==> canvas_fits(input.canvas),
    ensures
        final(state).screen == next_screen(old(state).screen, input.action_just_pressed),
        final(state).wf(),
        old(state).screen == Screen::Title ==> final(state).wizzy_tween == old(
            state,
        ).wizzy_tween && out == FrameOutput::Title(spec_title_frame()),
        old(state).screen == Screen::Game ==> final(state).wizzy_tween == spec_game_tween(
            old(state).wizzy_tween,
            spec_attacking(*input),
        ) && out == FrameOutput::Game(spec_game_frame(old(state).wizzy_tween, *input)),
{
    match state.screen {
        Screen::Title => {
            if input.action_just_pressed {
                state.screen = Screen::Game;
            }
            FrameOutput::Title(
                TitleFrame {
                    clear_color: COLOR_TITLE_CLEAR,
                    text: "this is the title!",
                    text_color: COLOR_TITLE_TEXT,
                },
            )
        },
        Screen::Game => {
            if input.action_just_pressed {
                state.screen = Screen::Title;
            }
            state.wizzy_tween.tick();
            let x: i32 = state.wizzy_tween.get();
            if state.wizzy_tween.done() {
                state.wizzy_tween.set(WIZZY_HOME_X);
            }
            let button: Bounds = Bounds::with_size(BUTTON_W, BUTTON_H).anchor_center(
                &input.canvas,
            ).translate_y(BUTTON_DROP);
            let hovered: bool = button.intersects_point(input.pointer_x, input.pointer_y);
            let button_color: u32 = if input.pointer_pressed && hovered {
                COLOR_BUTTON_PRESSED
            } else if hovered {
                COLOR_BUTTON_HOVERED
            } else {
                COLOR_BUTTON_REGULAR
            };
            let label: Bounds = button.inset_left(LABEL_INSET).inset_top(LABEL_INSET);
            let attack: Option<AttackCommand> = if hovered && input.pointer_just_pressed {
                state.wizzy_tween.set(WIZZY_ATTACK_X);
                Option::Some(AttackCommand { clip: "Decapod#Ranged Attack", repeat: ATTACK_REPEAT })
            } else {
                Option::None
            };
            FrameOutput::Game(
                GameFrame {
                    clear_color: COLOR_GAME_CLEAR,
                    text: "this is the game!",
                    text_color: COLOR_GAME_TEXT,
                    wizzy_sprite: "Wizzy",
                    wizzy_x: x,
                    wizzy_y: WIZZY_Y,
                    crab_animation_key: "crab",
                    crab_default_sprite: "Decapod#Idle",
                    button,
                    button_color,
                    button_radius: BUTTON_RADIUS,
                    label_text: "Attack!",
                    label_font: "medium",
                    label_x: label.x(),
                    label_y: label.y(),
                    attack,
                },
            )
        },
    }
}

} // verus!

