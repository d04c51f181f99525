use wizzy_demo::geometry::Bounds;
use wizzy_demo::state::{
    state_of_game, FrameInput, FrameOutput, GameState, Screen, ATTACK_REPEAT, BUTTON_RADIUS,
    COLOR_BUTTON_HOVERED, COLOR_BUTTON_PRESSED, COLOR_BUTTON_REGULAR, COLOR_GAME_CLEAR,
    COLOR_GAME_TEXT, COLOR_TITLE_CLEAR, COLOR_TITLE_TEXT,
};

fn canvas() -> Bounds {
    Bounds { x: 0, y: 0, w: 256, h: 144 }
}

fn idle_input() -> FrameInput {
    FrameInput {
        action_just_pressed: false,
        pointer_x: 0,
        pointer_y: 0,
        pointer_pressed: false,
        pointer_just_pressed: false,
        canvas: canvas(),
    }
}

// With a 256 by 144 canvas the button is centered at (104, 65), then dropped
// 16 units: (104, 81), size 48 by 14.
fn expected_button() -> Bounds {
    Bounds { x: 104, y: 81, w: 48, h: 14 }
}

#[test]
fn default_state_is_title_with_resting_tween() {
    let s = GameState::new();
    assert_eq!(s.screen, Screen::Title);
    assert_eq!(s.wizzy_tween.start, 150);
    assert_eq!(s.wizzy_tween.target, 150);
    assert_eq!(s.wizzy_tween.duration, 120);
    assert!(s.wizzy_tween.done());
    assert_eq!(s.wizzy_tween.get(), 150);
}

#[test]
fn action_edge_moves_title_to_game() {
    let mut s = GameState::new();
    let mut input = idle_input();
    input.action_just_pressed = true;
    let out = state_of_game(&mut s, &input);
    assert_eq!(s.screen, Screen::Game);
    match out {
        FrameOutput::Title(frame) => {
            assert_eq!(frame.clear_color, COLOR_TITLE_CLEAR);
            assert_eq!(frame.text, "this is the title!");
            assert_eq!(frame.text_color, COLOR_TITLE_TEXT);
        },
        FrameOutput::Game(_) => panic!("a title frame must draw the title screen"),
    }
}

#[test]
fn action_edge_moves_game_back_to_title() {
    let mut s = GameState::new();
    s.screen = Screen::Game;
    let mut input = idle_input();
    input.action_just_pressed = true;
    let out = state_of_game(&mut s, &input);
    assert_eq!(s.screen, Screen::Title);
    // The frame that consumed the edge still draws the game screen.
    assert!(matches!(out, FrameOutput::Game(_)));
}

#[test]
fn without_the_edge_the_screen_stays() {
    let mut s = GameState::new();
    let input = idle_input();
    let out = state_of_game(&mut s, &input);
    assert_eq!(s.screen, Screen::Title);
    assert!(matches!(out, FrameOutput::Title(_)));
}

#[test]
fn game_frame_emits_the_full_command_set() {
    let mut s = GameState::new();
    s.screen = Screen::Game;
    let out = state_of_game(&mut s, &idle_input());
    match out {
        FrameOutput::Game(frame) => {
            assert_eq!(frame.clear_color, COLOR_GAME_CLEAR);
            assert_eq!(frame.text, "this is the game!");
            assert_eq!(frame.text_color, COLOR_GAME_TEXT);
            assert_eq!(frame.wizzy_sprite, "Wizzy");
            assert_eq!(frame.wizzy_x, 150);
            assert_eq!(frame.wizzy_y, 45);
            assert_eq!(frame.crab_animation_key, "crab");
            assert_eq!(frame.crab_default_sprite, "Decapod#Idle");
            assert_eq!(frame.button, expected_button());
            assert_eq!(frame.button_color, COLOR_BUTTON_REGULAR);
            assert_eq!(frame.button_radius, BUTTON_RADIUS);
            assert_eq!(frame.label_text, "Attack!");
            assert_eq!(frame.label_font, "medium");
            assert_eq!(frame.label_x, 108);
            assert_eq!(frame.label_y, 85);
            assert_eq!(frame.attack, None);
        },
        FrameOutput::Title(_) => panic!("a game frame must draw the game screen"),
    }
}

#[test]
fn completed_tween_is_rearmed_to_its_home_value() {
    // The default tween is already done, so the first game frame re-arms it
    // back to 150: a designed zero-delta motion.
    let mut s = GameState::new();
    s.screen = Screen::Game;
    state_of_game(&mut s, &idle_input());
    assert_eq!(s.wizzy_tween.start, 150);
    assert_eq!(s.wizzy_tween.target, 150);
    assert_eq!(s.wizzy_tween.elapsed, 0);
    assert!(!s.wizzy_tween.done());

    // 119 more frames: the tween runs, never completing, pinned at 150.
    for _ in 0..119 {
        let out = state_of_game(&mut s, &idle_input());
        match out {
            FrameOutput::Game(frame) => assert_eq!(frame.wizzy_x, 150),
            FrameOutput::Title(_) => panic!("the screen never changed"),
        }
        assert!(!s.wizzy_tween.done());
    }

    // The 120th tick completes it; the loop policy re-arms it at once.
    let out = state_of_game(&mut s, &idle_input());
    match out {
        FrameOutput::Game(frame) => assert_eq!(frame.wizzy_x, 150),
        FrameOutput::Title(_) => panic!("the screen never changed"),
    }
    assert_eq!(s.wizzy_tween.elapsed, 0);
    assert_eq!(s.wizzy_tween.get(), 150);
}

#[test]
fn hovered_button_selects_the_hover_color() {
    let mut s = GameState::new();
    s.screen = Screen::Game;
    let mut input = idle_input();
    input.pointer_x = 110;
    input.pointer_y = 85;
    let out = state_of_game(&mut s, &input);
    match out {
        FrameOutput::Game(frame) => {
            assert_eq!(frame.button_color, COLOR_BUTTON_HOVERED);
            assert_eq!(frame.attack, None);
        },
        FrameOutput::Title(_) => panic!("the screen never changed"),
    }
}

#[test]
fn pressed_button_selects_the_pressed_color() {
    let mut s = GameState::new();
    s.screen = Screen::Game;
    let mut input = idle_input();
    input.pointer_x = 104;
    input.pointer_y = 81;
    input.pointer_pressed = true;
    let out = state_of_game(&mut s, &input);
    match out {
        FrameOutput::Game(frame) => assert_eq!(frame.button_color, COLOR_BUTTON_PRESSED),
        FrameOutput::Title(_) => panic!("the screen never changed"),
    }
}

#[test]
fn pressing_outside_the_button_stays_regular() {
    let mut s = GameState::new();
    s.screen = Screen::Game;
    let mut input = idle_input();
    // Exactly at (x + w, y + h): the half-open edges exclude it.
    input.pointer_x = 104 + 48;
    input.pointer_y = 81 + 14;
    input.pointer_pressed = true;
    input.pointer_just_pressed = true;
    let out = state_of_game(&mut s, &input);
    match out {
        FrameOutput::Game(frame) => {
            assert_eq!(frame.button_color, COLOR_BUTTON_REGULAR);
            assert_eq!(frame.attack, None);
        },
        FrameOutput::Title(_) => panic!("the screen never changed"),
    }
    // No click: the tween was merely re-armed home.
    assert_eq!(s.wizzy_tween.target, 150);
}

#[test]
fn clicking_the_button_attacks_and_rearms_the_tween() {
    let mut s = GameState::new();
    s.screen = Screen::Game;
    let mut input = idle_input();
    input.pointer_x = 110;
    input.pointer_y = 85;
    input.pointer_pressed = true;
    input.pointer_just_pressed = true;
    let out = state_of_game(&mut s, &input);
    match out {
        FrameOutput::Game(frame) => {
            assert_eq!(frame.button_color, COLOR_BUTTON_PRESSED);
            let attack = frame.attack.expect("a click must emit the override");
            assert_eq!(attack.clip, "Decapod#Ranged Attack");
            assert_eq!(attack.repeat, ATTACK_REPEAT);
        },
        FrameOutput::Title(_) => panic!("the screen never changed"),
    }
    assert_eq!(s.wizzy_tween.start, 150);
    assert_eq!(s.wizzy_tween.target, 200);
    assert_eq!(s.wizzy_tween.elapsed, 0);

    // The sprite then eases toward 200 on the following frame.
    let out = state_of_game(&mut s, &idle_input());
    match out {
        FrameOutput::Game(frame) => assert_eq!(frame.wizzy_x, 151),
        FrameOutput::Title(_) => panic!("the screen never changed"),
    }
}

#[test]
fn title_frames_leave_the_tween_alone() {
    let mut s = GameState::new();
    let before = s.wizzy_tween;
    state_of_game(&mut s, &idle_input());
    assert_eq!(s.wizzy_tween, before);
}
