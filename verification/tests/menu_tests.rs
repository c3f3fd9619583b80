use invaders::commands::{DrawCommand, MusicAction, SceneKind, SoundId, TextContent};
use invaders::game_over_scene::GameOverScene;
use invaders::input::{InputState, MOUSE_BUTTON_LEFT};
use invaders::main_menu_scene::MainMenuScene;

fn mouse_at(x: i64, y: i64, pressed: bool, previously_pressed: bool) -> InputState {
    InputState::new(
        Vec::new(),
        Vec::new(),
        if pressed { vec![MOUSE_BUTTON_LEFT] } else { Vec::new() },
        if previously_pressed { vec![MOUSE_BUTTON_LEFT] } else { Vec::new() },
        (x, y),
        0,
    )
}

fn loaded_menu() -> MainMenuScene {
    let mut menu = MainMenuScene::new();
    let _ = menu.on_load(None);
    let _ = menu.on_late_load(800_000, 600_000, &Vec::new());
    menu
}

#[test]
fn menu_requests_its_font_and_music() {
    let mut menu = MainMenuScene::new();
    let request = menu.on_load(None);
    assert!(request.textures.is_empty());
    assert_eq!(request.fonts, vec!["Recursive.ttf"]);
    assert_eq!(request.music, Some("Chill Wave.mp3"));
}

#[test]
fn menu_builds_play_and_quit_buttons() {
    let menu = loaded_menu();
    assert_eq!(menu.buttons.len(), 2);
    assert_eq!(menu.buttons[0].text, "Play");
    assert_eq!(menu.buttons[0].midpoint, (400_000, 300_000));
    assert_eq!(menu.buttons[1].text, "Quit");
    assert_eq!(menu.buttons[1].midpoint, (400_000, 450_000));
}

#[test]
fn clicking_play_queues_a_combat_scene() {
    let mut menu = loaded_menu();
    menu.process_input(&mouse_at(400_000, 300_000, true, false));
    assert!(menu.buttons[0].is_hovered);
    assert!(menu.buttons[0].is_clicked);
    assert!(!menu.buttons[1].is_hovered);

    let mut queue: Vec<SceneKind> = Vec::new();
    let sounds = menu.update(16, &mut queue);
    assert!(menu.is_done());
    assert_eq!(queue, vec![SceneKind::Combat]);
    assert_eq!(sounds, vec![SoundId::ButtonHover, SoundId::ButtonSelect]);
}

#[test]
fn clicking_quit_ends_the_menu_with_nothing_queued() {
    let mut menu = loaded_menu();
    menu.process_input(&mouse_at(400_000, 450_000, true, false));
    let mut queue: Vec<SceneKind> = Vec::new();
    let sounds = menu.update(16, &mut queue);
    assert!(menu.is_done());
    assert!(queue.is_empty());
    assert_eq!(sounds, vec![SoundId::ButtonHover, SoundId::ButtonSelect]);
}

#[test]
fn hover_sound_plays_once_per_continuous_hover() {
    let mut menu = loaded_menu();
    let mut queue: Vec<SceneKind> = Vec::new();

    menu.process_input(&mouse_at(400_000, 300_000, false, false));
    let first = menu.update(16, &mut queue);
    assert_eq!(first, vec![SoundId::ButtonHover]);

    menu.process_input(&mouse_at(400_000, 300_000, false, false));
    let second = menu.update(16, &mut queue);
    assert!(second.is_empty());

    // Leaving and re-entering rearms the hover sound.
    menu.process_input(&mouse_at(0, 0, false, false));
    let away = menu.update(16, &mut queue);
    assert!(away.is_empty());
    menu.process_input(&mouse_at(400_000, 300_000, false, false));
    let again = menu.update(16, &mut queue);
    assert_eq!(again, vec![SoundId::ButtonHover]);
}

#[test]
fn held_click_does_not_retrigger() {
    let mut menu = loaded_menu();
    menu.process_input(&mouse_at(400_000, 300_000, true, true));
    assert!(menu.buttons[0].is_hovered);
    assert!(!menu.buttons[0].is_clicked);
}

#[test]
fn menu_draw_has_clear_title_and_buttons() {
    let menu = loaded_menu();
    let cmds = menu.draw(800_000);
    assert_eq!(cmds.len(), 2 + 2 * 2);
    assert!(matches!(cmds[0], DrawCommand::Clear { .. }));
    match cmds[1] {
        DrawCommand::Text { content, .. } => assert_eq!(content, TextContent::Title),
        _ => panic!("expected the title text"),
    }
    assert!(matches!(cmds[2], DrawCommand::FillRect { .. }));
}

#[test]
fn game_over_takes_its_score_from_the_payload() {
    let mut over = GameOverScene::new();
    let request = over.on_load(Some(123));
    assert_eq!(over.player_score, 123);
    assert_eq!(request.fonts, vec!["Recursive.ttf"]);
    assert_eq!(request.music, None);

    let mut negative = GameOverScene::new();
    let _ = negative.on_load(Some(-5));
    assert_eq!(negative.player_score, 0);

    let mut missing = GameOverScene::new();
    let _ = missing.on_load(None);
    assert_eq!(missing.player_score, 0);
}

#[test]
fn play_again_queues_combat() {
    let mut over = GameOverScene::new();
    let _ = over.on_load(Some(50));
    let _ = over.on_late_load(800_000, 600_000, &Vec::new());
    assert_eq!(over.buttons.len(), 2);
    assert_eq!(over.buttons[0].text, "Play Again");
    assert_eq!(over.buttons[1].text, "Back to Menu");

    over.process_input(&mouse_at(400_000, 300_000, true, false));
    let mut queue: Vec<SceneKind> = Vec::new();
    let sounds = over.update(16, &mut queue);
    assert!(over.is_done());
    assert_eq!(queue, vec![SceneKind::Combat]);
    assert_eq!(sounds, vec![SoundId::ButtonHover, SoundId::ButtonSelect]);
}

#[test]
fn finished_game_over_queues_the_menu() {
    let mut over = GameOverScene::new();
    over.is_done = true;
    let mut queue: Vec<SceneKind> = Vec::new();
    let sounds = over.update(16, &mut queue);
    assert_eq!(queue, vec![SceneKind::MainMenu]);
    assert!(sounds.is_empty());
}

#[test]
fn game_over_draw_shows_the_final_score() {
    let mut over = GameOverScene::new();
    let _ = over.on_load(Some(777));
    let _ = over.on_late_load(800_000, 600_000, &Vec::new());
    let cmds = over.draw(800_000);
    assert_eq!(cmds.len(), 3 + 2 * 2);
    match cmds[1] {
        DrawCommand::Text { content, .. } => assert_eq!(content, TextContent::GameOverHeader),
        _ => panic!("expected the header text"),
    }
    match cmds[2] {
        DrawCommand::Text { content, .. } => {
            assert_eq!(content, TextContent::FinalScore(777))
        },
        _ => panic!("expected the score text"),
    }
    let music = over.poll_event(invaders::commands::EventKind::FocusLost);
    assert!(music.is_empty());
    let (payload, halt) = over.on_unload();
    assert_eq!(payload, None);
    assert!(halt.is_empty());
    assert_eq!(halt, Vec::<MusicAction>::new());
}
