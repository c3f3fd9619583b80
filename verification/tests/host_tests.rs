use invaders::commands::{EventKind, MusicAction, SceneKind};
use invaders::game::{FrameOutcome, GameHost, Scene};
use invaders::input::SCANCODE_F11;
use invaders::main_menu_scene::MainMenuScene;
use invaders::space_scene::SpaceScene;

fn menu_host() -> GameHost {
    GameHost::new(Scene::MainMenu(MainMenuScene::new()))
}

#[test]
fn quit_event_stops_the_loop() {
    let mut host = menu_host();
    assert!(host.is_running());
    let (music, toggle) = host.handle_event(EventKind::Quit);
    assert!(!host.is_running());
    assert!(!toggle);
    assert!(music.is_empty());
}

#[test]
fn wheel_event_records_the_scroll_delta() {
    let mut host = menu_host();
    let _ = host.handle_event(EventKind::MouseWheel { y: -3 });
    assert_eq!(host.scroll_amount(), -3);
    host.reset_scroll();
    assert_eq!(host.scroll_amount(), 0);
}

#[test]
fn function_key_asks_for_fullscreen_toggle() {
    let mut host = menu_host();
    let (_, toggle) = host.handle_event(EventKind::KeyDown { scancode: SCANCODE_F11 });
    assert!(toggle);
    assert!(host.is_running());
    let (_, toggle) = host.handle_event(EventKind::KeyDown { scancode: 5 });
    assert!(!toggle);
}

#[test]
fn unfinished_scene_stays_active() {
    let mut host = menu_host();
    let (outcome, music) = host.end_frame();
    assert!(matches!(outcome, FrameOutcome::Continue));
    assert!(music.is_empty());
    assert!(host.is_running());
}

#[test]
fn finished_scene_swaps_to_the_queued_kind() {
    let mut host = menu_host();
    match &mut host.current_scene {
        Scene::MainMenu(m) => m.is_done = true,
        _ => panic!("expected the menu"),
    }
    host.scene_queue.push(SceneKind::Combat);
    let (outcome, music) = host.end_frame();
    assert_eq!(music, vec![MusicAction::Halt]);
    match outcome {
        FrameOutcome::Load(request) => {
            assert_eq!(request.textures.len(), 5);
            assert_eq!(request.textures[0], "ship.png");
            assert_eq!(request.music, Some("Werq.mp3"));
        },
        _ => panic!("expected an asset load"),
    }
    assert!(host.scene_queue.is_empty());
    match &host.current_scene {
        Scene::Combat(c) => {
            assert_eq!(c.score, 0);
            assert_eq!(c.current_level, 1);
        },
        _ => panic!("expected the combat scene"),
    }
    assert!(host.is_running());
}

#[test]
fn finished_scene_with_empty_queue_stops() {
    let mut host = menu_host();
    match &mut host.current_scene {
        Scene::MainMenu(m) => m.is_done = true,
        _ => panic!("expected the menu"),
    }
    let (outcome, music) = host.end_frame();
    assert!(matches!(outcome, FrameOutcome::Stopped));
    assert_eq!(music, vec![MusicAction::Halt]);
    assert!(!host.is_running());
}

#[test]
fn combat_score_is_carried_to_the_game_over_screen() {
    let mut combat = SpaceScene::new();
    combat.score = 900;
    combat.is_done = true;
    let mut host = GameHost::new(Scene::Combat(combat));
    host.scene_queue.push(SceneKind::GameOver);
    let (outcome, music) = host.end_frame();
    assert!(matches!(outcome, FrameOutcome::Load(_)));
    assert_eq!(music, vec![MusicAction::Halt]);
    match &host.current_scene {
        Scene::GameOver(g) => assert_eq!(g.player_score, 900),
        _ => panic!("expected the game-over screen"),
    }
}

#[test]
fn a_full_frame_against_the_menu() {
    let mut host = menu_host();
    let _ = host.handle_event(EventKind::Other);
    let input = invaders::input::InputState::new(
        Vec::new(),
        Vec::new(),
        Vec::new(),
        Vec::new(),
        (1_000, 1_000),
        0,
    );
    host.process_input(&input);
    let sounds = host.update(16, 800_000, 600_000);
    assert!(sounds.is_empty());
    host.late_update(16, 800_000, 600_000);
    let cmds = host.draw(800_000);
    assert!(!cmds.is_empty());
    let (outcome, _) = host.end_frame();
    assert!(matches!(outcome, FrameOutcome::Continue));
}
