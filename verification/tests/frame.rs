use ecoclient::geometry::{Point, Position, Rect};
use ecoclient::queue::OutboundQueue;
use ecoclient::render::{Colour, DrawCell, Renderable};
use ecoclient::runstate::{player_input, shift_rect, Command, InputEvent, Runstate};
use ecoclient::snapshot::{Data, SnapshotStore};
use ecoclient::state::State;
use ecoclient::status::{CombatStats, Entry, MyInfo, PlayerInfo};

const WHITE: Colour = Colour { r: 255, g: 255, b: 255 };
const BLACK: Colour = Colour { r: 0, g: 0, b: 0 };
const WIDGET: Rect = Rect { width: 2, height: 6, x: 5, y: 5 };

fn status(x: i32, y: i32, hp: i32) -> PlayerInfo {
    PlayerInfo {
        inventaire: vec![Entry { id: 1, name: "axe".to_string() }],
        close_interations: vec![],
        my_info: MyInfo { pos: Position { x, y }, hp, max_hp: 10, player_log: vec!["hello".to_string()] },
        possible_builds: vec![Entry { id: 7, name: "wall".to_string() }],
        equipement: vec![],
        combat_stats: CombatStats { max_hp: 10, hp, defense: 1, power: 2 },
    }
}

fn world(uid: &str) -> Data {
    let tree = Renderable { glyph: 5, fg: WHITE, bg: BLACK, render_order: 1 };
    let grass = Renderable { glyph: 6, fg: WHITE, bg: BLACK, render_order: 4 };
    Data::new(
        vec![Point { x: 2, y: 3 }],
        uid.to_string(),
        vec![(Point { x: 11, y: 10 }, tree), (Point { x: 11, y: 10 }, grass), (Point { x: 400, y: 10 }, tree)],
        "payload".to_string(),
    )
}

fn go(
    uid: &str,
    event: InputEvent,
    state: Runstate,
    rect: Rect,
    pseudo: &str,
) -> (Runstate, Option<Command>, Rect, String) {
    let mut rect = rect;
    let mut pseudo = pseudo.to_string();
    let (next, command) = player_input(&uid.to_string(), event, &state, &mut rect, &mut pseudo);
    (next, command, rect, pseudo)
}

fn is_register(command: &Option<Command>, name: &str) -> bool {
    matches!(command, Some(Command::Register { pseudo }) if pseudo == name)
}

fn is_move(command: &Option<Command>, x: i32, y: i32) -> bool {
    matches!(command, Some(Command::Move { dx, dy }) if *dx == x && *dy == y)
}

#[test]
fn first_frame_waits_for_registration() {
    let state = State::new();
    assert_eq!(state.runstate, Runstate::Register);
    assert_eq!(state.pseudo, "");
    assert_eq!(state.rectangle, WIDGET);
    assert_eq!(state.player_info.my_info.pos, Position { x: 0, y: 0 });
    assert_eq!(state.player_info.my_info.hp, 0);
    assert!(state.player_info.inventaire.is_empty());
}

#[test]
fn identity_ends_registration_without_a_command() {
    let mut store = SnapshotStore::new();
    let mut queue = OutboundQueue::new();
    let mut state = State::new();

    let frame = state.tick(&store.read(), Some(status(0, 0, 1)), InputEvent::Nothing);
    assert_eq!(state.runstate, Runstate::Register);
    assert!(frame.command.is_none());

    store.write(world("P1"));
    let frame = state.tick(&store.read(), Some(status(0, 0, 1)), InputEvent::Confirm);
    assert_eq!(state.runstate, Runstate::Exploring);
    assert!(frame.command.is_none());
    if let Some(Command::Register { pseudo }) = frame.command {
        queue.enqueue(pseudo);
    }
    assert!(queue.is_empty());
}

#[test]
fn registration_types_a_pseudo_and_sends_it() {
    let snapshot = Data::default();
    let mut state = State::new();
    for c in "bobx".chars() {
        let frame = state.tick(&snapshot, None, InputEvent::Character(c));
        assert!(frame.command.is_none());
    }
    assert_eq!(state.pseudo, "bobx");
    state.tick(&snapshot, None, InputEvent::Erase);
    assert_eq!(state.pseudo, "bob");
    let frame = state.tick(&snapshot, None, InputEvent::Confirm);
    assert!(is_register(&frame.command, "bob"));
    assert_eq!(state.runstate, Runstate::Register);
    assert_eq!(state.pseudo, "bob");
}

#[test]
fn registration_ignores_what_means_nothing() {
    let (next, command, rect, pseudo) = go("", InputEvent::Confirm, Runstate::Register, WIDGET, "");
    assert_eq!((next, command.is_none(), rect, pseudo.as_str()), (Runstate::Register, true, WIDGET, ""));
    let (next, command, rect, pseudo) = go("", InputEvent::Erase, Runstate::Register, WIDGET, "");
    assert_eq!((next, command.is_none(), rect, pseudo.as_str()), (Runstate::Register, true, WIDGET, ""));
    for event in [InputEvent::Nothing, InputEvent::ToggleMenu, InputEvent::Move { dx: 1, dy: 0 }] {
        let (next, command, rect, pseudo) = go("", event, Runstate::Register, WIDGET, "ab");
        assert_eq!((next, command.is_none(), rect, pseudo.as_str()), (Runstate::Register, true, WIDGET, "ab"));
    }
}

#[test]
fn identity_ends_registration_whatever_the_input() {
    for event in [
        InputEvent::Nothing,
        InputEvent::Move { dx: 1, dy: 1 },
        InputEvent::ToggleMenu,
        InputEvent::Character('z'),
        InputEvent::Erase,
        InputEvent::Confirm,
    ] {
        let (next, command, rect, pseudo) = go("P1", event, Runstate::Register, WIDGET, "bob");
        assert_eq!(next, Runstate::Exploring);
        assert!(command.is_none());
        assert_eq!(rect, WIDGET);
        assert_eq!(pseudo, "bob");
    }
}

#[test]
fn exploring_moves_and_opens_the_menu() {
    let (next, command, rect, _) = go("P1", InputEvent::Move { dx: -1, dy: 1 }, Runstate::Exploring, WIDGET, "");
    assert_eq!(next, Runstate::Exploring);
    assert!(is_move(&command, -1, 1));
    assert_eq!(rect, WIDGET);
    let (next, command, _, _) = go("P1", InputEvent::ToggleMenu, Runstate::Exploring, WIDGET, "");
    assert_eq!(next, Runstate::Menu);
    assert!(command.is_none());
    for event in [InputEvent::Nothing, InputEvent::Character('a'), InputEvent::Erase, InputEvent::Confirm] {
        let (next, command, rect, pseudo) = go("P1", event, Runstate::Exploring, WIDGET, "bob");
        assert_eq!((next, command.is_none(), rect, pseudo.as_str()), (Runstate::Exploring, true, WIDGET, "bob"));
    }
}

#[test]
fn menu_moves_the_widget_and_closes() {
    let (next, command, rect, _) = go("P1", InputEvent::Move { dx: 3, dy: -7 }, Runstate::Menu, WIDGET, "");
    assert_eq!(next, Runstate::Menu);
    assert!(command.is_none());
    assert_eq!(rect, Rect { width: 2, height: 6, x: 8, y: -2 });
    let (next, command, rect, _) = go("P1", InputEvent::ToggleMenu, Runstate::Menu, WIDGET, "");
    assert_eq!((next, command.is_none(), rect), (Runstate::Exploring, true, WIDGET));
    for event in [InputEvent::Nothing, InputEvent::Character('a'), InputEvent::Erase, InputEvent::Confirm] {
        let (next, command, rect, pseudo) = go("P1", event, Runstate::Menu, WIDGET, "bob");
        assert_eq!((next, command.is_none(), rect, pseudo.as_str()), (Runstate::Menu, true, WIDGET, "bob"));
    }
}

#[test]
fn widget_stays_where_a_step_would_leave_the_coordinates() {
    let edge = Rect { width: 2, height: 6, x: i32::MAX - 2, y: 0 };
    assert_eq!(shift_rect(&edge, 1, 0), edge);
    assert_eq!(shift_rect(&edge, 0, i32::MAX), edge);
    assert_eq!(shift_rect(&edge, -1, 1), Rect { width: 2, height: 6, x: i32::MAX - 3, y: 1 });
    let low = Rect { width: 2, height: 6, x: i32::MIN, y: i32::MIN };
    assert_eq!(shift_rect(&low, -1, 0), low);
    assert_eq!(shift_rect(&low, 0, -1), low);
    assert_eq!(shift_rect(&low, i32::MAX, i32::MAX), Rect { width: 2, height: 6, x: -1, y: -1 });
    assert_eq!(shift_rect(&WIDGET, 0, 0), WIDGET);
}

#[test]
fn failed_decode_keeps_the_status_and_gives_one_diagnostic() {
    let mut state = State::new();
    let frame = state.tick(&world("P1"), Some(status(10, 10, 8)), InputEvent::Nothing);
    assert!(frame.diagnostic.is_none());
    assert_eq!(state.player_info.my_info.hp, 8);

    let frame = state.tick(&world("P1"), None, InputEvent::Nothing);
    assert_eq!(frame.diagnostic, Some("unable to deserialize json".to_string()));
    assert_eq!(state.player_info.my_info.pos, Position { x: 10, y: 10 });
    assert_eq!(state.player_info.my_info.hp, 8);
    assert_eq!(state.player_info.my_info.max_hp, 10);
    assert_eq!(state.player_info.my_info.player_log, vec!["hello".to_string()]);
    assert_eq!(state.player_info.inventaire.len(), 1);
    assert_eq!(state.player_info.inventaire[0].name, "axe");
    assert_eq!(state.player_info.possible_builds[0].id, 7);
    assert_eq!(state.player_info.combat_stats, CombatStats { max_hp: 10, hp: 8, defense: 1, power: 2 });
    assert_eq!(frame.world.len(), 3);
    assert_eq!((frame.world[0].x, frame.world[0].y), (31, 30));

    let frame = state.tick(&world("P1"), Some(status(11, 10, 3)), InputEvent::Nothing);
    assert!(frame.diagnostic.is_none());
    assert_eq!(state.player_info.my_info.hp, 3);
    assert_eq!((frame.world[0].x, frame.world[0].y), (30, 30));
}

#[test]
fn refresh_replaces_or_keeps() {
    let mut info = PlayerInfo::new();
    assert_eq!(info.refresh(None), Some("unable to deserialize json".to_string()));
    assert_eq!(info.my_info.hp, 0);
    assert!(info.inventaire.is_empty());
    assert_eq!(info.combat_stats, CombatStats { max_hp: 0, hp: 0, defense: 0, power: 0 });
    assert_eq!(info.refresh(Some(status(1, 2, 3))), None);
    assert_eq!(info.my_info.pos, Position { x: 1, y: 2 });
    assert_eq!(info.my_info.hp, 3);
    assert_eq!(info.refresh(None), Some("unable to deserialize json".to_string()));
    assert_eq!(info.my_info.hp, 3);
}

#[test]
fn frame_draws_world_then_player_then_markers() {
    let mut state = State::new();
    let frame = state.tick(&world("P1"), Some(status(10, 10, 8)), InputEvent::Nothing);
    assert_eq!(
        frame.world,
        vec![
            DrawCell { x: 31, y: 30, fg: WHITE, bg: BLACK, glyph: 6 },
            DrawCell { x: 31, y: 30, fg: WHITE, bg: BLACK, glyph: 5 },
            DrawCell { x: 30, y: 30, fg: WHITE, bg: BLACK, glyph: 64 },
        ]
    );
    assert_eq!(frame.markers, vec![DrawCell { x: 2, y: 3, fg: WHITE, bg: BLACK, glyph: 88 }]);
}

#[test]
fn frame_on_the_initial_snapshot_draws_the_player_alone() {
    let mut state = State::new();
    let frame = state.tick(&SnapshotStore::new().read(), None, InputEvent::Nothing);
    assert_eq!(frame.world, vec![DrawCell { x: 30, y: 30, fg: WHITE, bg: BLACK, glyph: 64 }]);
    assert!(frame.markers.is_empty());
    assert!(frame.command.is_none());
    assert_eq!(state.runstate, Runstate::Register);
}

#[test]
fn commands_of_frames_reach_the_queue_in_order() {
    let mut queue = OutboundQueue::new();
    let mut state = State::new();
    let snapshot = world("P1");
    let events = [
        InputEvent::Nothing,
        InputEvent::Move { dx: 1, dy: 0 },
        InputEvent::ToggleMenu,
        InputEvent::Move { dx: 5, dy: 5 },
        InputEvent::ToggleMenu,
        InputEvent::Move { dx: 0, dy: -1 },
    ];
    for event in events {
        let frame = state.tick(&snapshot, None, event);
        if let Some(Command::Move { dx, dy }) = frame.command {
            queue.enqueue(format!("move {} {}", dx, dy));
        }
    }
    assert_eq!(state.runstate, Runstate::Exploring);
    assert_eq!(state.rectangle, Rect { width: 2, height: 6, x: 10, y: 10 });
    assert_eq!(queue.drain_all(), vec!["move 1 0".to_string(), "move 0 -1".to_string()]);
}
