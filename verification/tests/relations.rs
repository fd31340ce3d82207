use multi_client::history::KeyCommand;
use multi_client::lines::{relink_lines, remove_component_events, LineRecord};
use multi_client::prediction::latest_owned_tick;
use multi_client::relations::{
    cursor_position, random_cursor_position, render_for, ColorValue, Global, MeshKind, OwnedEntity,
    Render, ShapeValue,
};

const UP: KeyCommand = KeyCommand { w: true, s: false, a: false, d: false };

fn owning() -> Global {
    let mut g = Global::new();
    g.assign_ownership(10, Some(11), None);
    g.queued_command = Some(UP);
    g
}

#[test]
fn cursor_spots_span_the_grid() {
    assert_eq!(cursor_position(0, 0), (-320, -240));
    assert_eq!(cursor_position(39, 29), (304, 224));
    assert_eq!(cursor_position(20, 15), (0, 0));
}

#[test]
fn random_cursor_lies_on_the_grid() {
    for _ in 0..50 {
        let (x, y) = random_cursor_position();
        assert!((-320..=304).contains(&x) && x % 16 == 0);
        assert!((-240..=224).contains(&y) && y % 16 == 0);
    }
}

#[test]
fn shapes_are_drawn_as_sprites_or_meshes() {
    assert_eq!(render_for(ShapeValue::Square, ColorValue::Red), Render::Sprite(ColorValue::Red));
    assert_eq!(render_for(ShapeValue::Circle, ColorValue::Aqua), Render::Mesh(MeshKind::Circle, ColorValue::Aqua));
    assert_eq!(render_for(ShapeValue::BigCircle, ColorValue::Green), Render::Mesh(MeshKind::BigCircle, ColorValue::Green));
}

#[test]
fn ownership_is_given_and_taken_back() {
    let mut g = Global::new();
    assert_eq!(g.assign_ownership(10, Some(11), Some(ColorValue::Blue)), None);
    g.connect_event(99);
    assert_eq!(g.assign_ownership(10, Some(11), Some(ColorValue::Blue)), Some((99, ColorValue::Blue)));
    assert_eq!(g.owned_entity, Some(OwnedEntity { confirmed: 10, predicted: 11 }));
    assert_eq!(g.release_ownership(12), None);
    assert!(g.owned_entity.is_some());
    assert_eq!(g.release_ownership(10), Some(11));
    assert_eq!(g.owned_entity, None);
    assert_eq!(g.release_ownership(10), None);
}

#[test]
fn no_prediction_without_a_position() {
    let mut g = Global::new();
    g.assign_ownership(10, None, None);
    assert_eq!(g.owned_entity, None);
}

#[test]
fn command_is_recorded_on_each_later_tick() {
    let mut g = owning();
    let sent = g.tick_events(&vec![5, 6, 6, 4, 7]);
    assert_eq!(sent, vec![(5, UP), (6, UP), (7, UP)]);
    assert_eq!(g.queued_command, None);
    assert!(g.tick_events(&vec![8]).is_empty());
}

#[test]
fn nothing_is_recorded_without_an_owned_entity() {
    let mut g = Global::new();
    g.queued_command = Some(UP);
    assert!(g.tick_events(&vec![1, 2]).is_empty());
    assert_eq!(g.queued_command, Some(UP));
}

#[test]
fn rollback_replays_what_the_server_has_not_seen() {
    let mut g = owning();
    g.tick_events(&vec![5, 6, 7]);
    let mut lines: Vec<LineRecord> = vec![];
    let replay = g.update_component_events(&vec![(6, 10), (9, 3)], &vec![], &mut lines, true);
    assert_eq!(replay, vec![(6, UP), (7, UP)]);
    let replay = g.update_component_events(&vec![(7, 10)], &vec![], &mut lines, true);
    assert_eq!(replay, vec![(7, UP)]);
    let replay = g.update_component_events(&vec![(8, 10)], &vec![], &mut lines, false);
    assert!(replay.is_empty());
    let replay = g.update_component_events(&vec![(9, 10)], &vec![], &mut lines, true);
    assert!(replay.is_empty());
}

#[test]
fn latest_tick_wraps_around() {
    assert_eq!(latest_owned_tick(&vec![(65535, 1), (2, 1), (1, 1)], 1), Some(2));
    assert_eq!(latest_owned_tick(&vec![(3, 2), (2, 1)], 1), Some(2));
    assert_eq!(latest_owned_tick(&vec![(3, 2)], 1), None);
}

#[test]
fn relation_updates_repoint_the_first_line() {
    let mut lines = vec![
        LineRecord { line: 1, start: 5, end: Some(6) },
        LineRecord { line: 2, start: 5, end: Some(7) },
        LineRecord { line: 3, start: 8, end: None },
    ];
    relink_lines(&mut lines, &vec![(5, Some(9)), (8, Some(5)), (4, None)]);
    assert_eq!(lines[0].end, Some(9));
    assert_eq!(lines[1].end, Some(7));
    assert_eq!(lines[2].end, Some(5));
}

#[test]
fn lines_follow_relations_only_while_owning() {
    let mut g = Global::new();
    let mut lines = vec![LineRecord { line: 1, start: 5, end: None }];
    g.update_component_events(&vec![], &vec![(5, Some(6))], &mut lines, true);
    assert_eq!(lines[0].end, None);
    let mut g = owning();
    g.update_component_events(&vec![], &vec![(5, Some(6))], &mut lines, true);
    assert_eq!(lines[0].end, Some(6));
}

#[test]
fn removed_relations_despawn_their_lines() {
    let lines = vec![
        LineRecord { line: 1, start: 5, end: None },
        LineRecord { line: 2, start: 6, end: None },
    ];
    assert_eq!(remove_component_events(&lines, &vec![6, 7, 5, 6]), vec![2, 1, 2]);
}
