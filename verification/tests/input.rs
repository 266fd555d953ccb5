use snake_engine::geometry::{coords, grid_lines, Coords};
use snake_engine::input::msg_for_key;
use snake_engine::state::Msg;

#[test]
fn arrow_keys_map_to_directions() {
    assert_eq!(msg_for_key("ArrowLeft"), Msg::Left);
    assert_eq!(msg_for_key("ArrowRight"), Msg::Right);
    assert_eq!(msg_for_key("ArrowUp"), Msg::Up);
    assert_eq!(msg_for_key("ArrowDown"), Msg::Down);
}

#[test]
fn bare_arrow_names_map_to_directions() {
    assert_eq!(msg_for_key("Left"), Msg::Left);
    assert_eq!(msg_for_key("Right"), Msg::Right);
    assert_eq!(msg_for_key("Up"), Msg::Up);
    assert_eq!(msg_for_key("Down"), Msg::Down);
}

#[test]
fn wasd_letters_map_to_directions() {
    assert_eq!(msg_for_key("a"), Msg::Left);
    assert_eq!(msg_for_key("d"), Msg::Right);
    assert_eq!(msg_for_key("w"), Msg::Up);
    assert_eq!(msg_for_key("s"), Msg::Down);
}

#[test]
fn restart_keys_map_to_restart() {
    assert_eq!(msg_for_key("r"), Msg::Restart);
    assert_eq!(msg_for_key(" "), Msg::Restart);
}

#[test]
fn other_keys_are_ignored() {
    assert_eq!(msg_for_key("Enter"), Msg::Ignore);
    assert_eq!(msg_for_key("Escape"), Msg::Ignore);
    assert_eq!(msg_for_key("A"), Msg::Ignore);
    assert_eq!(msg_for_key(""), Msg::Ignore);
    assert_eq!(msg_for_key("ArrowLeftX"), Msg::Ignore);
}

#[test]
fn geometry_building_blocks() {
    let p = coords(40, 60).add(&coords(-20, 20));
    assert_eq!(p, coords(20, 80));
    let q = Coords::from_cells(3, 24);
    assert_eq!(q, coords(60, 480));
}

#[test]
fn grid_lines_cover_inner_cell_boundaries() {
    let v = grid_lines();
    assert_eq!(v.len(), 24);
    assert_eq!(v[0], 20);
    assert_eq!(v[23], 480);
    for (i, x) in v.iter().enumerate() {
        assert_eq!(*x, 20 * (i as i32 + 1));
    }
}
