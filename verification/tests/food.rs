use snake_engine::food::{generate_apple, BoardFullError};
use snake_engine::geometry::{coords, Coords};

fn pt(x: i32, y: i32) -> Coords {
    coords(x, y)
}

fn spawn_body() -> Vec<Coords> {
    vec![pt(200, 200), pt(180, 200), pt(160, 200), pt(140, 200)]
}

#[test]
fn first_acceptable_candidate_is_chosen() {
    let occupied = spawn_body();
    let cands = vec![pt(100, 100), pt(120, 120)];
    assert_eq!(generate_apple(&occupied, &cands), Ok(pt(100, 100)));
}

#[test]
fn occupied_cells_are_skipped() {
    let occupied = spawn_body();
    let cands = vec![pt(200, 200), pt(180, 200), pt(120, 120)];
    assert_eq!(generate_apple(&occupied, &cands), Ok(pt(120, 120)));
}

#[test]
fn border_cells_are_skipped() {
    // 0 and 480 are the cells the raw draw can produce outside the
    // [20, 460] margin; both are rejected.
    let occupied = spawn_body();
    let cands = vec![pt(0, 100), pt(100, 0), pt(480, 100), pt(100, 480), pt(100, 100)];
    assert_eq!(generate_apple(&occupied, &cands), Ok(pt(100, 100)));
}

#[test]
fn unaligned_cells_are_skipped() {
    let occupied = spawn_body();
    let cands = vec![pt(110, 100), pt(100, 110), pt(100, 100)];
    assert_eq!(generate_apple(&occupied, &cands), Ok(pt(100, 100)));
}

#[test]
fn board_full_when_no_candidate_fits() {
    let occupied = spawn_body();
    let cands = vec![pt(0, 0), pt(480, 480), pt(200, 200), pt(30, 30)];
    assert_eq!(generate_apple(&occupied, &cands), Err(BoardFullError));
}

#[test]
fn empty_candidates_mean_board_full() {
    let occupied = spawn_body();
    let cands: Vec<Coords> = Vec::new();
    assert_eq!(generate_apple(&occupied, &cands), Err(BoardFullError));
}

#[test]
fn randomized_trials_never_collide_or_touch_margin() {
    // Ten thousand draws from a deterministic generator: whatever placement
    // returns is never on the occupied set and never within one cell of the
    // canvas border.
    let occupied = spawn_body();
    let mut seed: u64 = 0x2545F4914F6CDD1D;
    let mut draw = move || {
        seed = seed.wrapping_mul(6364136223846793005).wrapping_add(1442695040888963407);
        ((seed >> 33) % 25) as i32 * 20
    };
    let mut placed = 0u32;
    for _ in 0..10_000 {
        let cands = vec![pt(draw(), draw())];
        match generate_apple(&occupied, &cands) {
            Ok(c) => {
                placed += 1;
                assert!(!occupied.contains(&c));
                assert!(c.x >= 20 && c.x <= 460);
                assert!(c.y >= 20 && c.y <= 460);
                assert!(c.x % 20 == 0 && c.y % 20 == 0);
            }
            Err(BoardFullError) => {
                // The lone candidate was on the border or occupied.
            }
        }
    }
    assert!(placed > 5_000);
}
