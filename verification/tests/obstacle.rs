use bracket_lib::random::RandomNumberGenerator;
use flappy_dragon::{Draw, Obstacle, Player, Sprite};

fn wall(column: i32, row: i32) -> Draw {
    Draw::Glyph { column, row, sprite: Sprite::Wall }
}

#[test]
fn gap_shrinks_with_the_score_down_to_two() {
    let cases = [(0, 20), (1, 19), (5, 15), (17, 3), (18, 2), (19, 2), (20, 2), (1000, 2), (i32::MAX, 2)];
    for (score, size) in cases {
        assert_eq!(Obstacle::with_gap(80, 25, score).size, size);
    }
    assert_eq!(Obstacle::with_gap(80, 25, -3).size, 23);
}

#[test]
fn with_gap_keeps_column_and_row() {
    assert_eq!(Obstacle::with_gap(123, 31, 4), Obstacle { x: 123, gap_y: 31, size: 16 });
}

#[test]
fn new_obstacle_draws_its_gap_from_rows_10_to_39() {
    let mut rng = RandomNumberGenerator::seeded(1);
    let mut rows = Vec::new();
    for score in 0..300 {
        let obstacle = Obstacle::new(80 + score, score, &mut rng);
        assert_eq!(obstacle.x, 80 + score);
        assert_eq!(obstacle.size, if score >= 18 { 2 } else { 20 - score });
        assert!(10 <= obstacle.gap_y && obstacle.gap_y < 40);
        rows.push(obstacle.gap_y);
    }
    assert!(rows.iter().any(|row| *row != rows[0]));
    assert!(rows.iter().any(|row| *row != 10));
}

#[test]
fn hit_needs_the_same_column() {
    let obstacle = Obstacle { x: 80, gap_y: 25, size: 20 };
    assert!(!obstacle.hit_obstacle(&Player { x: 79, y: 0, velocity: 0 }));
    assert!(!obstacle.hit_obstacle(&Player { x: 81, y: 49, velocity: 0 }));
    assert!(obstacle.hit_obstacle(&Player { x: 80, y: 0, velocity: 0 }));
    assert!(obstacle.hit_obstacle(&Player { x: 80, y: 49, velocity: 0 }));
}

#[test]
fn edge_rows_of_the_gap_are_safe() {
    let obstacle = Obstacle { x: 80, gap_y: 25, size: 20 };
    assert!(obstacle.hit_obstacle(&Player { x: 80, y: 14, velocity: 0 }));
    assert!(!obstacle.hit_obstacle(&Player { x: 80, y: 15, velocity: 0 }));
    assert!(!obstacle.hit_obstacle(&Player { x: 80, y: 25, velocity: 0 }));
    assert!(!obstacle.hit_obstacle(&Player { x: 80, y: 35, velocity: 0 }));
    assert!(obstacle.hit_obstacle(&Player { x: 80, y: 36, velocity: 0 }));
}

#[test]
fn half_of_an_odd_gap_rounds_down() {
    let obstacle = Obstacle { x: 5, gap_y: 20, size: 5 };
    assert!(obstacle.hit_obstacle(&Player { x: 5, y: 17, velocity: 0 }));
    assert!(!obstacle.hit_obstacle(&Player { x: 5, y: 18, velocity: 0 }));
    assert!(!obstacle.hit_obstacle(&Player { x: 5, y: 22, velocity: 0 }));
    assert!(obstacle.hit_obstacle(&Player { x: 5, y: 23, velocity: 0 }));
}

#[test]
fn wall_is_drawn_above_and_below_the_gap() {
    let obstacle = Obstacle { x: 80, gap_y: 25, size: 20 };
    let draws = obstacle.render(10);
    let mut expected = Vec::new();
    for row in 0..15 {
        expected.push(wall(70, row));
    }
    for row in 35..50 {
        expected.push(wall(70, row));
    }
    assert_eq!(draws, expected);
}

#[test]
fn narrow_gap_leaves_two_rows_open_above_the_lower_wall() {
    let obstacle = Obstacle { x: 3, gap_y: 10, size: 2 };
    let draws = obstacle.render(3);
    assert_eq!(draws.len(), 9 + 39);
    assert_eq!(draws[0], wall(0, 0));
    assert_eq!(draws[8], wall(0, 8));
    assert_eq!(draws[9], wall(0, 11));
    assert_eq!(draws[47], wall(0, 49));
}

#[test]
fn passed_wall_is_drawn_in_a_negative_column() {
    let obstacle = Obstacle { x: 10, gap_y: 1, size: 4 };
    let draws = obstacle.render(12);
    assert_eq!(draws.len(), 47);
    assert_eq!(draws[0], wall(-2, 3));
}

#[test]
fn gap_below_the_screen_draws_only_the_upper_wall() {
    let obstacle = Obstacle { x: 0, gap_y: 60, size: 4 };
    let draws = obstacle.render(0);
    assert_eq!(draws.len(), 58);
    assert_eq!(draws[57], wall(0, 57));
}

#[test]
fn fits_render_tells_the_limits() {
    let obstacle = Obstacle { x: 80, gap_y: 25, size: 20 };
    assert!(obstacle.fits_render(0));
    assert!(obstacle.fits_render(i32::MAX));
    assert!(!obstacle.fits_render(i32::MIN));
    assert!(!Obstacle { x: 0, gap_y: i32::MAX, size: 2 }.fits_render(0));
    assert!(!Obstacle { x: 0, gap_y: i32::MIN, size: 2 }.fits_render(0));
    assert!(Obstacle { x: 0, gap_y: i32::MAX - 1, size: 2 }.fits_render(0));
}

#[test]
fn equal_generators_draw_equal_gaps() {
    let mut one = RandomNumberGenerator::seeded(2024);
    let mut other = RandomNumberGenerator::seeded(2024);
    for score in 0..100 {
        assert_eq!(Obstacle::new(5, score, &mut one), Obstacle::new(5, score, &mut other));
    }
}
