use invaders::bullet::{Bullet, BULLET_SIDE};
use invaders::draw::{Color, DrawCommand};
use invaders::spaceship::{SpaceShip, SHIP_MASS, SHIP_SIDE};
use invaders::vec2::{Vec2, SUBPIXELS};

fn v(x: i64, y: i64) -> Vec2 {
    Vec2 { x, y }
}

#[test]
fn vec2_plus_and_accumulate() {
    assert_eq!(v(3, -4).plus(v(10, 20)), v(13, 16));
    let mut a = v(1, 2);
    a.accumulate(v(-5, 5));
    assert_eq!(a, v(-4, 7));
}

#[test]
fn vec2_sums_saturate() {
    assert_eq!(v(i64::MAX - 1, i64::MIN + 1).plus(v(5, -5)), v(i64::MAX, i64::MIN));
    let mut a = v(i64::MAX, 0);
    a.accumulate(v(1, 0));
    assert_eq!(a, v(i64::MAX, 0));
}

#[test]
fn vec2_div_rounds_toward_zero() {
    assert_eq!(v(7, -7).div(2), v(3, -3));
    assert_eq!(v(10, -10).div(5), v(2, -2));
    assert_eq!(v(i64::MIN, i64::MAX).div(1), v(i64::MIN, i64::MAX));
}

#[test]
fn vec2_clear_zeroes() {
    let mut a = v(9, -9);
    a.clear();
    assert_eq!(a, Vec2::new());
    assert_eq!(Vec2::new(), v(0, 0));
}

#[test]
fn vec2_clamp_inside_does_not_fire() {
    let mut a = v(5, 5);
    assert!(!a.clamp(v(0, 0), v(10, 10)));
    assert_eq!(a, v(5, 5));
    let mut edge = v(10, 0);
    assert!(!edge.clamp(v(0, 0), v(10, 10)));
    assert_eq!(edge, v(10, 0));
}

#[test]
fn vec2_clamp_fires_per_axis() {
    let mut a = v(-3, 5);
    assert!(a.clamp(v(0, 0), v(10, 10)));
    assert_eq!(a, v(0, 5));
    let mut b = v(4, 11);
    assert!(b.clamp(v(0, 0), v(10, 10)));
    assert_eq!(b, v(4, 10));
    let mut c = v(-1, 99);
    assert!(c.clamp(v(0, 0), v(10, 10)));
    assert_eq!(c, v(0, 10));
}

#[test]
fn vec2_clamp_tests_lower_bound_first() {
    let mut a = v(-5, 5);
    assert!(a.clamp(v(0, 0), v(-10, -10)));
    assert_eq!(a, v(0, -10));
}

#[test]
fn new_ship_is_at_rest() {
    let s = SpaceShip::new(100 * SUBPIXELS, 200 * SUBPIXELS);
    assert_eq!(s.get_position(), v(100 * SUBPIXELS, 200 * SUBPIXELS));
    assert_eq!(s.size(), v(25 * SUBPIXELS, 25 * SUBPIXELS));
    assert_eq!(s.size(), v(SHIP_SIDE, SHIP_SIDE));
    assert_eq!(s.velocity(), Vec2::new());
    assert_eq!(s.acceleration(), Vec2::new());
    assert_eq!(s.force(), Vec2::new());
    assert_eq!(SHIP_MASS, 5);
    assert!(s.projectiles().is_empty());
}

#[test]
fn add_force_accumulates() {
    let mut s = SpaceShip::new(0, 0);
    s.add_force(v(3, 4));
    s.add_force(v(-1, 6));
    assert_eq!(s.force(), v(2, 10));
    assert_eq!(s.velocity(), Vec2::new());
}

#[test]
fn integration_order() {
    let mut s = SpaceShip::new(0, 0);
    s.add_force(v(10 * SUBPIXELS, 0));
    s.update(800, 600);
    assert_eq!(s.acceleration(), v(2 * SUBPIXELS, 0));
    assert_eq!(s.velocity(), v(2 * SUBPIXELS, 0));
    assert_eq!(s.get_position(), v(0, 0));
    assert_eq!(s.force(), v(5 * SUBPIXELS, 0));
    s.update(800, 600);
    assert_eq!(s.get_position(), v(2 * SUBPIXELS, 0));
    assert_eq!(s.acceleration(), v(SUBPIXELS, 0));
    assert_eq!(s.velocity(), v(3 * SUBPIXELS, 0));
}

#[test]
fn drag_halves_force_each_tick() {
    let mut s = SpaceShip::new(400 * SUBPIXELS, 300 * SUBPIXELS);
    let f: i64 = 1 << 10;
    s.add_force(v(f, -f));
    for n in 1..=6u32 {
        s.update(800, 600);
        assert_eq!(s.force(), v(f >> n, -(f >> n)));
    }
}

#[test]
fn drag_decays_force_to_zero() {
    let mut s = SpaceShip::new(400 * SUBPIXELS, 300 * SUBPIXELS);
    s.add_force(v(5, -3));
    s.update(800, 600);
    assert_eq!(s.force(), v(2, -1));
    s.update(800, 600);
    assert_eq!(s.force(), v(1, 0));
    s.update(800, 600);
    assert_eq!(s.force(), v(0, 0));
}

#[test]
fn wall_hit_stops_the_craft() {
    let right = 800 * SUBPIXELS - SHIP_SIDE;
    let mut s = SpaceShip::new(right - SUBPIXELS, 100 * SUBPIXELS);
    s.add_force(v(100 * SUBPIXELS, 0));
    s.update(800, 600);
    assert_eq!(s.velocity(), v(20 * SUBPIXELS, 0));
    assert_eq!(s.get_position(), v(right - SUBPIXELS, 100 * SUBPIXELS));
    s.update(800, 600);
    assert_eq!(s.get_position(), v(right, 100 * SUBPIXELS));
    assert_eq!(s.velocity(), Vec2::new());
    assert_eq!(s.acceleration(), Vec2::new());
    assert_eq!(s.force(), Vec2::new());
}

#[test]
fn craft_starting_outside_is_pulled_in() {
    let mut s = SpaceShip::new(-50 * SUBPIXELS, 1000 * SUBPIXELS);
    s.add_force(v(7, 7));
    s.update(800, 600);
    assert_eq!(s.get_position(), v(0, 600 * SUBPIXELS - SHIP_SIDE));
    assert_eq!(s.velocity(), Vec2::new());
    assert_eq!(s.force(), Vec2::new());
}

#[test]
fn field_smaller_than_craft() {
    let mut s = SpaceShip::new(5 * SUBPIXELS, -5 * SUBPIXELS);
    s.update(10, 10);
    assert_eq!(s.get_position(), v(10 * SUBPIXELS - SHIP_SIDE, 0));
}

#[test]
fn spawn_position_follows_clamped_craft() {
    let mut s = SpaceShip::new(-30 * SUBPIXELS, 40 * SUBPIXELS);
    s.update(800, 600);
    let p = s.get_position();
    assert_eq!(p, v(0, 40 * SUBPIXELS));
    let last = s.projectiles().last().unwrap().position();
    assert_eq!(last, v(p.x + s.size().x / 2, p.y - SUBPIXELS));
    assert_eq!(last, v(12 * SUBPIXELS + SUBPIXELS / 2, 39 * SUBPIXELS));
}

#[test]
fn one_projectile_per_update() {
    let mut s = SpaceShip::new(100 * SUBPIXELS, 100 * SUBPIXELS);
    for n in 1..=10usize {
        s.update(800, 600);
        assert_eq!(s.projectiles().len(), n);
    }
}

#[test]
fn projectiles_drift_up_one_pixel_per_tick() {
    let mut s = SpaceShip::new(100 * SUBPIXELS, 100 * SUBPIXELS);
    s.update(800, 600);
    s.update(800, 600);
    s.update(800, 600);
    let ps = s.projectiles();
    let x = 100 * SUBPIXELS + SHIP_SIDE / 2;
    assert_eq!(ps[0].position(), v(x, 97 * SUBPIXELS));
    assert_eq!(ps[1].position(), v(x, 98 * SUBPIXELS));
    assert_eq!(ps[2].position(), v(x, 99 * SUBPIXELS));
}

#[test]
fn bullet_update_moves_up_only() {
    let mut b = Bullet::new(7, 9);
    b.add_force(v(1000, 1000));
    for k in 1..=5i64 {
        b.update();
        assert_eq!(b.position(), v(7, 9 - k * SUBPIXELS));
    }
}

#[test]
fn bullet_stops_at_lowest_coordinate() {
    let mut b = Bullet::new(0, i64::MIN + 10);
    b.update();
    assert_eq!(b.position(), v(0, i64::MIN));
}

#[test]
fn bullet_render_restores_fill() {
    let b = Bullet::new(30, 40);
    let mut frame = vec![DrawCommand::SetFill(Color::Black)];
    b.render(&mut frame);
    assert_eq!(
        frame,
        vec![
            DrawCommand::SetFill(Color::Black),
            DrawCommand::Save,
            DrawCommand::SetFill(Color::White),
            DrawCommand::FillRect { x: 30, y: 40, w: BULLET_SIDE, h: BULLET_SIDE },
            DrawCommand::Restore,
        ]
    );
    assert_eq!(BULLET_SIDE, 3 * SUBPIXELS);
}

#[test]
fn render_draws_craft_then_projectiles() {
    let mut s = SpaceShip::new(100 * SUBPIXELS, 100 * SUBPIXELS);
    assert_eq!(
        s.render(),
        vec![DrawCommand::Sprite { x: 100 * SUBPIXELS, y: 100 * SUBPIXELS, w: SHIP_SIDE, h: SHIP_SIDE }]
    );
    s.update(800, 600);
    s.update(800, 600);
    let frame = s.render();
    assert_eq!(frame.len(), 9);
    let x = 100 * SUBPIXELS + SHIP_SIDE / 2;
    assert_eq!(frame[0], DrawCommand::Sprite { x: 100 * SUBPIXELS, y: 100 * SUBPIXELS, w: SHIP_SIDE, h: SHIP_SIDE });
    assert_eq!(frame[1], DrawCommand::Save);
    assert_eq!(frame[3], DrawCommand::FillRect { x, y: 98 * SUBPIXELS, w: BULLET_SIDE, h: BULLET_SIDE });
    assert_eq!(frame[7], DrawCommand::FillRect { x, y: 99 * SUBPIXELS, w: BULLET_SIDE, h: BULLET_SIDE });
    assert_eq!(frame[8], DrawCommand::Restore);
}

#[test]
fn render_twice_gives_same_commands() {
    let mut s = SpaceShip::new(50 * SUBPIXELS, 60 * SUBPIXELS);
    s.add_force(v(SUBPIXELS, -SUBPIXELS));
    s.update(800, 600);
    s.update(800, 600);
    let first = s.render();
    let second = s.render();
    assert_eq!(first, second);
    assert_eq!(first.len(), 1 + 4 * 2);
}

fn fill_after(start: Color, frame: &[DrawCommand]) -> Color {
    let mut fill = start;
    let mut saved = Vec::new();
    for c in frame {
        match c {
            DrawCommand::Save => saved.push(fill),
            DrawCommand::Restore => {
                if let Some(f) = saved.pop() {
                    fill = f;
                }
            }
            DrawCommand::SetFill(col) => fill = *col,
            _ => {}
        }
    }
    fill
}

#[test]
fn render_leaves_fill_as_found() {
    let mut s = SpaceShip::new(50 * SUBPIXELS, 60 * SUBPIXELS);
    s.update(800, 600);
    s.update(800, 600);
    let frame = s.render();
    assert_eq!(fill_after(Color::White, &frame), Color::White);
    assert_eq!(fill_after(Color::Black, &frame), Color::Black);
    let mut one = Vec::new();
    Bullet::new(1, 2).render(&mut one);
    assert_eq!(fill_after(Color::White, &one), Color::White);
}

#[test]
fn vec2_div_by_negative() {
    assert_eq!(v(7, -7).div(-2), v(-3, 3));
    assert_eq!(v(i64::MIN, 9).div(-2), v(1 << 62, -4));
    assert_eq!(v(i64::MAX, 0).div(-1), v(-i64::MAX, 0));
}
