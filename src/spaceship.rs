//! The player's craft: it gathers forces, moves by semi-implicit Euler
//! steps with drag, stops dead at the edges of the play field and fires a
//! projectile on every tick.
use vstd::prelude::*;

use crate::bullet::{lemma_render_keeps_fill, Bullet, BulletModel};
use crate::draw::{lemma_replay_concat, replay, DrawCommand, FillState};
use crate::vec2::{abs, div_toward_zero, Vec2, SUBPIXELS};
use vstd::arithmetic::div_mod::{lemma_div_basics, lemma_div_denominator, lemma_div_pos_is_pos};
use vstd::arithmetic::power2::{lemma2_to64, lemma_pow2_pos, lemma_pow2_unfold, pow2};

verus! {

/// Mass of the craft.
pub const SHIP_MASS: i64 = 5;

/// Width and height of the craft, in sub-pixels.
pub const SHIP_SIDE: i64 = 25 * SUBPIXELS;

/// What a craft is made of, as the proofs see it.
pub struct ShipModel {
    pub position: Vec2,
    pub velocity: Vec2,
    pub acceleration: Vec2,
    pub force: Vec2,
    pub mass: i64,
    pub size: Vec2,
    pub bullets: Seq<BulletModel>,
}

/// Largest position that keeps a body of `size` inside a field of
/// `width` by `height` pixels.
pub open spec fn field_max(width: u32, height: u32, size: Vec2) -> Vec2 {
    Vec2 { x: (width * SUBPIXELS - size.x) as i64, y: (height * SUBPIXELS - size.y) as i64 }
}

/// The commands that draw `bullets`, one after the other.
pub open spec fn bullets_draws(bullets: Seq<BulletModel>) -> Seq<DrawCommand>
    decreases bullets.len(),
{
    if bullets.len() == 0 {
        seq![]
    } else {
        bullets_draws(bullets.drop_last()) + bullets.last().draws()
    }
}

impl ShipModel {
    pub open spec fn wf(self) -> bool {
        &&& self.mass == SHIP_MASS
        &&& self.size == (Vec2 { x: SHIP_SIDE, y: SHIP_SIDE })
        &&& forall|i: int| 0 <= i < self.bullets.len() ==> #[trigger] self.bullets[i].wf()
    }

    /// A craft at rest at `(x, y)` with no projectiles.
    pub open spec fn initial(x: i64, y: i64) -> ShipModel {
        ShipModel {
            position: Vec2 { x, y },
            velocity: Vec2::zero(),
            acceleration: Vec2::zero(),
            force: Vec2::zero(),
            mass: SHIP_MASS,
            size: Vec2 { x: SHIP_SIDE, y: SHIP_SIDE },
            bullets: seq![],
        }
    }

    /// Where the craft goes this tick before the field's edges hold it.
    pub open spec fn moved(self) -> Vec2 {
        self.position.spec_plus(self.velocity)
    }

    /// Whether this tick's move takes the craft past an edge of the field.
    pub open spec fn hits_wall(self, width: u32, height: u32) -> bool {
        self.moved().spec_clamp_fires(Vec2::zero(), field_max(width, height, self.size))
    }

    /// The craft one tick later, in a field of `width` by `height` pixels.
    pub open spec fn stepped(self, width: u32, height: u32) -> ShipModel {
        let acceleration = self.force.spec_div(self.mass);
        let velocity = self.velocity.spec_plus(acceleration);
        let force = self.force.spec_div(2);
        let position = self.moved().spec_clamped(Vec2::zero(), field_max(width, height, self.size));
        let wall = self.hits_wall(width, height);
        let shot = BulletModel::spawned((position.x + self.size.x / 2) as i64, position.y);
        ShipModel {
            position,
            velocity: if wall { Vec2::zero() } else { velocity },
            acceleration: if wall { Vec2::zero() } else { acceleration },
            force: if wall { Vec2::zero() } else { force },
            bullets: self.bullets.push(shot).map_values(|b: BulletModel| b.stepped()),
            ..self
        }
    }

    /// With `f` added to the force.
    pub open spec fn pushed(self, f: Vec2) -> ShipModel {
        ShipModel { force: self.force.spec_plus(f), ..self }
    }

    /// The commands that draw the craft: its sprite, then every projectile
    /// in the order they were fired.
    pub open spec fn draws(self) -> Seq<DrawCommand> {
        seq![
            DrawCommand::Sprite {
                x: self.position.x,
                y: self.position.y,
                w: self.size.x,
                h: self.size.y,
            },
        ] + bullets_draws(self.bullets)
    }
}

/// The craft after `n` ticks in a field of `width` by `height` pixels.
pub open spec fn run(m: ShipModel, width: u32, height: u32, n: nat) -> ShipModel
    decreases n,
{
    if n == 0 {
        m
    } else {
        run(m, width, height, (n - 1) as nat).stepped(width, height)
    }
}

/// Halving `a / p` toward zero gives `a / (2p)`, both toward zero.
proof fn lemma_halve_toward_zero(a: int, p: int)
    requires
        p > 0,
    ensures
        div_toward_zero(div_toward_zero(a, p), 2) == div_toward_zero(a, p * 2),
{
    if a >= 0 {
        lemma_div_denominator(a, p, 2);
        lemma_div_pos_is_pos(a, p);
        assert(div_toward_zero(a, p) == a / p);
    } else {
        lemma_div_denominator(-a, p, 2);
        lemma_div_pos_is_pos(-a, p);
        assert(div_toward_zero(a, p) == -((-a) / p));
        if (-a) / p == 0 {
            assert(div_toward_zero(div_toward_zero(a, p), 2) == 0);
        }
    }
}

/// Drag: with no edge reached, each tick halves the force toward zero, so
/// after `n` ticks it is the starting force over `2^n`.
pub proof fn lemma_drag_decay(m: ShipModel, width: u32, height: u32, n: nat)
    requires
        forall|k: nat| k < n ==> !(#[trigger] run(m, width, height, k)).hits_wall(width, height),
    ensures
        run(m, width, height, n).force == (Vec2 {
            x: div_toward_zero(m.force.x as int, pow2(n) as int) as i64,
            y: div_toward_zero(m.force.y as int, pow2(n) as int) as i64,
        }),
    decreases n,
{
    lemma_pow2_pos(n);
    if n == 0 {
        assert(pow2(0) == 1) by {
            lemma2_to64();
        }
        lemma_div_basics(abs(m.force.x as int));
        lemma_div_basics(abs(m.force.y as int));
    } else {
        let k = (n - 1) as nat;
        lemma_drag_decay(m, width, height, k);
        assert(!run(m, width, height, k).hits_wall(width, height));
        lemma_pow2_unfold(n);
        lemma_pow2_pos(k);
        lemma_halve_toward_zero(m.force.x as int, pow2(k) as int);
        lemma_halve_toward_zero(m.force.y as int, pow2(k) as int);
    }
}

/// Each tick fires exactly one projectile and none is ever removed: after
/// `n` ticks a new craft owns `n` projectiles.
pub proof fn lemma_projectile_count(x: i64, y: i64, width: u32, height: u32, n: nat)
    ensures
        run(ShipModel::initial(x, y), width, height, n).bullets.len() == n,
    decreases n,
{
    if n > 0 {
        lemma_projectile_count(x, y, width, height, (n - 1) as nat);
    }
}

/// Drawing depends on the craft's state alone: two renders of one state
/// give the same commands.
pub proof fn lemma_render_repeatable(m: ShipModel, first: Seq<DrawCommand>, second: Seq<DrawCommand>)
    requires
        first == m.draws(),
        second == m.draws(),
    ensures
        first == second,
{
}

/// Drawing a run of projectiles leaves the canvas's fill state as it
/// found it.
proof fn lemma_bullets_keep_fill(bullets: Seq<BulletModel>, s: FillState)
    ensures
        replay(s, bullets_draws(bullets)) == s,
    decreases bullets.len(),
{
    if bullets.len() > 0 {
        lemma_bullets_keep_fill(bullets.drop_last(), s);
        lemma_replay_concat(s, bullets_draws(bullets.drop_last()), bullets.last().draws());
        lemma_render_keeps_fill(bullets.last(), s);
    }
}

/// Drawing the craft and its projectiles leaves the canvas's fill state as
/// it found it.
pub proof fn lemma_frame_keeps_fill(m: ShipModel, s: FillState)
    ensures
        replay(s, m.draws()) == s,
{
    let sprite = m.draws().take(1);
    lemma_replay_concat(s, sprite, bullets_draws(m.bullets));
    assert(sprite + bullets_draws(m.bullets) =~= m.draws());
    assert(sprite.drop_last() =~= seq![]);
    assert(replay(s, sprite.drop_last()) == s);
    assert(replay(s, sprite) == s);
    lemma_bullets_keep_fill(m.bullets, s);
}

pub struct SpaceShip {
    position: Vec2,
    velocity: Vec2,
    mass: i64,
    acceleration: Vec2,
    size: Vec2,
    force: Vec2,
    bullets: Vec<Bullet>,
}

impl View for SpaceShip {
    type V = ShipModel;

    closed spec fn view(&self) -> ShipModel {
        ShipModel {
            position: self.position,
            velocity: self.velocity,
            acceleration: self.acceleration,
            force: self.force,
            mass: self.mass,
            size: self.size,
            bullets: self.bullets@.map_values(|b: Bullet| b@),
        }
    }
}

/// Moves every projectile of `bullets` one tick, in order.
fn update_all(bullets: &mut Vec<Bullet>)
    ensures
        final(bullets)@.map_values(|b: Bullet| b@) == old(bullets)@.map_values(
            |b: Bullet| b@,
        ).map_values(|b: BulletModel| b.stepped()),
{
    let ghost before = bullets@;
    let n = bullets.len();
    let mut i: usize = 0;
    while i < n
        invariant
            0 <= i <= n,
            n == before.len(),
            bullets@.len() == n,
            forall|j: int| 0 <= j < i ==> (#[trigger] bullets@[j])@ == before[j]@.stepped(),
            forall|j: int| i <= j < n ==> #[trigger] bullets@[j] == before[j],
        decreases n - i,
    {
        let mut b = bullets[i];
        b.update();
        bullets.set(i, b);
        i += 1;
    }
    assert(bullets@.map_values(|b: Bullet| b@) =~= before.map_values(|b: Bullet| b@).map_values(
        |b: BulletModel| b.stepped(),
    ));
}

impl SpaceShip {
    /// A craft at rest at `(x, y)`, with no projectiles yet.
    pub fn new(x: i64, y: i64) -> (r: SpaceShip)
        ensures
            r@ == ShipModel::initial(x, y),
            r@.wf(),
    {
        let r = SpaceShip {
            position: Vec2 { x, y },
            velocity: Vec2::new(),
            mass: SHIP_MASS,
            acceleration: Vec2::new(),
            size: Vec2 { x: SHIP_SIDE, y: SHIP_SIDE },
            force: Vec2::new(),
            bullets: Vec::new(),
        };
        assert(r@.bullets =~= seq![]);
        r
    }

    pub fn get_position(&self) -> (r: Vec2)
        ensures
            r == self@.position,
    {
        self.position
    }

    pub fn size(&self) -> (r: Vec2)
        ensures
            r == self@.size,
    {
        self.size
    }

    pub fn velocity(&self) -> (r: Vec2)
        ensures
            r == self@.velocity,
    {
        self.velocity
    }

    pub fn acceleration(&self) -> (r: Vec2)
        ensures
            r == self@.acceleration,
    {
        self.acceleration
    }

    pub fn force(&self) -> (r: Vec2)
        ensures
            r == self@.force,
    {
        self.force
    }

    /// The projectiles the craft has fired, oldest first.
    pub fn projectiles(&self) -> (r: &Vec<Bullet>)
        ensures
            r@.map_values(|b: Bullet| b@) == self@.bullets,
    {
        &self.bullets
    }

    /// Fires a projectile from the middle of the craft's top edge.
    fn shoot(&mut self)
        requires
            old(self)@.wf(),
            old(self)@.position.x + SHIP_SIDE / 2 <= i64::MAX,
        ensures
            final(self)@ == (ShipModel {
                bullets: old(self)@.bullets.push(
                    BulletModel::spawned(
                        (old(self)@.position.x + old(self)@.size.x / 2) as i64,
                        old(self)@.position.y,
                    ),
                ),
                ..old(self)@
            }),
    {
        let shot = Bullet::new(self.position.x + self.size.x / 2, self.position.y);
        self.bullets.push(shot);
        assert(self@.bullets =~= old(self)@.bullets.push(shot@));
    }

    /// Advances the craft by one tick in a field of `field_width` by
    /// `field_height` pixels, then fires and moves the projectiles.
    pub fn update(&mut self, field_width: u32, field_height: u32)
        requires
            old(self)@.wf(),
        ensures
            final(self)@ == old(self)@.stepped(field_width, field_height),
            final(self)@.wf(),
            final(self)@.bullets.len() == old(self)@.bullets.len() + 1,
            // Every projectile already fired moves one pixel up, no sideways.
            forall|i: int|
                0 <= i < old(self)@.bullets.len() ==> {
                    &&& (#[trigger] final(self)@.bullets[i]).velocity == old(self)@.bullets[i].velocity
                    &&& final(self)@.bullets[i].position.x == old(self)@.bullets[i].position.x
                    &&& old(self)@.bullets[i].position.y - SUBPIXELS >= i64::MIN
                        ==> final(self)@.bullets[i].position.y == old(self)@.bullets[i].position.y
                        - SUBPIXELS
                },
            // Hitting an edge stops the craft dead.
            old(self)@.hits_wall(field_width, field_height) ==> {
                &&& final(self)@.velocity == Vec2::zero()
                &&& final(self)@.acceleration == Vec2::zero()
                &&& final(self)@.force == Vec2::zero()
            },
            // The newest projectile left from the middle of the craft's top
            // edge where the craft ended up, and has moved once since.
            final(self)@.bullets.last() == BulletModel::spawned(
                (final(self)@.position.x + final(self)@.size.x / 2) as i64,
                final(self)@.position.y,
            ).stepped(),
            // A field at least as large as the craft holds it.
            field_width * SUBPIXELS >= SHIP_SIDE ==> 0 <= final(self)@.position.x <= field_width
                * SUBPIXELS - SHIP_SIDE,
            field_height * SUBPIXELS >= SHIP_SIDE ==> 0 <= final(self)@.position.y <= field_height
                * SUBPIXELS - SHIP_SIDE,
    {
        self.acceleration = self.force.div(self.mass);
        self.position = self.position.plus(self.velocity);
        self.velocity.accumulate(self.acceleration);
        self.force = self.force.div(2);
        let hi = Vec2 {
            x: field_width as i64 * SUBPIXELS - self.size.x,
            y: field_height as i64 * SUBPIXELS - self.size.y,
        };
        if self.position.clamp(Vec2 { x: 0, y: 0 }, hi) {
            self.velocity.clear();
            self.force.clear();
            self.acceleration.clear();
        }
        self.shoot();
        update_all(&mut self.bullets);
        let ghost fired = old(self)@.bullets.push(
            BulletModel::spawned((self@.position.x + self@.size.x / 2) as i64, self@.position.y),
        );
        assert forall|i: int| 0 <= i < self@.bullets.len() implies (#[trigger] self@.bullets[i]).wf()
            && self@.bullets[i] == fired[i].stepped() by {
            assert(self@.bullets[i] == fired[i].stepped());
            assert(fired[i].wf());
        }
    }

    /// Adds `f` to the force acting on the craft.
    pub fn add_force(&mut self, f: Vec2)
        ensures
            final(self)@ == old(self)@.pushed(f),
            old(self)@.wf() ==> final(self)@.wf(),
    {
        self.force.accumulate(f);
        assert(self@.bullets == old(self)@.bullets);
    }

    /// The commands that draw the craft and then its projectiles.
    pub fn render(&self) -> (r: Vec<DrawCommand>)
        ensures
            r@ == self@.draws(),
    {
        let mut frame: Vec<DrawCommand> = Vec::new();
        frame.push(
            DrawCommand::Sprite {
                x: self.position.x,
                y: self.position.y,
                w: self.size.x,
                h: self.size.y,
            },
        );
        let ghost bullets = self@.bullets;
        let n = self.bullets.len();
        let mut i: usize = 0;
        while i < n
            invariant
                0 <= i <= n,
                n == bullets.len(),
                bullets == self@.bullets,
                frame@ == self@.draws().take(1) + bullets_draws(bullets.take(i as int)),
            decreases n - i,
        {
            self.bullets[i].render(&mut frame);
            assert(bullets.take(i + 1).drop_last() =~= bullets.take(i as int));
            i += 1;
        }
        assert(bullets.take(n as int) =~= bullets);
        assert(self@.draws().take(1) + bullets_draws(bullets) =~= self@.draws());
        frame
    }
}

} // verus!
