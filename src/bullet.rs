//! Projectiles: points that drift up the field one pixel per tick.
use vstd::prelude::*;

use crate::draw::{lemma_replay_prefix, replay, replay_step, Color, DrawCommand, FillState};
use crate::vec2::{Vec2, SUBPIXELS};

verus! {

/// Side of the square a projectile is drawn as, in sub-pixels.
pub const BULLET_SIDE: i64 = 3 * SUBPIXELS;

/// What a projectile is made of, as the proofs see it.
pub struct BulletModel {
    pub position: Vec2,
    pub velocity: Vec2,
    pub force: Vec2,
}

/// The fixed velocity of every projectile: one pixel up per tick.
pub open spec fn bullet_velocity() -> Vec2 {
    Vec2 { x: 0, y: (-SUBPIXELS) as i64 }
}

impl BulletModel {
    pub open spec fn wf(self) -> bool {
        self.velocity == bullet_velocity()
    }

    pub open spec fn spawned(x: i64, y: i64) -> BulletModel {
        BulletModel { position: Vec2 { x, y }, velocity: bullet_velocity(), force: Vec2::zero() }
    }

    /// The projectile one tick later.
    pub open spec fn stepped(self) -> BulletModel {
        BulletModel { position: self.position.spec_plus(self.velocity), ..self }
    }

    /// With `f` added to its (inert) force.
    pub open spec fn pushed(self, f: Vec2) -> BulletModel {
        BulletModel { force: self.force.spec_plus(f), ..self }
    }

    /// The commands that draw it: a white square between a save and a
    /// restore of the canvas state, so that the fill after them is the
    /// fill before them.
    pub open spec fn draws(self) -> Seq<DrawCommand> {
        seq![
            DrawCommand::Save,
            DrawCommand::SetFill(Color::White),
            DrawCommand::FillRect {
                x: self.position.x,
                y: self.position.y,
                w: BULLET_SIDE,
                h: BULLET_SIDE,
            },
            DrawCommand::Restore,
        ]
    }
}

/// Drawing a projectile leaves the canvas's fill state as it found it.
pub proof fn lemma_render_keeps_fill(b: BulletModel, s: FillState)
    ensures
        replay(s, b.draws()) == s,
{
    let d = b.draws();
    let s1 = replay_step(s, d[0]);
    let s2 = replay_step(s1, d[1]);
    let s3 = replay_step(s2, d[2]);
    assert(replay(s, d.take(0)) == s);
    lemma_replay_prefix(s, d, 0);
    lemma_replay_prefix(s, d, 1);
    lemma_replay_prefix(s, d, 2);
    lemma_replay_prefix(s, d, 3);
    assert(d.take(4) =~= d);
    assert(s3.saved.drop_last() =~= s.saved);
}

#[derive(Clone, Copy, Debug)]
pub struct Bullet {
    position: Vec2,
    velocity: Vec2,
    force: Vec2,
}

impl View for Bullet {
    type V = BulletModel;

    closed spec fn view(&self) -> BulletModel {
        BulletModel { position: self.position, velocity: self.velocity, force: self.force }
    }
}

impl Bullet {
    /// The velocity never changes after construction.
    #[verifier::type_invariant]
    spec fn inv(self) -> bool {
        self.velocity == bullet_velocity()
    }

    /// A projectile at `(x, y)` with the fixed upward velocity.
    pub fn new(x: i64, y: i64) -> (r: Bullet)
        ensures
            r@ == BulletModel::spawned(x, y),
    {
        Bullet { position: Vec2 { x, y }, velocity: Vec2 { x: 0, y: -SUBPIXELS }, force: Vec2::new() }
    }

    pub fn position(&self) -> (r: Vec2)
        ensures
            r == self@.position,
    {
        self.position
    }

    /// Moves the projectile by its velocity.
    pub fn update(&mut self)
        ensures
            final(self)@ == old(self)@.stepped(),
            final(self)@.position.x == old(self)@.position.x,
            old(self)@.position.y - SUBPIXELS >= i64::MIN ==> final(self)@.position.y
                == old(self)@.position.y - SUBPIXELS,
    {
        proof {
            use_type_invariant(&*self);
        }
        self.position = self.position.plus(self.velocity);
    }

    /// Adds `f` to the projectile's force, which does not move it.
    pub fn add_force(&mut self, f: Vec2)
        ensures
            final(self)@ == old(self)@.pushed(f),
    {
        proof {
            use_type_invariant(&*self);
        }
        self.force = self.force.plus(f);
    }

    /// Appends the commands that draw the projectile to `frame`.
    pub fn render(&self, frame: &mut Vec<DrawCommand>)
        ensures
            final(frame)@ == old(frame)@ + self@.draws(),
    {
        frame.push(DrawCommand::Save);
        frame.push(DrawCommand::SetFill(Color::White));
        frame.push(DrawCommand::FillRect { x: self.position.x, y: self.position.y, w: BULLET_SIDE, h: BULLET_SIDE });
        frame.push(DrawCommand::Restore);
        assert(frame@ =~= old(frame)@ + self@.draws());
    }
}

} // verus!
