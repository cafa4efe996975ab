use vstd::prelude::*;

use crate::consts::{ANGLE_DIV, HEIGHT};
use crate::effect::Effect;
use crate::enemy::{enemy_sprite, table_wf, Enemy};
use crate::enemy_manager::{shots_wf, EnemyManager};
use crate::ene_shot::EneShot;
use crate::framework::{at_dots, sprite_view, sprites_are, Sprite};
use crate::game_manager::{effect_ok, GameManager, MAX_EFFECT_COUNT, MYSHOT_COUNT};
use crate::math::{quantize_angle, quantized, round_vec};
use crate::myshot::MyShot;
use crate::types::{Vec2I, Vector2D};

verus! {

/// The sprites of `a` followed by those of `b` are those of the two lists joined.
pub proof fn lemma_sprites_join(a: Seq<Sprite>, b: Seq<Sprite>, x: Seq<(Seq<char>, Vec2I, Option<u8>)>,
    y: Seq<(Seq<char>, Vec2I, Option<u8>)>)
    requires
        sprites_are(a, x),
        sprites_are(b, y),
    ensures
        sprites_are(a + b, x + y),
{
    assert forall|i: int| 0 <= i < (a + b).len() implies #[trigger] sprite_view((a + b)[i]) == (x + y)[i] by {
        if i < a.len() {
            assert(sprite_view(a[i]) == x[i]);
        } else {
            assert(sprite_view(b[i - a.len()]) == y[i - a.len()]);
        }
    }
}

/// The name of the sprite of an enemy for an animation frame, if it shows one.
pub open spec fn enemy_sprite_name(e: Enemy, pat: int) -> Option<Seq<char>> {
    match e {
        Enemy::Zako(z) => Some(match z.enemy_base.enemy_type {
            crate::enemy_types::EnemyType::Bee => if pat == 0 { "gopher1"@ } else { "gopher2"@ },
            crate::enemy_types::EnemyType::Butterfly => if pat == 0 { "dman1"@ } else { "dman2"@ },
            _ => "rustacean_captured"@,
        }),
        Enemy::Owl(o) => if o.life == 0 {
            None
        } else if o.life >= 2 {
            Some(if pat == 0 { "cpp11"@ } else { "cpp12"@ })
        } else {
            Some(if pat == 0 { "cpp21"@ } else { "cpp22"@ })
        },
    }
}

/// The sprites of one slot of the table of enemies: the enemy's sprite turned by its heading.
pub open spec fn enemy_slot_sprites(slot: Option<Enemy>, pat: int) -> Seq<(Seq<char>, Vec2I, Option<u8>)> {
    match slot {
        Some(e) => match enemy_sprite_name(e, pat) {
            Some(name) => seq![(name, at_dots(e.base().pos, -8, -8),
                Some(quantized(e.base().angle as int, ANGLE_DIV as int) as u8))],
            None => Seq::empty(),
        },
        None => Seq::empty(),
    }
}

/// The sprites of the enemies of the table, from the last slot to the first.
pub open spec fn enemies_sprites(t: Seq<Option<Enemy>>, pat: int) -> Seq<(Seq<char>, Vec2I, Option<u8>)>
    decreases t.len(),
{
    if t.len() == 0 {
        Seq::empty()
    } else {
        enemy_slot_sprites(t.last(), pat) + enemies_sprites(t.drop_last(), pat)
    }
}

/// The sprites of the enemy shots, in slot order.
pub open spec fn ene_shots_sprites(s: Seq<Option<EneShot>>) -> Seq<(Seq<char>, Vec2I, Option<u8>)>
    decreases s.len(),
{
    if s.len() == 0 {
        Seq::empty()
    } else {
        ene_shots_sprites(s.drop_last()) + match s.last() {
            Some(shot) => shot.sprites_spec(),
            None => Seq::empty(),
        }
    }
}

/// The sprites of the player's shots, in slot order.
pub open spec fn myshots_sprites(s: Seq<Option<MyShot>>) -> Seq<(Seq<char>, Vec2I, Option<u8>)>
    decreases s.len(),
{
    if s.len() == 0 {
        Seq::empty()
    } else {
        myshots_sprites(s.drop_last()) + match s.last() {
            Some(shot) => shot.sprites_spec(),
            None => Seq::empty(),
        }
    }
}

/// The sprites of the effects, in slot order.
pub open spec fn effects_sprites(s: Seq<Option<Effect>>) -> Seq<(Seq<char>, Vec2I, Option<u8>)>
    decreases s.len(),
{
    if s.len() == 0 {
        Seq::empty()
    } else {
        effects_sprites(s.drop_last()) + match s.last() {
            Some(e) => e.anime().sprites_spec(),
            None => Seq::empty(),
        }
    }
}

/// The ships in reserve, shown at the bottom left: one fewer than the ships left, at most eight.
pub open spec fn reserve_sprites(n: int) -> Seq<(Seq<char>, Vec2I, Option<u8>)> {
    Seq::new(n as nat, |i: int| ("rustacean"@, Vector2D { x: (i * 16) as i32, y: (HEIGHT - 16) as i32 }, None))
}

/// The number of ships in reserve shown for `left_ship` ships left.
pub open spec fn reserve_count(left_ship: u32) -> int {
    if left_ship == 0 { 0 } else if left_ship - 1 < 8 { left_ship - 1 } else { 8 }
}

/// The enemies' animation frame: it changes every 32 frames.
pub open spec fn enemy_pat(frame_count: u32) -> int {
    ((frame_count as int) / 32) % 2
}

/// What the game shows, in the order it is drawn: the ship, the enemies, their shots, the
/// player's shots, the effects and the ships in reserve.
pub open spec fn game_sprites(g: GameManager) -> Seq<(Seq<char>, Vec2I, Option<u8>)> {
    g.player.sprites_spec()
        + enemies_sprites(g.enemy_manager.enemies@, enemy_pat(g.enemy_manager.frame_count))
        + ene_shots_sprites(g.enemy_manager.shots@)
        + myshots_sprites(g.myshots@)
        + effects_sprites(g.effects@)
        + reserve_sprites(reserve_count(g.left_ship))
}

fn enemy_sprites_of(em: &EnemyManager) -> (v: Vec<Sprite>)
    requires
        table_wf(em.enemies@),
    ensures
        sprites_are(v@, enemies_sprites(em.enemies@, enemy_pat(em.frame_count))),
{
    let pat: usize = ((em.frame_count >> 5) & 1) as usize;
    assert(pat == enemy_pat(em.frame_count)) by {
        let f = em.frame_count;
        assert(((f >> 5u32) & 1u32) as int == ((f as int) / 32) % 2) by (bit_vector);
    }
    let ghost t = em.enemies@;
    let n = em.enemies.len();
    let mut v: Vec<Sprite> = Vec::new();
    let ghost mut vs: Seq<(Seq<char>, Vec2I, Option<u8>)> = Seq::empty();
    assert(t.take(n as int) =~= t);
    let mut i: usize = n;
    while i > 0
        invariant
            i <= n,
            n == t.len(),
            t == em.enemies@,
            table_wf(t),
            pat < 2,
            pat == enemy_pat(em.frame_count),
            sprites_are(v@, vs),
            vs + enemies_sprites(t.take(i as int), pat as int) == enemies_sprites(t, pat as int),
        decreases i,
    {
        i -= 1;
        let mut w: Vec<Sprite> = Vec::new();
        if let Some(e) = &em.enemies[i] {
            assert(t[i as int] matches Some(e0) && e0 == *e);
            if let Some(name) = enemy_sprite(e, pat) {
                let b = e.enemy_base();
                let pos = round_vec(&b.pos);
                w.push(Sprite {
                    name,
                    pos: pos.plus(&Vector2D::new(-8, -8)),
                    angle: Some(quantize_angle(b.angle, ANGLE_DIV)),
                });
            }
        }
        let ghost slot = enemy_slot_sprites(t[i as int], pat as int);
        assert(sprites_are(w@, slot));
        proof {
            lemma_sprites_join(v@, w@, vs, slot);
            assert(t.take(i + 1).drop_last() =~= t.take(i as int));
            assert(t.take(i + 1).last() == t[i as int]);
            assert(enemies_sprites(t.take(i + 1), pat as int) == slot + enemies_sprites(t.take(i as int), pat as int));
            assert(vs + slot + enemies_sprites(t.take(i as int), pat as int)
                =~= vs + enemies_sprites(t.take(i + 1), pat as int));
        }
        v.append(&mut w);
        proof {
            vs = vs + slot;
        }
    }
    assert(t.take(0) =~= Seq::<Option<Enemy>>::empty());
    assert(vs =~= vs + enemies_sprites(t.take(0), pat as int));
    v
}

fn ene_shot_sprites_of(shots: &Vec<Option<EneShot>>) -> (v: Vec<Sprite>)
    requires
        shots_wf(shots@),
    ensures
        sprites_are(v@, ene_shots_sprites(shots@)),
{
    let mut v: Vec<Sprite> = Vec::new();
    let mut i: usize = 0;
    assert(shots@.take(0) =~= Seq::<Option<EneShot>>::empty());
    while i < shots.len()
        invariant
            i <= shots@.len(),
            shots_wf(shots@),
            sprites_are(v@, ene_shots_sprites(shots@.take(i as int))),
        decreases shots@.len() - i,
    {
        let mut w: Vec<Sprite> = Vec::new();
        if let Some(shot) = &shots[i] {
            assert(shots@[i as int] matches Some(s0) && s0 == *shot);
            w = shot.sprites();
        }
        let ghost item = match shots@[i as int] { Some(x) => x.sprites_spec(), None => Seq::empty() };
        proof {
            lemma_sprites_join(v@, w@, ene_shots_sprites(shots@.take(i as int)), item);
            assert(shots@.take(i + 1).drop_last() =~= shots@.take(i as int));
        }
        v.append(&mut w);
        i += 1;
    }
    assert(shots@.take(shots@.len() as int) =~= shots@);
    v
}

fn myshot_sprites_of(shots: &Vec<Option<MyShot>>) -> (v: Vec<Sprite>)
    requires
        forall|i: int| 0 <= i < shots@.len() ==> (#[trigger] shots@[i] matches Some(s) ==> s.wf()),
    ensures
        sprites_are(v@, myshots_sprites(shots@)),
{
    let mut v: Vec<Sprite> = Vec::new();
    let mut i: usize = 0;
    assert(shots@.take(0) =~= Seq::<Option<MyShot>>::empty());
    while i < shots.len()
        invariant
            i <= shots@.len(),
            forall|k: int| 0 <= k < shots@.len() ==> (#[trigger] shots@[k] matches Some(s) ==> s.wf()),
            sprites_are(v@, myshots_sprites(shots@.take(i as int))),
        decreases shots@.len() - i,
    {
        let mut w: Vec<Sprite> = Vec::new();
        if let Some(shot) = &shots[i] {
            assert(shots@[i as int] matches Some(s0) && s0 == *shot);
            w = shot.sprites();
        }
        let ghost item = match shots@[i as int] { Some(x) => x.sprites_spec(), None => Seq::empty() };
        proof {
            lemma_sprites_join(v@, w@, myshots_sprites(shots@.take(i as int)), item);
            assert(shots@.take(i + 1).drop_last() =~= shots@.take(i as int));
        }
        v.append(&mut w);
        i += 1;
    }
    assert(shots@.take(shots@.len() as int) =~= shots@);
    v
}

fn effect_sprites_of(effects: &Vec<Option<Effect>>) -> (v: Vec<Sprite>)
    requires
        forall|i: int| 0 <= i < effects@.len() ==> (#[trigger] effects@[i] matches Some(e) ==> effect_ok(e)),
    ensures
        sprites_are(v@, effects_sprites(effects@)),
{
    let mut v: Vec<Sprite> = Vec::new();
    let mut i: usize = 0;
    assert(effects@.take(0) =~= Seq::<Option<Effect>>::empty());
    while i < effects.len()
        invariant
            i <= effects@.len(),
            forall|k: int| 0 <= k < effects@.len() ==> (#[trigger] effects@[k] matches Some(e) ==> effect_ok(e)),
            sprites_are(v@, effects_sprites(effects@.take(i as int))),
        decreases effects@.len() - i,
    {
        let mut w: Vec<Sprite> = Vec::new();
        if let Some(e) = &effects[i] {
            assert(effects@[i as int] matches Some(e0) && e0 == *e);
            w = e.sprites();
        }
        let ghost item = match effects@[i as int] { Some(x) => x.anime().sprites_spec(), None => Seq::empty() };
        proof {
            lemma_sprites_join(v@, w@, effects_sprites(effects@.take(i as int)), item);
            assert(effects@.take(i + 1).drop_last() =~= effects@.take(i as int));
        }
        v.append(&mut w);
        i += 1;
    }
    assert(effects@.take(effects@.len() as int) =~= effects@);
    v
}

fn reserve_sprites_of(left_ship: u32) -> (v: Vec<Sprite>)
    ensures
        sprites_are(v@, reserve_sprites(reserve_count(left_ship))),
{
    let n: u32 = if left_ship == 0 { 0 } else if left_ship - 1 < 8 { left_ship - 1 } else { 8 };
    let mut v: Vec<Sprite> = Vec::new();
    let mut i: u32 = 0;
    while i < n
        invariant
            i <= n <= 8,
            n == reserve_count(left_ship),
            sprites_are(v@, reserve_sprites(i as int)),
        decreases n - i,
    {
        v.push(Sprite { name: "rustacean", pos: Vector2D::new((i as i32) * 16, HEIGHT - 16), angle: None });
        proof {
            assert forall|k: int| 0 <= k < v@.len() implies #[trigger] sprite_view(v@[k]) == reserve_sprites(i + 1)[k] by {
                if k < i {
                    assert(sprite_view(v@[k]) == reserve_sprites(i as int)[k]);
                }
            }
        }
        i += 1;
    }
    v
}

impl GameManager {
    /// The sprites that the game shows, in the order they are drawn.
    pub fn sprites(&self) -> (v: Vec<Sprite>)
        requires
            self.wf(),
        ensures
            sprites_are(v@, game_sprites(*self)),
    {
        let mut v = self.player.sprites();
        let ghost a = self.player.sprites_spec();
        let mut w = enemy_sprites_of(&self.enemy_manager);
        let ghost b = enemies_sprites(self.enemy_manager.enemies@, enemy_pat(self.enemy_manager.frame_count));
        proof { lemma_sprites_join(v@, w@, a, b); }
        v.append(&mut w);
        let mut w = ene_shot_sprites_of(&self.enemy_manager.shots);
        let ghost c = ene_shots_sprites(self.enemy_manager.shots@);
        proof { lemma_sprites_join(v@, w@, a + b, c); }
        v.append(&mut w);
        let mut w = myshot_sprites_of(&self.myshots);
        let ghost d = myshots_sprites(self.myshots@);
        proof { lemma_sprites_join(v@, w@, a + b + c, d); }
        v.append(&mut w);
        let mut w = effect_sprites_of(&self.effects);
        let ghost e = effects_sprites(self.effects@);
        proof { lemma_sprites_join(v@, w@, a + b + c + d, e); }
        v.append(&mut w);
        let mut w = reserve_sprites_of(self.left_ship);
        let ghost f = reserve_sprites(reserve_count(self.left_ship));
        proof { lemma_sprites_join(v@, w@, a + b + c + d + e, f); }
        v.append(&mut w);
        v
    }
}

} // verus!
