//! The simulation orchestrator: owns every entity collection, advances
//! them each tick, resolves collisions and chain reactions, awards
//! progression and tracks the terminal state.

use vstd::prelude::*;
use crate::bunker::Bunker;
use crate::constants::{
    BUNKER_Y, EXP_BASE_Y, INITIAL_SPAWN_TIME, TIME_LIMIT, TOP_Y,
    get_enemy_missile_speed, get_enemy_missile_spawn_interval,
    spec_enemy_speed, spec_spawn_interval,
};
use crate::explosion::{
    DT_MAX, Explosion, ExplosionModel, ExplosionParams,
    spec_new_explosion, spec_player_params, spec_step,
};
use crate::geom::{Vec2Fx, dist2, dist_squared, imax, imin};
use crate::missile::{BUNKER_HIT_DIST2, Missile, TARGET_HIT_DIST2};
use crate::player::{EXP_AWARD_MAX, Player, Skill, spec_required};
use crate::rng::{random_in_range, random_index};
use crate::star::{Star, spec_star_hit};

verus! {

/// Number of bunkers in a game.
pub const BUNKER_COUNT: usize = 3;

/// Experience, in milli-points, for destroying an enemy missile at
/// height `y`: zero at the bunker line, 100 points at the top line,
/// linear in between and clamped below at zero.
pub open spec fn spec_experience_for_height(y: int) -> int {
    imax(100_000 * (EXP_BASE_Y - y) / (EXP_BASE_Y - TOP_Y) as int, 0)
}

/// All bunkers of a sequence are inactive.
pub open spec fn all_bunkers_inactive(bs: Seq<Bunker>) -> bool {
    forall|i: int| 0 <= i < bs.len() ==> !(#[trigger] bs[i]).active
}

/// The models of a sequence of explosions.
pub open spec fn views(es: Seq<Explosion>) -> Seq<ExplosionModel> {
    es.map_values(|e: Explosion| e@)
}

/// The result of the forward closest-bunker scan over the first `n`
/// bunkers: the first eligible (active, not firing) index of minimal
/// distance to `target`; a later bunker only takes over when strictly
/// closer.
pub open spec fn closest_upto(bs: Seq<Bunker>, target: Vec2Fx, n: int) -> Option<int>
    recommends 0 <= n <= bs.len(),
    decreases n,
{
    if n <= 0 {
        None
    } else {
        let p = closest_upto(bs, target, n - 1);
        let b = bs[n - 1];
        if b.active && !b.firing && (match p {
            None => true,
            Some(j) => dist2(b.pos, target) < dist2(bs[j].pos, target),
        }) {
            Some(n - 1)
        } else {
            p
        }
    }
}

/// A scan that found nothing passed only ineligible bunkers.
pub proof fn lemma_closest_upto_none(bs: Seq<Bunker>, target: Vec2Fx, n: int)
    requires
        0 <= n <= bs.len(),
        closest_upto(bs, target, n) is None,
    ensures
        forall|j: int| 0 <= j < n
            ==> !((#[trigger] bs[j]).active && !bs[j].firing),
    decreases n,
{
    if n > 0 {
        lemma_closest_upto_none(bs, target, n - 1);
    }
}

/// A found closest bunker is in range and eligible, and no eligible
/// bunker is strictly closer.
pub proof fn lemma_closest_upto_some(bs: Seq<Bunker>, target: Vec2Fx, n: int, i: int)
    requires
        0 <= n <= bs.len(),
        closest_upto(bs, target, n) == Some(i),
    ensures
        0 <= i < n,
        bs[i].active,
        !bs[i].firing,
        forall|j: int| 0 <= j < n && (#[trigger] bs[j]).active && !bs[j].firing
            ==> dist2(bs[i].pos, target) <= dist2(bs[j].pos, target),
    decreases n,
{
    if n > 0 {
        let p = closest_upto(bs, target, n - 1);
        match p {
            None => {
                lemma_closest_upto_none(bs, target, n - 1);
            },
            Some(k) => {
                lemma_closest_upto_some(bs, target, n - 1, k);
            },
        }
    }
}

/// Indices of the active bunkers among the first `n`, in order.
pub open spec fn active_indices_upto(bs: Seq<Bunker>, n: int) -> Seq<int>
    recommends 0 <= n <= bs.len(),
    decreases n,
{
    if n <= 0 {
        Seq::empty()
    } else {
        let p = active_indices_upto(bs, n - 1);
        if bs[n - 1].active {
            p.push(n - 1)
        } else {
            p
        }
    }
}

/// Every listed index is in range and names an active bunker.
pub proof fn lemma_active_indices_range(bs: Seq<Bunker>, n: int)
    requires
        0 <= n <= bs.len(),
    ensures
        forall|k: int| 0 <= k < active_indices_upto(bs, n).len()
            ==> 0 <= #[trigger] active_indices_upto(bs, n)[k] < n
                && bs[active_indices_upto(bs, n)[k]].active,
    decreases n,
{
    if n > 0 {
        lemma_active_indices_range(bs, n - 1);
        let p = active_indices_upto(bs, n - 1);
        if bs[n - 1].active {
            assert(forall|k: int| 0 <= k < p.len()
                ==> #[trigger] active_indices_upto(bs, n)[k] == p[k]);
            assert(active_indices_upto(bs, n)[p.len() as int] == n - 1);
        }
    }
}

/// A missile after its motion step; exploded missiles never move.
pub open spec fn missile_moved(m: Missile, dt: int) -> Missile {
    if m.exploded {
        m
    } else {
        Missile { current_pos: m.spec_advanced(dt), ..m }
    }
}

/// Whether a live missile impacts this tick, judged at its moved
/// position: an enemy missile within 2 units of its (still existing)
/// bunker, a player missile within 5 units of its target point.
pub open spec fn missile_impacts(m: Missile, bs: Seq<Bunker>, dt: int) -> bool {
    !m.exploded && {
        let mv = missile_moved(m, dt);
        match m.target_bunker_idx {
            Some(i) => i < bs.len()
                && dist2(mv.current_pos, bs[i as int].pos) < BUNKER_HIT_DIST2,
            None => dist2(mv.current_pos, m.target_pos) < TARGET_HIT_DIST2,
        }
    }
}

/// The missile after the whole motion-and-impact step.
pub open spec fn missile_stepped(m: Missile, bs: Seq<Bunker>, dt: int) -> Missile {
    Missile {
        exploded: m.exploded || missile_impacts(m, bs, dt),
        ..missile_moved(m, dt)
    }
}

/// The explosion an impacting missile leaves: at the bunker with
/// default parameters for an enemy missile, at the impact point with
/// the player's current parameters for a player missile.
pub open spec fn impact_explosion(
    m: Missile,
    bs: Seq<Bunker>,
    player: Player,
    dt: int,
) -> ExplosionModel {
    match m.target_bunker_idx {
        Some(i) => spec_new_explosion(
            bs[i as int].pos,
            crate::explosion::spec_default_params(),
        ),
        None => spec_new_explosion(
            missile_moved(m, dt).current_pos,
            spec_player_params(player),
        ),
    }
}

/// The explosions spawned by the impacts among the first `n` missiles,
/// in missile order.
pub open spec fn impact_explosions_upto(
    ms: Seq<Missile>,
    bs: Seq<Bunker>,
    player: Player,
    dt: int,
    n: int,
) -> Seq<ExplosionModel>
    decreases n,
{
    if n <= 0 {
        Seq::empty()
    } else {
        let p = impact_explosions_upto(ms, bs, player, dt, n - 1);
        if missile_impacts(ms[n - 1], bs, dt) {
            p.push(impact_explosion(ms[n - 1], bs, player, dt))
        } else {
            p
        }
    }
}

/// Bunker `i` is hit by one of the first `n` missiles this tick.
pub open spec fn bunker_killed_upto(
    i: int,
    ms: Seq<Missile>,
    bs: Seq<Bunker>,
    dt: int,
    n: int,
) -> bool {
    exists|k: int| 0 <= k < n && #[trigger] missile_impacts(ms[k], bs, dt)
        && ms[k].target_bunker_idx == Some(i as usize)
}

/// Every explosion model advanced by one tick.
pub open spec fn stepped_views(es: Seq<ExplosionModel>, dt: int) -> Seq<ExplosionModel> {
    es.map_values(|e: ExplosionModel| spec_step(e, dt))
}

/// The point lies inside some explosion of the list.
pub open spec fn covered_by_any(p: Vec2Fx, es: Seq<ExplosionModel>) -> bool {
    exists|j: int| 0 <= j < es.len()
        && dist2(p, (#[trigger] es[j]).pos) <= es[j].radius * es[j].radius
}

/// A live missile is destroyed by the chain sweep when some explosion
/// covers its position.
pub open spec fn chain_destroys(m: Missile, es: Seq<ExplosionModel>) -> bool {
    !m.exploded && covered_by_any(m.current_pos, es)
}

/// A missile after the chain sweep.
pub open spec fn chain_stepped(m: Missile, es: Seq<ExplosionModel>) -> Missile {
    Missile { exploded: m.exploded || chain_destroys(m, es), ..m }
}

/// The explosion a chain-destroyed missile leaves at its position:
/// player parameters for a player missile, defaults for an enemy one.
pub open spec fn chain_explosion(m: Missile, player: Player) -> ExplosionModel {
    spec_new_explosion(
        m.current_pos,
        if m.target_bunker_idx is None {
            spec_player_params(player)
        } else {
            crate::explosion::spec_default_params()
        },
    )
}

/// Explosions spawned by the chain sweep over the first `n` missiles.
pub open spec fn chain_explosions_upto(
    ms: Seq<Missile>,
    es: Seq<ExplosionModel>,
    player: Player,
    n: int,
) -> Seq<ExplosionModel>
    decreases n,
{
    if n <= 0 {
        Seq::empty()
    } else {
        let p = chain_explosions_upto(ms, es, player, n - 1);
        if chain_destroys(ms[n - 1], es) {
            p.push(chain_explosion(ms[n - 1], player))
        } else {
            p
        }
    }
}

/// Positions of the enemy missiles destroyed by the chain sweep over
/// the first `n` missiles, in order.
pub open spec fn hostile_destroyed_upto(
    ms: Seq<Missile>,
    es: Seq<ExplosionModel>,
    n: int,
) -> Seq<Vec2Fx>
    decreases n,
{
    if n <= 0 {
        Seq::empty()
    } else {
        let p = hostile_destroyed_upto(ms, es, n - 1);
        if chain_destroys(ms[n - 1], es) && ms[n - 1].target_bunker_idx is Some {
            p.push(ms[n - 1].current_pos)
        } else {
            p
        }
    }
}

/// A star overlaps some explosion of the list.
pub open spec fn star_hit_by_any(s: Star, es: Seq<ExplosionModel>) -> bool {
    exists|j: int| 0 <= j < es.len()
        && spec_star_hit(s, (#[trigger] es[j]).pos, es[j].radius)
}

/// The stars among the first `n` that no explosion overlaps.
pub open spec fn stars_kept_upto(ss: Seq<Star>, es: Seq<ExplosionModel>, n: int) -> Seq<Star>
    decreases n,
{
    if n <= 0 {
        Seq::empty()
    } else {
        let p = stars_kept_upto(ss, es, n - 1);
        if star_hit_by_any(ss[n - 1], es) {
            p
        } else {
            p.push(ss[n - 1])
        }
    }
}

/// The explosions among the first `n` that have not ended.
pub open spec fn explosions_kept_upto(es: Seq<ExplosionModel>, n: int) -> Seq<ExplosionModel>
    decreases n,
{
    if n <= 0 {
        Seq::empty()
    } else {
        let p = explosions_kept_upto(es, n - 1);
        if es[n - 1].spec_has_ended() {
            p
        } else {
            p.push(es[n - 1])
        }
    }
}

/// The missiles among the first `n` that have not exploded.
pub open spec fn missiles_kept_upto(ms: Seq<Missile>, n: int) -> Seq<Missile>
    decreases n,
{
    if n <= 0 {
        Seq::empty()
    } else {
        let p = missiles_kept_upto(ms, n - 1);
        if ms[n - 1].exploded {
            p
        } else {
            p.push(ms[n - 1])
        }
    }
}

/// The player's state after awarding, in order, the experience for
/// enemy missiles destroyed at the listed positions.
pub open spec fn awarded_player_upto(p: Player, ys: Seq<Vec2Fx>, n: int) -> Player
    decreases n,
{
    if n <= 0 {
        p
    } else {
        let q = awarded_player_upto(p, ys, n - 1);
        Player {
            experience: ((q.experience + spec_experience_for_height(ys[n - 1].y as int))
                % spec_required(q.player_level as int)) as i64,
            ..q
        }
    }
}

/// Stars spawned while awarding, in order, the experience for the
/// listed destroyed enemy missiles.
pub open spec fn awarded_stars_upto(p: Player, ys: Seq<Vec2Fx>, n: int) -> int
    decreases n,
{
    if n <= 0 {
        0
    } else {
        let q = awarded_player_upto(p, ys, n - 1);
        awarded_stars_upto(p, ys, n - 1)
            + (q.experience + spec_experience_for_height(ys[n - 1].y as int))
                / spec_required(q.player_level as int)
    }
}

/// The experience award keeps the player well formed, never lowers
/// the level, and spawns a non-negative, growing number of stars.
pub proof fn lemma_awarded_props(p: Player, ys: Seq<Vec2Fx>, n: int)
    requires
        p.wf(),
        0 <= n,
    ensures
        awarded_player_upto(p, ys, n).wf(),
        awarded_player_upto(p, ys, n) == (Player {
            experience: awarded_player_upto(p, ys, n).experience,
            ..p
        }),
        awarded_stars_upto(p, ys, n) >= 0,
        n > 0 ==> awarded_stars_upto(p, ys, n) >= awarded_stars_upto(p, ys, n - 1),
    decreases n,
{
    if n > 0 {
        lemma_awarded_props(p, ys, n - 1);
        let q = awarded_player_upto(p, ys, n - 1);
        let e = spec_experience_for_height(ys[n - 1].y as int);
        let req = spec_required(q.player_level as int);
        vstd::arithmetic::div_mod::lemma_mod_division_less_than_divisor(
            q.experience + e, req);
        vstd::arithmetic::div_mod::lemma_div_pos_is_pos(q.experience + e, req);
    }
}

/// Every missile after the chain sweep against the explosion list.
pub open spec fn chain_stepped_all(ms: Seq<Missile>, es: Seq<ExplosionModel>) -> Seq<Missile> {
    ms.map_values(|m: Missile| chain_stepped(m, es))
}

/// A bunker keeps firing while a live player missile launched at its
/// position is in flight.
pub open spec fn still_firing(b: Bunker, ms: Seq<Missile>) -> bool {
    exists|k: int| 0 <= k < ms.len() && (#[trigger] ms[k]).target_bunker_idx is None
        && !ms[k].exploded && dist2(ms[k].start_pos, b.pos) < TARGET_HIT_DIST2
}

/// `still_firing` reads only the bunker's position.
proof fn lemma_still_firing_same_pos(a: Bunker, b: Bunker, ms: Seq<Missile>)
    requires
        a.pos == b.pos,
    ensures
        still_firing(a, ms) == still_firing(b, ms),
{
    if still_firing(a, ms) {
        let k = choose|k: int| 0 <= k < ms.len()
            && (#[trigger] ms[k]).target_bunker_idx is None && !ms[k].exploded
            && dist2(ms[k].start_pos, a.pos) < TARGET_HIT_DIST2;
        assert(0 <= k < ms.len() && ms[k].target_bunker_idx is None && !ms[k].exploded
            && dist2(ms[k].start_pos, b.pos) < TARGET_HIT_DIST2);
    }
    if still_firing(b, ms) {
        let k = choose|k: int| 0 <= k < ms.len()
            && (#[trigger] ms[k]).target_bunker_idx is None && !ms[k].exploded
            && dist2(ms[k].start_pos, b.pos) < TARGET_HIT_DIST2;
        assert(0 <= k < ms.len() && ms[k].target_bunker_idx is None && !ms[k].exploded
            && dist2(ms[k].start_pos, a.pos) < TARGET_HIT_DIST2);
    }
}

/// Every missile after the motion-and-impact sweep.
pub open spec fn missiles_stepped_all(
    ms: Seq<Missile>,
    bs: Seq<Bunker>,
    dt: int,
) -> Seq<Missile> {
    ms.map_values(|m: Missile| missile_stepped(m, bs, dt))
}

/// The missile list a running tick's motion sweep starts from: the
/// standing missiles, extended by one spawned enemy missile exactly
/// when the spawn timer ran out this tick and an active bunker was
/// left to aim at.  The spawn point and target are random; the
/// spawned missile's speed follows the pacing curve at the advanced
/// clock `time2`.
pub open spec fn spawn_outcome(g: Game, dt: int, time2: int, ms1: Seq<Missile>) -> bool {
    let actives = active_indices_upto(g.bunkers@, g.bunkers@.len() as int);
    if g.time_until_next_missile_spawn - dt > 0 || actives.len() == 0 {
        ms1 == g.missiles@
    } else {
        exists|x: i64, c: int|
            {
                &&& -380_000 <= x < 380_000
                &&& 0 <= c < actives.len()
                &&& ms1 == g.missiles@.push(crate::missile::spec_new_missile(
                    Vec2Fx { x, y: TOP_Y },
                    g.bunkers@[actives[c]].pos,
                    Some(actives[c] as usize),
                    spec_enemy_speed(time2) as i64,
                ))
            }
    }
}

/// The deterministic remainder of a running tick, given the pre-sweep
/// missile list `ms1`: motion and impacts, blast growth and chain
/// reactions, star destruction, experience awards, pruning, the
/// firing flags, and the game-over check, composed exactly as the
/// per-phase contracts state them.
pub open spec fn tick_outcome(pre: Game, dt: int, ms1: Seq<Missile>, post: Game) -> bool {
    let bs0 = pre.bunkers@;
    let player0 = pre.player;
    let ms2 = missiles_stepped_all(ms1, bs0, dt);
    let es_grown = stepped_views(
        views(pre.explosions@) + impact_explosions_upto(
            ms1, bs0, player0, dt, ms1.len() as int),
        dt,
    );
    let spawned = chain_explosions_upto(ms2, es_grown, player0, ms2.len() as int);
    let hostiles = hostile_destroyed_upto(ms2, es_grown, ms2.len() as int);
    let kept_stars = stars_kept_upto(pre.stars@, es_grown, pre.stars@.len() as int);
    &&& post.missiles@ == missiles_kept_upto(
        chain_stepped_all(ms2, es_grown), ms2.len() as int)
    &&& views(post.explosions@) == explosions_kept_upto(
        es_grown + spawned, es_grown.len() + spawned.len() as int)
    &&& post.player == awarded_player_upto(player0, hostiles, hostiles.len() as int)
    &&& post.stars@.len() == kept_stars.len() + awarded_stars_upto(
        player0, hostiles, hostiles.len() as int)
    &&& post.stars@.subrange(0, kept_stars.len() as int) == kept_stars
    &&& forall|k: int| kept_stars.len() <= k < post.stars@.len()
        ==> (#[trigger] post.stars@[k]).active
            && post.stars@[k].radius == crate::star::STAR_RADIUS
    &&& post.level_ups_left == imin(
        pre.level_ups_left + (pre.stars@.len() - kept_stars.len()), usize::MAX as int)
    &&& post.bunkers@.len() == bs0.len()
    &&& forall|i: int| 0 <= i < bs0.len()
        ==> post.bunkers@[i] == (Bunker {
            active: bs0[i].active && !bunker_killed_upto(
                i, ms1, bs0, dt, ms1.len() as int),
            firing: bs0[i].firing && still_firing(bs0[i], post.missiles@),
            ..bs0[i]
        })
    &&& post.game_over == all_bunkers_inactive(post.bunkers@)
}

/// The screen box of the `i`-th offered skill, in world coordinates.
pub open spec fn spec_option_box_contains(i: int, p: Vec2Fx) -> bool {
    let bx = -300_000 + 300_000 * i;
    bx <= p.x <= bx + 300_000 && -80_000 <= p.y <= 120_000
}

/// Advance every explosion of the list by `dt` milliseconds.
fn advance_all_explosions(explosions: &mut Vec<Explosion>, dt: i64)
    requires
        forall|i: int| 0 <= i < old(explosions)@.len()
            ==> (#[trigger] old(explosions)@[i])@.wf(),
        0 <= dt <= DT_MAX,
    ensures
        final(explosions)@.len() == old(explosions)@.len(),
        forall|i: int| 0 <= i < final(explosions)@.len()
            ==> (#[trigger] final(explosions)@[i])@
                == spec_step(old(explosions)@[i]@, dt as int)
                && final(explosions)@[i]@.wf(),
        views(final(explosions)@) == stepped_views(views(old(explosions)@), dt as int),
{
    let ghost e0 = explosions@;
    let mut i: usize = 0;
    while i < explosions.len()
        invariant
            0 <= dt <= DT_MAX,
            explosions@.len() == e0.len(),
            i <= e0.len(),
            forall|j: int| 0 <= j < e0.len() ==> (#[trigger] e0[j])@.wf(),
            forall|j: int| 0 <= j < i
                ==> (#[trigger] explosions@[j])@ == spec_step(e0[j]@, dt as int)
                    && explosions@[j]@.wf(),
            forall|j: int| i <= j < e0.len() ==> explosions@[j] == e0[j],
        decreases e0.len() - i,
    {
        let mut e: Explosion = explosions[i];
        e.update(dt);
        explosions.set(i, e);
        i = i + 1;
    }
    proof {
        assert(views(explosions@) =~= stepped_views(views(e0), dt as int));
    }
}

/// Whether any explosion of the list covers the point.
fn covered_by_any_exec(p: Vec2Fx, explosions: &Vec<Explosion>) -> (r: bool)
    requires
        p.in_world(),
        forall|i: int| 0 <= i < explosions@.len()
            ==> (#[trigger] explosions@[i])@.wf(),
    ensures
        r == covered_by_any(p, views(explosions@)),
{
    let mut hit: bool = false;
    let mut j: usize = 0;
    while j < explosions.len()
        invariant
            p.in_world(),
            j <= explosions@.len(),
            forall|i: int| 0 <= i < explosions@.len()
                ==> (#[trigger] explosions@[i])@.wf(),
            hit == exists|t: int| 0 <= t < j
                && dist2(p, (#[trigger] views(explosions@)[t]).pos)
                    <= views(explosions@)[t].radius * views(explosions@)[t].radius,
        decreases explosions@.len() - j,
    {
        let e: Explosion = explosions[j];
        let d2: i64 = dist_squared(p, e.pos);
        assert(0 <= e.radius * e.radius <= 1_000_000_000_000_000_000) by (nonlinear_arith)
            requires 0 <= e.radius <= 1_000_000_000;
        if d2 <= e.radius * e.radius {
            hit = true;
            proof {
                assert(dist2(p, views(explosions@)[j as int].pos)
                    <= views(explosions@)[j as int].radius
                        * views(explosions@)[j as int].radius);
            }
        }
        j = j + 1;
    }
    hit
}

/// Whether any explosion of the list overlaps the star.
fn star_hit_any_exec(s: &Star, explosions: &Vec<Explosion>) -> (r: bool)
    requires
        s.wf(),
        forall|i: int| 0 <= i < explosions@.len()
            ==> (#[trigger] explosions@[i])@.wf(),
    ensures
        r == star_hit_by_any(*s, views(explosions@)),
{
    let mut hit: bool = false;
    let mut j: usize = 0;
    while j < explosions.len()
        invariant
            s.wf(),
            j <= explosions@.len(),
            forall|i: int| 0 <= i < explosions@.len()
                ==> (#[trigger] explosions@[i])@.wf(),
            hit == exists|t: int| 0 <= t < j
                && spec_star_hit(*s, (#[trigger] views(explosions@)[t]).pos,
                    views(explosions@)[t].radius),
        decreases explosions@.len() - j,
    {
        let e: Explosion = explosions[j];
        if s.is_hit_by_explosion(e.pos, e.radius) {
            hit = true;
            proof {
                assert(spec_star_hit(*s, views(explosions@)[j as int].pos,
                    views(explosions@)[j as int].radius));
            }
        }
        j = j + 1;
    }
    hit
}

/// The chain sweep: every live missile covered by an explosion is
/// destroyed and spawns an explosion at its position; positions of
/// destroyed enemy missiles are collected for the experience award.
fn chain_sweep(
    missiles: &mut Vec<Missile>,
    explosions: &Vec<Explosion>,
    player: &Player,
) -> (r: (Vec<Explosion>, Vec<Vec2Fx>))
    requires
        forall|k: int| 0 <= k < old(missiles)@.len()
            ==> (#[trigger] old(missiles)@[k]).wf(),
        forall|i: int| 0 <= i < explosions@.len()
            ==> (#[trigger] explosions@[i])@.wf(),
    ensures
        final(missiles)@.len() == old(missiles)@.len(),
        forall|k: int| 0 <= k < old(missiles)@.len()
            ==> (#[trigger] final(missiles)@[k]) == chain_stepped(
                old(missiles)@[k], views(explosions@))
                && final(missiles)@[k].wf(),
        views(r.0@) == chain_explosions_upto(
            old(missiles)@, views(explosions@), *player,
            old(missiles)@.len() as int),
        forall|i: int| 0 <= i < r.0@.len() ==> (#[trigger] r.0@[i])@.wf(),
        r.1@ == hostile_destroyed_upto(
            old(missiles)@, views(explosions@), old(missiles)@.len() as int),
        forall|i: int| 0 <= i < r.1@.len() ==> (#[trigger] r.1@[i]).in_world(),
{
    let ghost m0 = missiles@;
    let ghost es = views(explosions@);
    let mut new_explosions: Vec<Explosion> = Vec::new();
    let mut hostile_positions: Vec<Vec2Fx> = Vec::new();
    let mut k: usize = 0;
    while k < missiles.len()
        invariant
            m0.len() == missiles@.len(),
            es == views(explosions@),
            k <= m0.len(),
            forall|j: int| 0 <= j < m0.len() ==> (#[trigger] m0[j]).wf(),
            forall|i: int| 0 <= i < explosions@.len()
                ==> (#[trigger] explosions@[i])@.wf(),
            forall|j: int| 0 <= j < k
                ==> (#[trigger] missiles@[j]) == chain_stepped(m0[j], es)
                    && missiles@[j].wf(),
            forall|j: int| k <= j < m0.len() ==> missiles@[j] == m0[j],
            views(new_explosions@) == chain_explosions_upto(m0, es, *player, k as int),
            forall|i: int| 0 <= i < new_explosions@.len()
                ==> (#[trigger] new_explosions@[i])@.wf(),
            hostile_positions@ == hostile_destroyed_upto(m0, es, k as int),
            forall|i: int| 0 <= i < hostile_positions@.len()
                ==> (#[trigger] hostile_positions@[i]).in_world(),
        decreases m0.len() - k,
    {
        let ghost pre_new = new_explosions@;
        let mut m: Missile = missiles[k];
        if !m.exploded {
            let hit: bool = covered_by_any_exec(m.current_pos, explosions);
            if hit {
                m.exploded = true;
                if m.target_bunker_idx.is_none() {
                    let params = ExplosionParams::from(player);
                    proof {
                        crate::explosion::lemma_player_params_wf(*player);
                    }
                    new_explosions.push(Explosion::new(m.current_pos, params));
                } else {
                    new_explosions.push(Explosion::new_default(m.current_pos));
                    hostile_positions.push(m.current_pos);
                }
                missiles.set(k, m);
            }
        }
        k = k + 1;
        proof {
            assert(missiles@[k - 1] == chain_stepped(m0[k - 1], es));
            if chain_destroys(m0[k - 1], es) {
                assert(views(new_explosions@) =~= views(pre_new).push(
                    chain_explosion(m0[k - 1], *player)));
            }
        }
    }
    (new_explosions, hostile_positions)
}

/// Every missile the prune keeps is one of the originals, unexploded.
proof fn lemma_missiles_kept_props(ms: Seq<Missile>, n: int)
    requires
        0 <= n <= ms.len(),
    ensures
        forall|k: int| 0 <= k < missiles_kept_upto(ms, n).len()
            ==> exists|j: int| 0 <= j < n
                && #[trigger] missiles_kept_upto(ms, n)[k] == ms[j]
                && !ms[j].exploded,
    decreases n,
{
    if n > 0 {
        lemma_missiles_kept_props(ms, n - 1);
        let p = missiles_kept_upto(ms, n - 1);
        assert forall|k: int| 0 <= k < missiles_kept_upto(ms, n).len() implies
            exists|j: int| 0 <= j < n
                && #[trigger] missiles_kept_upto(ms, n)[k] == ms[j]
                && !ms[j].exploded by {
            if k < p.len() {
                assert(missiles_kept_upto(ms, n)[k] == p[k]);
                let j = choose|j: int| 0 <= j < n - 1 && #[trigger] p[k] == ms[j]
                    && !ms[j].exploded;
                assert(0 <= j < n && missiles_kept_upto(ms, n)[k] == ms[j]
                    && !ms[j].exploded);
            } else {
                assert(missiles_kept_upto(ms, n)[k] == ms[n - 1]);
            }
        }
    }
}

/// Every star the sweep keeps is one of the originals, and the kept
/// list is never longer than the original.
proof fn lemma_stars_kept_props(ss: Seq<Star>, es: Seq<ExplosionModel>, n: int)
    requires
        0 <= n <= ss.len(),
    ensures
        stars_kept_upto(ss, es, n).len() <= n,
        forall|k: int| 0 <= k < stars_kept_upto(ss, es, n).len()
            ==> exists|j: int| 0 <= j < n
                && #[trigger] stars_kept_upto(ss, es, n)[k] == ss[j],
    decreases n,
{
    if n > 0 {
        lemma_stars_kept_props(ss, es, n - 1);
        let p = stars_kept_upto(ss, es, n - 1);
        assert forall|k: int| 0 <= k < stars_kept_upto(ss, es, n).len() implies
            exists|j: int| 0 <= j < n
                && #[trigger] stars_kept_upto(ss, es, n)[k] == ss[j] by {
            if k < p.len() {
                assert(stars_kept_upto(ss, es, n)[k] == p[k]);
                let j = choose|j: int| 0 <= j < n - 1 && #[trigger] p[k] == ss[j];
                assert(0 <= j < n && stars_kept_upto(ss, es, n)[k] == ss[j]);
            } else {
                assert(stars_kept_upto(ss, es, n)[k] == ss[n - 1]);
            }
        }
    }
}

/// Keep only the missiles that have not exploded.
fn prune_missiles(missiles: &mut Vec<Missile>)
    ensures
        final(missiles)@ == missiles_kept_upto(
            old(missiles)@, old(missiles)@.len() as int),
{
    let ghost m0 = missiles@;
    let mut kept: Vec<Missile> = Vec::new();
    let mut i: usize = 0;
    while i < missiles.len()
        invariant
            missiles@ == m0,
            i <= m0.len(),
            kept@ == missiles_kept_upto(m0, i as int),
        decreases m0.len() - i,
    {
        let m: Missile = missiles[i];
        if !m.exploded {
            kept.push(m);
        }
        i = i + 1;
    }
    *missiles = kept;
}

/// Keep only the explosions that have not ended.
fn prune_explosions(explosions: &mut Vec<Explosion>)
    ensures
        views(final(explosions)@) == explosions_kept_upto(
            views(old(explosions)@), old(explosions)@.len() as int),
        forall|i: int| 0 <= i < final(explosions)@.len()
            ==> exists|j: int| 0 <= j < old(explosions)@.len()
                && (#[trigger] final(explosions)@[i]) == old(explosions)@[j],
{
    let ghost e0 = explosions@;
    let mut kept: Vec<Explosion> = Vec::new();
    let mut i: usize = 0;
    while i < explosions.len()
        invariant
            explosions@ == e0,
            i <= e0.len(),
            views(kept@) == explosions_kept_upto(views(e0), i as int),
            forall|k: int| 0 <= k < kept@.len()
                ==> exists|j: int| 0 <= j < e0.len()
                    && (#[trigger] kept@[k]) == e0[j],
        decreases e0.len() - i,
    {
        let e: Explosion = explosions[i];
        if !e.has_ended() {
            kept.push(e);
            proof {
                assert(views(kept@) =~= explosions_kept_upto(views(e0), i + 1));
            }
        }
        i = i + 1;
    }
    *explosions = kept;
}

/// Refresh each bunker's firing flag from the live player missiles.
fn update_firing(bunkers: &mut Vec<Bunker>, missiles: &Vec<Missile>)
    requires
        forall|i: int| 0 <= i < old(bunkers)@.len()
            ==> (#[trigger] old(bunkers)@[i]).pos.in_world(),
        forall|k: int| 0 <= k < missiles@.len() ==> (#[trigger] missiles@[k]).wf(),
    ensures
        final(bunkers)@.len() == old(bunkers)@.len(),
        forall|i: int| 0 <= i < old(bunkers)@.len()
            ==> final(bunkers)@[i] == (Bunker {
                firing: old(bunkers)@[i].firing
                    && still_firing(old(bunkers)@[i], missiles@),
                ..old(bunkers)@[i]
            }),
{
    let ghost b0 = bunkers@;
    let mut i: usize = 0;
    while i < bunkers.len()
        invariant
            bunkers@.len() == b0.len(),
            i <= b0.len(),
            forall|j: int| 0 <= j < b0.len() ==> (#[trigger] b0[j]).pos.in_world(),
            forall|k: int| 0 <= k < missiles@.len() ==> (#[trigger] missiles@[k]).wf(),
            forall|j: int| 0 <= j < i
                ==> bunkers@[j] == (Bunker {
                    firing: b0[j].firing && still_firing(b0[j], missiles@),
                    ..b0[j]
                }),
            forall|j: int| i <= j < b0.len() ==> bunkers@[j] == b0[j],
        decreases b0.len() - i,
    {
        let b: Bunker = bunkers[i];
        proof {
            assert(b == b0[i as int]);
            assert(b.pos.in_world());
        }
        if b.firing {
            let mut any: bool = false;
            let mut k: usize = 0;
            while k < missiles.len()
                invariant
                    b.pos.in_world(),
                    k <= missiles@.len(),
                    forall|t: int| 0 <= t < missiles@.len()
                        ==> (#[trigger] missiles@[t]).wf(),
                    any == exists|t: int| 0 <= t < k
                        && (#[trigger] missiles@[t]).target_bunker_idx is None
                        && !missiles@[t].exploded
                        && dist2(missiles@[t].start_pos, b.pos) < TARGET_HIT_DIST2,
                decreases missiles@.len() - k,
            {
                let m: Missile = missiles[k];
                if m.target_bunker_idx.is_none() && !m.exploded {
                    let d2: i64 = dist_squared(m.start_pos, b.pos);
                    if d2 < TARGET_HIT_DIST2 {
                        any = true;
                    }
                }
                k = k + 1;
            }
            let mut nb: Bunker = b;
            nb.firing = any;
            bunkers.set(i, nb);
        }
        i = i + 1;
    }
}

/// The whole simulation state.
pub struct Game {
    pub bunkers: Vec<Bunker>,
    pub missiles: Vec<Missile>,
    pub explosions: Vec<Explosion>,
    pub stars: Vec<Star>,
    pub time_until_next_missile_spawn: i64,
    pub game_over: bool,
    pub game_time: i64,
    pub player: Player,
    pub level_ups_left: usize,
    pub skill_options: Vec<Skill>,
    pub selected_skill_index: usize,
}

impl Game {
    /// Well-formedness of the entity collections alone, without the
    /// cross-cutting clauses that only hold between whole ticks.
    pub open spec fn wf_entities(self) -> bool {
        &&& self.bunkers@.len() == BUNKER_COUNT
        &&& forall|i: int| 0 <= i < self.bunkers@.len()
            ==> (#[trigger] self.bunkers@[i]).pos.in_world()
                && self.bunkers@[i].pos.y == BUNKER_Y
        &&& forall|i: int| 0 <= i < self.missiles@.len()
            ==> (#[trigger] self.missiles@[i]).wf()
        &&& forall|i: int| 0 <= i < self.explosions@.len()
            ==> (#[trigger] self.explosions@[i])@.wf()
        &&& forall|i: int| 0 <= i < self.stars@.len()
            ==> (#[trigger] self.stars@[i]).wf()
        &&& self.player.wf()
        &&& 0 <= self.game_time <= TIME_LIMIT
        &&& -300_000 <= self.time_until_next_missile_spawn <= 1_000_000
        &&& self.skill_options@.len() <= 2
        &&& forall|i: int, j: int| 0 <= i < j < self.skill_options@.len()
            ==> self.skill_options@[i] != self.skill_options@[j]
        &&& self.selected_skill_index < 2
    }

    /// The full invariant, as it holds between ticks: additionally,
    /// no exploded missile survives a tick, and losing every bunker
    /// has set the game-over flag.
    pub open spec fn wf(self) -> bool {
        &&& self.wf_entities()
        &&& forall|i: int| 0 <= i < self.missiles@.len()
            ==> !(#[trigger] self.missiles@[i]).exploded
        &&& all_bunkers_inactive(self.bunkers@) ==> self.game_over
    }

    /// The state every run starts from: three intact bunkers on the
    /// bunker line, nothing in flight, a fresh player.
    pub open spec fn is_initial(self) -> bool {
        &&& self.bunkers@.len() == BUNKER_COUNT
        &&& self.bunkers@[0] == (Bunker {
            pos: Vec2Fx { x: -200_000i64, y: BUNKER_Y },
            active: true,
            firing: false,
        })
        &&& self.bunkers@[1] == (Bunker {
            pos: Vec2Fx { x: 0i64, y: BUNKER_Y },
            active: true,
            firing: false,
        })
        &&& self.bunkers@[2] == (Bunker {
            pos: Vec2Fx { x: 200_000i64, y: BUNKER_Y },
            active: true,
            firing: false,
        })
        &&& self.missiles@.len() == 0
        &&& self.explosions@.len() == 0
        &&& self.stars@.len() == 0
        &&& self.time_until_next_missile_spawn == INITIAL_SPAWN_TIME
        &&& !self.game_over
        &&& self.game_time == 0
        &&& self.player.wf()
        &&& self.player.spec_level() == 0
        &&& self.player.spec_experience() == 0
        &&& forall|s: Skill| self.player.spec_skill_level(s) == 0
        &&& self.level_ups_left == 0
        &&& self.skill_options@.len() == 0
        &&& self.selected_skill_index == 0
    }

    /// A fresh game.
    pub fn new() -> (r: Game)
        ensures
            r.is_initial(),
            r.wf(),
    {
        let mut bunkers: Vec<Bunker> = Vec::new();
        bunkers.push(Bunker::new(Vec2Fx { x: -200_000, y: BUNKER_Y }));
        bunkers.push(Bunker::new(Vec2Fx { x: 0, y: BUNKER_Y }));
        bunkers.push(Bunker::new(Vec2Fx { x: 200_000, y: BUNKER_Y }));
        proof {
            assert(bunkers@[0].active);
            assert(!all_bunkers_inactive(bunkers@));
            assert(forall|i: int| 0 <= i < bunkers@.len()
                ==> (#[trigger] bunkers@[i]).pos.in_world()
                    && bunkers@[i].pos.y == BUNKER_Y);
        }
        Game {
            bunkers,
            missiles: Vec::new(),
            explosions: Vec::new(),
            stars: Vec::new(),
            time_until_next_missile_spawn: INITIAL_SPAWN_TIME,
            game_over: false,
            game_time: 0,
            player: Player::new(),
            level_ups_left: 0,
            skill_options: Vec::new(),
            selected_skill_index: 0,
        }
    }

    /// Start over from the initial state (the reset signal while the
    /// game-over screen is shown).
    pub fn reset(&mut self)
        ensures
            final(self).is_initial(),
            final(self).wf(),
    {
        *self = Game::new();
    }

    /// Set the game-over flag as soon as every bunker is destroyed;
    /// never clear it.
    pub fn check_game_over(&mut self)
        ensures
            final(self).game_over == (old(self).game_over
                || all_bunkers_inactive(old(self).bunkers@)),
            *final(self) == (Game { game_over: final(self).game_over, ..*old(self) }),
    {
        let mut any_active: bool = false;
        let mut i: usize = 0;
        while i < self.bunkers.len()
            invariant
                i <= self.bunkers@.len(),
                any_active == exists|j: int| 0 <= j < i && (#[trigger] self.bunkers@[j]).active,
                *self == *old(self),
            decreases self.bunkers@.len() - i,
        {
            if self.bunkers[i].active {
                any_active = true;
            }
            i = i + 1;
        }
        if !any_active {
            self.game_over = true;
        }
    }

    /// The eligible bunker (active and not firing) closest to
    /// `target`, ties going to the lowest index.
    pub fn find_closest_active_bunker(&self, target: Vec2Fx) -> (r: Option<usize>)
        requires
            self.wf_entities(),
            target.in_world(),
        ensures
            r matches Some(i) ==> closest_upto(self.bunkers@, target, self.bunkers@.len() as int)
                == Some(i as int),
            r is None ==> closest_upto(self.bunkers@, target, self.bunkers@.len() as int)
                is None,
    {
        let mut closest: Option<usize> = None;
        let mut best_d2: i64 = 0;
        let mut i: usize = 0;
        while i < self.bunkers.len()
            invariant
                self.wf_entities(),
                target.in_world(),
                i <= self.bunkers@.len(),
                match closest {
                    None => closest_upto(self.bunkers@, target, i as int) is None,
                    Some(j) => closest_upto(self.bunkers@, target, i as int)
                        == Some(j as int) && j < i
                        && best_d2 == dist2(self.bunkers@[j as int].pos, target),
                },
            decreases self.bunkers@.len() - i,
        {
            let b = self.bunkers[i];
            if b.active && !b.firing {
                let d2: i64 = dist_squared(b.pos, target);
                match closest {
                    None => {
                        closest = Some(i);
                        best_d2 = d2;
                    },
                    Some(_) => {
                        if d2 < best_d2 {
                            closest = Some(i);
                            best_d2 = d2;
                        }
                    },
                }
            }
            i = i + 1;
        }
        closest
    }

    /// Fire a player missile at `target` from the closest eligible
    /// bunker.  Without an eligible bunker, or when the shot would aim
    /// at its own launch point (which has no direction), nothing
    /// happens.
    pub fn fire_at(&mut self, target: Vec2Fx)
        requires
            old(self).wf(),
            target.in_world(),
        ensures
            final(self).wf(),
            final(self).explosions == old(self).explosions,
            final(self).stars == old(self).stars,
            final(self).player == old(self).player,
            final(self).level_ups_left == old(self).level_ups_left,
            final(self).skill_options == old(self).skill_options,
            final(self).selected_skill_index == old(self).selected_skill_index,
            final(self).game_over == old(self).game_over,
            final(self).game_time == old(self).game_time,
            final(self).time_until_next_missile_spawn
                == old(self).time_until_next_missile_spawn,
            match closest_upto(old(self).bunkers@, target, old(self).bunkers@.len() as int) {
                None => *final(self) == *old(self),
                Some(i) => if old(self).bunkers@[i].pos == target {
                    *final(self) == *old(self)
                } else {
                    final(self).bunkers@ == old(self).bunkers@.update(i, Bunker {
                        firing: true,
                        ..old(self).bunkers@[i]
                    }) && final(self).missiles@ == old(self).missiles@.push(
                        crate::missile::spec_new_missile(
                            old(self).bunkers@[i].pos,
                            target,
                            None,
                            crate::player::spec_scaled(
                                crate::constants::MISSILE_SPEED as int,
                                old(self).player.spec_skill_level(Skill::MissileSpeed) as int,
                                crate::missile::SPEED_MAX as int,
                            ) as i64,
                        ),
                    )
                },
            },
    {
        let found: Option<usize> = self.find_closest_active_bunker(target);
        match found {
            None => {},
            Some(idx) => {
                proof {
                    lemma_closest_upto_some(
                        self.bunkers@, target, self.bunkers@.len() as int, idx as int);
                }
                let bpos: Vec2Fx = self.bunkers[idx].pos;
                if bpos.x == target.x && bpos.y == target.y {
                    // A shot at the launch point itself is dropped.
                } else {
                    let speed: i64 = self.player.get_missile_speed();
                    let m = Missile::new(bpos, target, None, speed);
                    let mut b = self.bunkers[idx];
                    b.firing = true;
                    self.bunkers.set(idx, b);
                    self.missiles.push(m);
                    proof {
                        assert(!all_bunkers_inactive(final(self).bunkers@)) by {
                            assert(final(self).bunkers@[idx as int].active);
                        };
                    }
                }
            },
        }
    }

    /// Experience for an enemy missile destroyed at `pos`: linear in
    /// its height above the bunker line.
    pub fn calculate_experience_for_missile(&self, pos: Vec2Fx) -> (r: i64)
        requires
            pos.in_world(),
        ensures
            r == spec_experience_for_height(pos.y as int),
            0 <= r <= EXP_AWARD_MAX,
    {
        let above: i64 = EXP_BASE_Y - pos.y;
        assert(-100_000_000_000_000_000 <= 100_000 * above
            <= 100_000_000_000_000_000) by (nonlinear_arith)
            requires -1_000_000_000 <= above <= 1_000_280_000;
        let scaled: i64 = 100_000 * above;
        if scaled <= 0 {
            proof {
                if scaled < 0 {
                    assert(scaled / 580_000 <= 0) by (nonlinear_arith)
                        requires scaled < 0;
                } else {
                    assert(scaled / 580_000 == 0);
                }
            }
            0
        } else {
            let r: i64 = scaled / 580_000;
            proof {
                vstd::arithmetic::div_mod::lemma_div_pos_is_pos(scaled as int, 580_000);
                vstd::arithmetic::div_mod::lemma_div_is_ordered(
                    scaled as int, 100_000_000_000_000_000, 580_000);
            }
            r
        }
    }

    /// Append an enemy missile from `(start_x, TOP_Y)` toward the
    /// `choice`-th active bunker, at the speed the current game time
    /// dictates.
    pub fn spawn_enemy_missile_at(&mut self, start_x: i64, choice: usize)
        requires
            old(self).wf_entities(),
            -380_000 <= start_x <= 380_000,
            choice < active_indices_upto(
                old(self).bunkers@, old(self).bunkers@.len() as int).len(),
        ensures
            final(self).wf_entities(),
            final(self).missiles@ == old(self).missiles@.push(
                crate::missile::spec_new_missile(
                    Vec2Fx { x: start_x, y: TOP_Y },
                    old(self).bunkers@[active_indices_upto(
                        old(self).bunkers@,
                        old(self).bunkers@.len() as int,
                    )[choice as int]].pos,
                    Some(active_indices_upto(
                        old(self).bunkers@,
                        old(self).bunkers@.len() as int,
                    )[choice as int] as usize),
                    spec_enemy_speed(old(self).game_time as int) as i64,
                ),
            ),
            *final(self) == (Game { missiles: final(self).missiles, ..*old(self) }),
    {
        let ghost bs = self.bunkers@;
        let ghost n = self.bunkers@.len() as int;
        let mut actives: Vec<usize> = Vec::new();
        let mut i: usize = 0;
        while i < self.bunkers.len()
            invariant
                *self == *old(self),
                self.wf_entities(),
                bs == self.bunkers@,
                n == bs.len() as int,
                i <= bs.len(),
                actives@.len() == active_indices_upto(bs, i as int).len(),
                forall|k: int| 0 <= k < actives@.len()
                    ==> (#[trigger] actives@[k]) as int
                        == active_indices_upto(bs, i as int)[k]
                        && actives@[k] < i,
            decreases bs.len() - i,
        {
            if self.bunkers[i].active {
                actives.push(i);
            }
            i = i + 1;
            proof {
                assert(forall|k: int| 0 <= k < active_indices_upto(bs, i - 1).len()
                    ==> active_indices_upto(bs, i as int)[k]
                        == active_indices_upto(bs, i - 1)[k]);
            }
        }
        let idx: usize = actives[choice];
        let target: Vec2Fx = self.bunkers[idx].pos;
        let start: Vec2Fx = Vec2Fx { x: start_x, y: TOP_Y };
        let speed: i64 = get_enemy_missile_speed(self.game_time);
        let m = Missile::new(start, target, Some(idx), speed);
        self.missiles.push(m);
    }

    /// Spawn an enemy missile from a random point on the top line,
    /// aimed at a random active bunker; with no active bunker left,
    /// nothing happens.
    pub fn spawn_enemy_missile(&mut self)
        requires
            old(self).wf_entities(),
        ensures
            final(self).wf_entities(),
            *final(self) == (Game { missiles: final(self).missiles, ..*old(self) }),
            active_indices_upto(old(self).bunkers@, old(self).bunkers@.len() as int).len()
                == 0 ==> *final(self) == *old(self),
            active_indices_upto(old(self).bunkers@, old(self).bunkers@.len() as int).len()
                > 0 ==> exists|x: i64, c: int|
                {
                    &&& -380_000 <= x < 380_000
                    &&& 0 <= c < active_indices_upto(
                        old(self).bunkers@, old(self).bunkers@.len() as int).len()
                    &&& final(self).missiles@ == old(self).missiles@.push(
                        crate::missile::spec_new_missile(
                            Vec2Fx { x, y: TOP_Y },
                            old(self).bunkers@[active_indices_upto(
                                old(self).bunkers@,
                                old(self).bunkers@.len() as int,
                            )[c]].pos,
                            Some(active_indices_upto(
                                old(self).bunkers@,
                                old(self).bunkers@.len() as int,
                            )[c] as usize),
                            spec_enemy_speed(old(self).game_time as int) as i64,
                        ),
                    )
                },
    {
        let ghost bs = self.bunkers@;
        let mut count: usize = 0;
        let mut i: usize = 0;
        while i < self.bunkers.len()
            invariant
                *self == *old(self),
                self.wf_entities(),
                bs == self.bunkers@,
                i <= bs.len(),
                count <= i,
                count == active_indices_upto(bs, i as int).len(),
            decreases bs.len() - i,
        {
            if self.bunkers[i].active {
                count = count + 1;
            }
            i = i + 1;
        }
        if count > 0 {
            let x: i64 = random_in_range(-380_000, 380_000);
            let c: usize = random_index(count);
            self.spawn_enemy_missile_at(x, c);
            proof {
                assert(-380_000 <= x < 380_000 && 0 <= c < count);
            }
        }
    }

    /// Append a fresh star at `pos`.
    pub fn spawn_star_at(&mut self, pos: Vec2Fx)
        requires
            old(self).wf_entities(),
            pos.in_world(),
        ensures
            final(self).wf_entities(),
            final(self).stars@ == old(self).stars@.push(Star {
                pos,
                active: true,
                radius: crate::star::STAR_RADIUS,
            }),
            *final(self) == (Game { stars: final(self).stars, ..*old(self) }),
    {
        let s = Star::new(pos);
        self.stars.push(s);
    }

    /// Spawn a star at a random position in the upper band of the play
    /// field.
    pub fn spawn_star(&mut self)
        requires
            old(self).wf_entities(),
        ensures
            final(self).wf_entities(),
            final(self).stars@.len() == old(self).stars@.len() + 1,
            final(self).stars@.subrange(0, old(self).stars@.len() as int)
                == old(self).stars@,
            final(self).stars@.last().active,
            final(self).stars@.last().radius == crate::star::STAR_RADIUS,
            -350_000 <= final(self).stars@.last().pos.x < 350_000,
            -250_000 <= final(self).stars@.last().pos.y < 200_000,
            *final(self) == (Game { stars: final(self).stars, ..*old(self) }),
    {
        let x: i64 = random_in_range(-350_000, 350_000);
        let y: i64 = random_in_range(-250_000, 200_000);
        self.spawn_star_at(Vec2Fx { x, y });
        proof {
            assert(final(self).stars@.subrange(0, old(self).stars@.len() as int)
                =~= old(self).stars@);
        }
    }

    /// Add an experience award to the player and spawn one star per
    /// level-up crossed.
    pub fn award_experience(&mut self, amount: i64)
        requires
            old(self).wf_entities(),
            0 <= amount <= EXP_AWARD_MAX,
        ensures
            final(self).wf_entities(),
            final(self).player == (Player {
                experience: final(self).player.experience,
                ..old(self).player
            }),
            final(self).player.spec_experience()
                == (old(self).player.spec_experience() + amount)
                    % spec_required(old(self).player.spec_level() as int),
            final(self).stars@.len() == old(self).stars@.len()
                + (old(self).player.spec_experience() + amount)
                    / spec_required(old(self).player.spec_level() as int),
            final(self).stars@.subrange(0, old(self).stars@.len() as int)
                == old(self).stars@,
            forall|k: int| old(self).stars@.len() <= k < final(self).stars@.len()
                ==> (#[trigger] final(self).stars@[k]).active
                    && final(self).stars@[k].radius == crate::star::STAR_RADIUS
                    && -350_000 <= final(self).stars@[k].pos.x < 350_000
                    && -250_000 <= final(self).stars@[k].pos.y < 200_000,
            *final(self) == (Game {
                player: final(self).player,
                stars: final(self).stars,
                ..*old(self)
            }),
    {
        let n: usize = self.player.add_experience(amount);
        let ghost base = self.stars@.len() as int;
        let mut j: usize = 0;
        while j < n
            invariant
                j <= n,
                self.wf_entities(),
                self.player == (Player {
                    experience: self.player.experience,
                    ..old(self).player
                }),
                self.player.spec_experience()
                    == (old(self).player.spec_experience() + amount)
                        % spec_required(old(self).player.spec_level() as int),
                n == (old(self).player.spec_experience() + amount)
                    / spec_required(old(self).player.spec_level() as int),
                self.stars@.len() == base + j,
                base == old(self).stars@.len(),
                self.stars@.subrange(0, base) == old(self).stars@,
                forall|k: int| base <= k < self.stars@.len()
                    ==> (#[trigger] self.stars@[k]).active
                        && self.stars@[k].radius == crate::star::STAR_RADIUS
                        && -350_000 <= self.stars@[k].pos.x < 350_000
                        && -250_000 <= self.stars@[k].pos.y < 200_000,
                *self == (Game {
                    player: self.player,
                    stars: self.stars,
                    ..*old(self)
                }),
            decreases n - j,
        {
            let ghost pre = self.stars@;
            self.spawn_star();
            j = j + 1;
            proof {
                assert forall|k: int| 0 <= k < base implies self.stars@[k]
                    == old(self).stars@[k] by {
                    assert(self.stars@.subrange(0, pre.len() as int)[k] == pre[k]);
                    assert(pre.subrange(0, base)[k] == old(self).stars@[k]);
                }
                assert(self.stars@.subrange(0, base) =~= old(self).stars@);
                assert forall|k: int| base <= k < self.stars@.len() implies
                    (#[trigger] self.stars@[k]).active
                        && self.stars@[k].radius == crate::star::STAR_RADIUS
                        && -350_000 <= self.stars@[k].pos.x < 350_000
                        && -250_000 <= self.stars@[k].pos.y < 200_000 by {
                    if k < pre.len() {
                        assert(self.stars@.subrange(0, pre.len() as int)[k] == pre[k]);
                    } else {
                        assert(self.stars@[k] == self.stars@.last());
                    }
                }
            }
        }
    }

    /// The tick is suspended while skill choices are pending.
    pub fn is_skill_selection_active(&self) -> (r: bool)
        ensures
            r == (self.level_ups_left > 0),
    {
        self.level_ups_left > 0
    }

    /// One motion-and-impact pass over every missile: each live
    /// missile advances, enemy missiles close to their bunker destroy
    /// it and explode with default parameters, player missiles at
    /// their target explode with the player's parameters.  No missile
    /// resolves more than one impact, and exploded missiles stay
    /// frozen.
    pub fn update_missiles(&mut self, dt: i64)
        requires
            old(self).wf_entities(),
            0 <= dt <= DT_MAX,
        ensures
            final(self).wf_entities(),
            final(self).missiles@.len() == old(self).missiles@.len(),
            forall|k: int| 0 <= k < old(self).missiles@.len()
                ==> final(self).missiles@[k] == missile_stepped(
                    old(self).missiles@[k], old(self).bunkers@, dt as int),
            final(self).bunkers@.len() == old(self).bunkers@.len(),
            forall|i: int| 0 <= i < old(self).bunkers@.len()
                ==> final(self).bunkers@[i] == (Bunker {
                    active: old(self).bunkers@[i].active && !bunker_killed_upto(
                        i, old(self).missiles@, old(self).bunkers@, dt as int,
                        old(self).missiles@.len() as int),
                    ..old(self).bunkers@[i]
                }),
            views(final(self).explosions@) == views(old(self).explosions@)
                + impact_explosions_upto(
                    old(self).missiles@, old(self).bunkers@, old(self).player,
                    dt as int, old(self).missiles@.len() as int),
            *final(self) == (Game {
                missiles: final(self).missiles,
                bunkers: final(self).bunkers,
                explosions: final(self).explosions,
                ..*old(self)
            }),
    {
        let ghost ms0 = self.missiles@;
        let ghost bs0 = self.bunkers@;
        let ghost player0 = self.player;
        let mut new_explosions: Vec<Explosion> = Vec::new();
        let mut k: usize = 0;
        while k < self.missiles.len()
            invariant
                old(self).wf_entities(),
                self.wf_entities(),
                0 <= dt <= DT_MAX,
                ms0 == old(self).missiles@,
                bs0 == old(self).bunkers@,
                player0 == old(self).player,
                k <= ms0.len(),
                self.missiles@.len() == ms0.len(),
                forall|j: int| 0 <= j < k
                    ==> self.missiles@[j] == missile_stepped(ms0[j], bs0, dt as int),
                forall|j: int| k <= j < ms0.len() ==> self.missiles@[j] == ms0[j],
                self.bunkers@.len() == bs0.len(),
                forall|i: int| 0 <= i < bs0.len()
                    ==> self.bunkers@[i] == (Bunker {
                        active: bs0[i].active
                            && !bunker_killed_upto(i, ms0, bs0, dt as int, k as int),
                        ..bs0[i]
                    }),
                views(new_explosions@) == impact_explosions_upto(
                    ms0, bs0, player0, dt as int, k as int),
                forall|j: int| 0 <= j < new_explosions@.len()
                    ==> (#[trigger] new_explosions@[j])@.wf(),
                *self == (Game {
                    missiles: self.missiles,
                    bunkers: self.bunkers,
                    ..*old(self)
                }),
            decreases ms0.len() - k,
        {
            let ghost pre_bunkers = self.bunkers@;
            let ghost pre_new = new_explosions@;
            let mut m: Missile = self.missiles[k];
            if !m.exploded {
                m.advance(dt);
                assert(m == missile_moved(ms0[k as int], dt as int));
                match m.target_bunker_idx {
                    Some(ti) => {
                        if ti < self.bunkers.len() {
                            let bpos: Vec2Fx = self.bunkers[ti].pos;
                            let d2: i64 = dist_squared(m.current_pos, bpos);
                            if d2 < BUNKER_HIT_DIST2 {
                                m.exploded = true;
                                let mut b: Bunker = self.bunkers[ti];
                                b.active = false;
                                self.bunkers.set(ti, b);
                                new_explosions.push(Explosion::new_default(bpos));
                            }
                        }
                    },
                    None => {
                        let d2: i64 = dist_squared(m.current_pos, m.target_pos);
                        if d2 < TARGET_HIT_DIST2 {
                            m.exploded = true;
                            let params = ExplosionParams::from(&self.player);
                            proof {
                                crate::explosion::lemma_player_params_wf(self.player);
                            }
                            new_explosions.push(Explosion::new(m.current_pos, params));
                        }
                    },
                }
            }
            self.missiles.set(k, m);
            k = k + 1;
            proof {
                assert(self.missiles@[k - 1] == missile_stepped(
                    ms0[k - 1], bs0, dt as int));
                if missile_impacts(ms0[k - 1], bs0, dt as int) {
                    assert(views(new_explosions@) =~= views(pre_new).push(
                        impact_explosion(ms0[k - 1], bs0, player0, dt as int)));
                } else {
                    assert(new_explosions@ == pre_new);
                }
                assert forall|i: int| 0 <= i < bs0.len() implies self.bunkers@[i]
                    == (Bunker {
                        active: bs0[i].active
                            && !bunker_killed_upto(i, ms0, bs0, dt as int, k as int),
                        ..bs0[i]
                    }) by {
                    if bunker_killed_upto(i, ms0, bs0, dt as int, k as int) {
                        assert(bunker_killed_upto(i, ms0, bs0, dt as int, k as int)
                            == (bunker_killed_upto(i, ms0, bs0, dt as int, k - 1)
                                || (missile_impacts(ms0[k - 1], bs0, dt as int)
                                    && ms0[k - 1].target_bunker_idx
                                        == Some(i as usize))));
                    } else {
                        assert(!bunker_killed_upto(i, ms0, bs0, dt as int, k - 1));
                    }
                }
            }
        }
        let ghost pre_ex = self.explosions@;
        let ghost pre_new = new_explosions@;
        self.explosions.append(&mut new_explosions);
        proof {
            assert(views(self.explosions@) =~= views(pre_ex)
                + impact_explosions_upto(
                    ms0, bs0, player0, dt as int, ms0.len() as int));
            assert forall|i: int| 0 <= i < self.explosions@.len() implies
                (#[trigger] self.explosions@[i])@.wf() by {
                if i < pre_ex.len() {
                    assert(self.explosions@[i] == pre_ex[i]);
                } else {
                    assert(self.explosions@[i] == pre_new[i - pre_ex.len()]);
                }
            }
        }
    }

    /// One full explosion tick: grow every blast, let blasts destroy
    /// missiles (chain reactions, spawning new blasts after the sweep)
    /// and stars, award experience for destroyed enemy missiles
    /// (spawning one star per level-up), prune finished blasts and
    /// exploded missiles, and refresh the bunkers' firing flags.
    pub fn update_explosions(&mut self, dt: i64)
        requires
            old(self).wf_entities(),
            0 <= dt <= DT_MAX,
        ensures
            final(self).wf_entities(),
            forall|k: int| 0 <= k < final(self).missiles@.len()
                ==> !(#[trigger] final(self).missiles@[k]).exploded,
            ({
                let es1 = stepped_views(views(old(self).explosions@), dt as int);
                let ms0 = old(self).missiles@;
                let spawned = chain_explosions_upto(
                    ms0, es1, old(self).player, ms0.len() as int);
                let hostiles = hostile_destroyed_upto(ms0, es1, ms0.len() as int);
                let kept_stars = stars_kept_upto(
                    old(self).stars@, es1, old(self).stars@.len() as int);
                let destroyed_stars = old(self).stars@.len() - kept_stars.len();
                &&& final(self).missiles@ == missiles_kept_upto(
                    chain_stepped_all(ms0, es1), ms0.len() as int)
                &&& views(final(self).explosions@) == explosions_kept_upto(
                    es1 + spawned, es1.len() + spawned.len() as int)
                &&& final(self).player == awarded_player_upto(
                    old(self).player, hostiles, hostiles.len() as int)
                &&& final(self).stars@.len() == kept_stars.len() + awarded_stars_upto(
                    old(self).player, hostiles, hostiles.len() as int)
                &&& final(self).stars@.subrange(0, kept_stars.len() as int) == kept_stars
                &&& forall|k: int| kept_stars.len() <= k < final(self).stars@.len()
                    ==> (#[trigger] final(self).stars@[k]).active
                        && final(self).stars@[k].radius == crate::star::STAR_RADIUS
                &&& final(self).level_ups_left == imin(
                    old(self).level_ups_left + destroyed_stars, usize::MAX as int)
                &&& final(self).bunkers@.len() == old(self).bunkers@.len()
                &&& forall|i: int| 0 <= i < old(self).bunkers@.len()
                    ==> final(self).bunkers@[i] == (Bunker {
                        firing: old(self).bunkers@[i].firing && still_firing(
                            old(self).bunkers@[i], final(self).missiles@),
                        ..old(self).bunkers@[i]
                    })
                &&& final(self).game_over == old(self).game_over
                &&& final(self).game_time == old(self).game_time
                &&& final(self).time_until_next_missile_spawn
                    == old(self).time_until_next_missile_spawn
                &&& final(self).skill_options == old(self).skill_options
                &&& final(self).selected_skill_index == old(self).selected_skill_index
            }),
    {
        advance_all_explosions(&mut self.explosions, dt);
        let ghost es1 = views(self.explosions@);
        let ghost ms0 = old(self).missiles@;
        let sweep = chain_sweep(&mut self.missiles, &self.explosions, &self.player);
        let mut new_explosions: Vec<Explosion> = sweep.0;
        let hostiles: Vec<Vec2Fx> = sweep.1;
        proof {
            assert(self.missiles@ =~= chain_stepped_all(ms0, es1));
        }

        // Star sweep: drop overlapped stars and count them as pending
        // skill choices.
        let ghost s0 = self.stars@;
        let mut kept_stars: Vec<Star> = Vec::new();
        let mut i: usize = 0;
        while i < self.stars.len()
            invariant
                self.stars@ == s0,
                es1 == views(self.explosions@),
                forall|t: int| 0 <= t < self.explosions@.len()
                    ==> (#[trigger] self.explosions@[t])@.wf(),
                forall|t: int| 0 <= t < s0.len() ==> (#[trigger] s0[t]).wf(),
                i <= s0.len(),
                kept_stars@ == stars_kept_upto(s0, es1, i as int),
                kept_stars@.len() <= i,
                forall|t: int| 0 <= t < kept_stars@.len()
                    ==> (#[trigger] kept_stars@[t]).wf(),
            decreases s0.len() - i,
        {
            let s: Star = self.stars[i];
            if !star_hit_any_exec(&s, &self.explosions) {
                kept_stars.push(s);
            }
            i = i + 1;
        }
        let destroyed: usize = self.stars.len() - kept_stars.len();
        self.stars = kept_stars;
        if destroyed > usize::MAX - self.level_ups_left {
            self.level_ups_left = usize::MAX;
        } else {
            self.level_ups_left = self.level_ups_left + destroyed;
        }

        // Award experience for every destroyed enemy missile, in
        // order; each award spawns one star per level-up crossed.
        let ghost kept = self.stars@;
        let ghost hs = hostiles@;
        let ghost player0 = old(self).player;
        let ghost pre_award = *self;
        let mut j: usize = 0;
        while j < hostiles.len()
            invariant
                hs == hostiles@,
                j <= hs.len(),
                forall|t: int| 0 <= t < hs.len() ==> (#[trigger] hs[t]).in_world(),
                self.wf_entities(),
                player0.wf(),
                self.player == awarded_player_upto(player0, hs, j as int),
                pre_award.player == player0,
                pre_award.stars@ == kept,
                self.stars@.len() == kept.len() + awarded_stars_upto(player0, hs, j as int),
                self.stars@.subrange(0, kept.len() as int) == kept,
                forall|k: int| kept.len() <= k < self.stars@.len()
                    ==> (#[trigger] self.stars@[k]).active
                        && self.stars@[k].radius == crate::star::STAR_RADIUS
                        && self.stars@[k].pos.in_world(),
                *self == (Game { player: self.player, stars: self.stars, ..pre_award }),
            decreases hs.len() - j,
        {
            let ghost stars_pre = self.stars@;
            let pos: Vec2Fx = hostiles[j];
            let exp: i64 = self.calculate_experience_for_missile(pos);
            self.award_experience(exp);
            j = j + 1;
            proof {
                lemma_awarded_props(player0, hs, j - 1);
                lemma_awarded_props(player0, hs, j as int);
                assert(self.player == awarded_player_upto(player0, hs, j as int));
                assert forall|k: int| 0 <= k < kept.len() implies self.stars@[k]
                    == kept[k] by {
                    assert(self.stars@.subrange(0, stars_pre.len() as int)[k]
                        == stars_pre[k]);
                    assert(stars_pre.subrange(0, kept.len() as int)[k] == kept[k]);
                }
                assert(self.stars@.subrange(0, kept.len() as int) =~= kept);
                assert forall|k: int| kept.len() <= k < self.stars@.len() implies
                    (#[trigger] self.stars@[k]).active
                        && self.stars@[k].radius == crate::star::STAR_RADIUS
                        && self.stars@[k].pos.in_world() by {
                    if k < stars_pre.len() {
                        assert(self.stars@.subrange(0, stars_pre.len() as int)[k]
                            == stars_pre[k]);
                    }
                }
            }
        }

        // Chain-spawned blasts join only after the sweep; then prune.
        let ghost pre_ex = self.explosions@;
        let ghost pre_new = new_explosions@;
        self.explosions.append(&mut new_explosions);
        proof {
            assert(views(self.explosions@) =~= es1 + views(pre_new));
        }
        let ghost combined = views(self.explosions@);
        prune_explosions(&mut self.explosions);
        let ghost pruned_src = pre_ex + pre_new;

        let ghost ms_before_prune = self.missiles@;
        prune_missiles(&mut self.missiles);
        proof {
            lemma_missiles_kept_props(ms_before_prune, ms_before_prune.len() as int);
        }

        update_firing(&mut self.bunkers, &self.missiles);

        proof {
            assert forall|k: int| 0 <= k < self.missiles@.len() implies
                (#[trigger] self.missiles@[k]).wf()
                    && !self.missiles@[k].exploded by {
                let j2 = choose|j2: int| 0 <= j2 < ms_before_prune.len()
                    && #[trigger] self.missiles@[k] == ms_before_prune[j2]
                    && !ms_before_prune[j2].exploded;
            }
            assert forall|k: int| 0 <= k < self.explosions@.len() implies
                (#[trigger] self.explosions@[k])@.wf() by {
                let j2 = choose|j2: int| 0 <= j2 < pruned_src.len()
                    && #[trigger] self.explosions@[k] == pruned_src[j2];
                if j2 < pre_ex.len() {
                    assert(pruned_src[j2] == pre_ex[j2]);
                } else {
                    assert(pruned_src[j2] == pre_new[j2 - pre_ex.len()]);
                }
            }
            assert forall|k: int| 0 <= k < self.stars@.len() implies
                (#[trigger] self.stars@[k]).wf() by {
                if k < kept.len() {
                    assert(self.stars@.subrange(0, kept.len() as int)[k] == kept[k]);
                }
            }
        }
    }

    /// Offer two distinct random skills when a choice is pending and
    /// no offer stands yet.
    pub fn show_skill_selection_menu(&mut self)
        requires
            old(self).wf(),
        ensures
            final(self).wf(),
            old(self).skill_options@.len() == 0 && old(self).level_ups_left > 0 ==> {
                &&& final(self).skill_options@.len() == 2
                &&& final(self).skill_options@[0] != final(self).skill_options@[1]
                &&& final(self).selected_skill_index == 0
            },
            !(old(self).skill_options@.len() == 0 && old(self).level_ups_left > 0)
                ==> *final(self) == *old(self),
            *final(self) == (Game {
                skill_options: final(self).skill_options,
                selected_skill_index: final(self).selected_skill_index,
                ..*old(self)
            }),
    {
        if self.skill_options.len() == 0 && self.level_ups_left > 0 {
            self.skill_options = Skill::random_subset(2);
            self.selected_skill_index = 0;
        }
    }

    /// Which offered skill's box contains the world point, if any.
    pub fn skill_option_at(&self, world: Vec2Fx) -> (r: Option<usize>)
        requires
            self.wf_entities(),
        ensures
            r == if self.skill_options@.len() >= 1 && spec_option_box_contains(0, world) {
                Some(0usize)
            } else if self.skill_options@.len() >= 2 && spec_option_box_contains(1, world) {
                Some(1usize)
            } else {
                None::<usize>
            },
    {
        if self.skill_options.len() >= 1 && world.x >= -300_000 && world.x <= 0
            && world.y >= -80_000 && world.y <= 120_000 {
            Some(0)
        } else if self.skill_options.len() >= 2 && world.x >= 0 && world.x <= 300_000
            && world.y >= -80_000 && world.y <= 120_000 {
            Some(1)
        } else {
            None
        }
    }

    /// Take the chosen skill: its level and the player's level rise by
    /// one, the pending-choice count falls by one, and a fresh pair is
    /// offered while choices remain.
    pub fn select_skill(&mut self, idx: usize)
        requires
            old(self).wf(),
            idx < old(self).skill_options@.len(),
            old(self).level_ups_left >= 1,
        ensures
            final(self).wf(),
            final(self).player.spec_skill_level(old(self).skill_options@[idx as int])
                == if old(self).player.spec_skill_level(
                    old(self).skill_options@[idx as int]) < u32::MAX {
                    old(self).player.spec_skill_level(
                        old(self).skill_options@[idx as int]) + 1
                } else {
                    old(self).player.spec_skill_level(
                        old(self).skill_options@[idx as int]) as int
                },
            forall|s: Skill| s != old(self).skill_options@[idx as int]
                ==> final(self).player.spec_skill_level(s)
                    == old(self).player.spec_skill_level(s),
            final(self).player.spec_level() == if old(self).player.spec_level()
                < u32::MAX {
                old(self).player.spec_level() + 1
            } else {
                old(self).player.spec_level() as int
            },
            final(self).player.spec_experience() == old(self).player.spec_experience(),
            final(self).level_ups_left == old(self).level_ups_left - 1,
            final(self).level_ups_left > 0 ==> final(self).skill_options@.len() == 2
                && final(self).skill_options@[0] != final(self).skill_options@[1],
            final(self).level_ups_left == 0 ==> final(self).skill_options@.len() == 0,
            final(self).selected_skill_index == 0,
            *final(self) == (Game {
                player: final(self).player,
                level_ups_left: final(self).level_ups_left,
                skill_options: final(self).skill_options,
                selected_skill_index: final(self).selected_skill_index,
                ..*old(self)
            }),
    {
        let skill: Skill = self.skill_options[idx];
        self.player.level_up_skill(skill);
        self.player.level_up();
        self.level_ups_left = self.level_ups_left - 1;
        self.skill_options = Vec::new();
        self.selected_skill_index = 0;
        if self.level_ups_left > 0 {
            self.skill_options = Skill::random_subset(2);
        }
    }

    /// One simulation tick of `dt` milliseconds.
    ///
    /// A finished game is frozen until reset.  While skill choices are
    /// pending, the tick only keeps the skill offer filled and the
    /// simulation stands still.  Otherwise the clock advances
    /// (saturating at its bound), the spawn timer runs and fires enemy
    /// missiles, missiles move and impact, blasts grow and resolve
    /// their chain reactions, and the game ends exactly when the last
    /// bunker dies.
    pub fn update(&mut self, dt: i64)
        requires
            old(self).wf(),
            0 <= dt <= DT_MAX,
        ensures
            final(self).wf(),
            old(self).game_over ==> *final(self) == *old(self),
            !old(self).game_over && old(self).level_ups_left > 0 ==> {
                &&& *final(self) == (Game {
                    skill_options: final(self).skill_options,
                    selected_skill_index: final(self).selected_skill_index,
                    ..*old(self)
                })
                &&& (old(self).skill_options@.len() > 0 ==> *final(self) == *old(self))
                &&& (old(self).skill_options@.len() == 0
                    ==> final(self).skill_options@.len() == 2
                        && final(self).skill_options@[0] != final(self).skill_options@[1]
                        && final(self).selected_skill_index == 0)
            },
            !old(self).game_over && old(self).level_ups_left == 0 ==> {
                &&& final(self).game_time == imin(
                    old(self).game_time + dt, TIME_LIMIT as int)
                &&& forall|k: int| 0 <= k < final(self).missiles@.len()
                    ==> !(#[trigger] final(self).missiles@[k]).exploded
                &&& final(self).game_over == all_bunkers_inactive(final(self).bunkers@)
                &&& final(self).player == (Player {
                    experience: final(self).player.experience,
                    ..old(self).player
                })
                &&& final(self).bunkers@.len() == old(self).bunkers@.len()
                &&& forall|i: int| 0 <= i < old(self).bunkers@.len()
                    ==> (#[trigger] final(self).bunkers@[i]).pos
                        == old(self).bunkers@[i].pos
                &&& final(self).skill_options == old(self).skill_options
                &&& final(self).selected_skill_index == old(self).selected_skill_index
                &&& (old(self).time_until_next_missile_spawn - dt > 0
                    ==> final(self).time_until_next_missile_spawn
                        == old(self).time_until_next_missile_spawn - dt)
                &&& (old(self).time_until_next_missile_spawn - dt <= 0
                    ==> spec_spawn_interval(final(self).game_time as int) / 2 - 1
                        <= final(self).time_until_next_missile_spawn
                        <= 3 * spec_spawn_interval(final(self).game_time as int) / 2)
                &&& exists|ms1: Seq<Missile>|
                    #![auto]
                    spawn_outcome(*old(self), dt as int, final(self).game_time as int, ms1)
                        && tick_outcome(*old(self), dt as int, ms1, *final(self))
            },
    {
        if self.game_over {
            return;
        }
        self.show_skill_selection_menu();
        if self.is_skill_selection_active() {
            return;
        }
        let new_time: i64 = if self.game_time > TIME_LIMIT - dt {
            TIME_LIMIT
        } else {
            self.game_time + dt
        };
        self.game_time = new_time;
        let ticked_down: i64 = self.time_until_next_missile_spawn - dt;
        self.time_until_next_missile_spawn = if ticked_down < -DT_MAX {
            -DT_MAX
        } else {
            ticked_down
        };
        if ticked_down <= 0 {
            self.spawn_enemy_missile();
            let interval: i64 = get_enemy_missile_spawn_interval(self.game_time);
            let factor: i64 = random_in_range(500, 1500);
            assert(600_000 <= interval * factor <= 6_000_000) by (nonlinear_arith)
                requires 1_333 <= interval <= 4_000, 500 <= factor < 1_500;
            let next: i64 = (interval * factor) / 1_000;
            proof {
                assert(interval * 500 <= interval * factor <= interval * 1_500)
                    by (nonlinear_arith)
                    requires 0 <= interval, 500 <= factor <= 1_500;
                vstd::arithmetic::div_mod::lemma_div_is_ordered(
                    interval * 500, interval * factor, 1_000);
                vstd::arithmetic::div_mod::lemma_div_is_ordered(
                    interval * factor, interval * 1_500, 1_000);
                vstd::arithmetic::div_mod::lemma_div_multiples_vanish_quotient(
                    500, interval as int, 2);
                assert(interval * 500 == 500 * interval && 500 * 2 == 1_000)
                    by (nonlinear_arith);
                vstd::arithmetic::div_mod::lemma_div_multiples_vanish_quotient(
                    500, 3 * interval, 2);
                assert(interval * 1_500 == 500 * (3 * interval)) by (nonlinear_arith);
                assert(next <= 3 * (interval as int) / 2);
                assert(next >= interval as int / 2);
            }
            self.time_until_next_missile_spawn = next;
        }
        let ghost gs = *self;
        self.update_missiles(dt);
        let ghost g1 = *self;
        self.update_explosions(dt);
        self.check_game_over();
        proof {
            let g0 = *old(self);
            let d = dt as int;
            let ms1 = gs.missiles@;
            let bs0 = g0.bunkers@;
            let es1 = stepped_views(views(g1.explosions@), d);
            lemma_awarded_props(
                g1.player,
                hostile_destroyed_upto(g1.missiles@, es1, g1.missiles@.len() as int),
                hostile_destroyed_upto(
                    g1.missiles@, es1, g1.missiles@.len() as int).len() as int);
            assert(spawn_outcome(g0, d, self.game_time as int, ms1));
            assert(g1.missiles@ =~= missiles_stepped_all(ms1, bs0, d)) by {
                assert(forall|k: int| 0 <= k < ms1.len()
                    ==> #[trigger] g1.missiles@[k] == missile_stepped(ms1[k], bs0, d));
            }
            assert forall|i: int| 0 <= i < bs0.len() implies self.bunkers@[i]
                == (Bunker {
                    active: bs0[i].active && !bunker_killed_upto(
                        i, ms1, bs0, d, ms1.len() as int),
                    firing: bs0[i].firing && still_firing(bs0[i], self.missiles@),
                    ..bs0[i]
                }) by {
                lemma_still_firing_same_pos(g1.bunkers@[i], bs0[i], self.missiles@);
            }
            assert(tick_outcome(g0, d, ms1, *self));
        }
    }

    /// The game clock split for display: whole minutes and leftover
    /// seconds.
    pub fn time_minutes_seconds(&self) -> (r: (i64, i64))
        requires
            0 <= self.game_time,
        ensures
            r.0 == self.game_time / 60_000,
            r.1 == (self.game_time / 1_000) % 60,
    {
        let total_seconds: i64 = self.game_time / 1_000;
        proof {
            vstd::arithmetic::div_mod::lemma_div_pos_is_pos(self.game_time as int, 1_000);
            vstd::arithmetic::div_mod::lemma_div_denominator(
                self.game_time as int, 1_000, 60);
        }
        (total_seconds / 60, total_seconds % 60)
    }
}

} // verus!

