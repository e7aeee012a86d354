use crate::game_state::Score;
use crate::player::{Health, Invincibility};
use crate::timer::{law_timer_finishes_when_time_adds_up, once_ticks, total, OnceTimer};
use std::collections::HashSet;
use vstd::set_lib::{lemma_int_range, lemma_len_subset, set_int_range};
use vstd::prelude::*;

verus! {

// ---------------------------------------------------------------------------
// Bullet lifetime
// ---------------------------------------------------------------------------

/// How long a bullet has left before it disappears.
pub struct BulletLifetime {
    timer: OnceTimer,
}

impl BulletLifetime {
    pub closed spec fn clock(&self) -> OnceTimer {
        self.timer
    }

    pub fn new(lifetime_ns: u64) -> (l: BulletLifetime)
        ensures
            l.clock().duration() == lifetime_ns,
            l.clock().elapsed() == 0,
            !l.clock().finished(),
            !l.clock().finished_last_tick(),
    {
        BulletLifetime { timer: OnceTimer::new(lifetime_ns) }
    }

    /// Ages the bullet by `delta_ns`; returns whether its lifetime is over, in which
    /// case the bullet is removed.
    pub fn tick_expired(&mut self, delta_ns: u64) -> (expired: bool)
        ensures
            final(self).clock().is_tick_of(old(self).clock(), delta_ns as nat),
            expired == final(self).clock().finished(),
    {
        self.timer.tick(delta_ns);
        self.timer.is_finished()
    }
}

// ---------------------------------------------------------------------------
// Enemies touching the player
// ---------------------------------------------------------------------------

/// What touching one enemy did to the player.
#[derive(Clone, Copy, Debug, PartialEq, Eq, Structural)]
pub enum ContactAction {
    /// No damage: the enemy is out of hit range, or the player cannot be damaged now.
    NoHit,
    /// One point of damage, and the player survives.
    Hit,
    /// One point of damage that leaves the player without health: the player dies.
    LethalHit,
}

/// Health after one point of damage; it does not go below zero.
pub open spec fn health_after_hit(health: int) -> int {
    if health - 1 <= 0 {
        0
    } else {
        health - 1
    }
}

/// A hit costs exactly one point of health, and health never goes below zero: a player
/// with more than one point keeps all but one, and one with one point or less is left
/// with none.
pub proof fn law_hit_costs_one_point(health: int)
    ensures
        health_after_hit(health) >= 0,
        health >= 1 ==> health_after_hit(health) == health - 1,
        health <= 1 ==> health_after_hit(health) == 0,
        health > 1 ==> health_after_hit(health) > 0,
        health_after_hit(health) <= (if health > 0 { health } else { 0 }),
{
}

/// One contact of a round: given whether the player can still take damage in this round,
/// its health and whether this enemy is within hit range, the new "can take damage"
/// flag, whether the round ends here, the new health and what happened.
pub open spec fn contact_step(can_take_damage: bool, health: int, within_hit_range: bool) -> (bool, bool, int, ContactAction) {
    if can_take_damage && within_hit_range {
        let lethal = health - 1 <= 0;
        (false, lethal, health_after_hit(health), if lethal { ContactAction::LethalHit } else { ContactAction::Hit })
    } else {
        (can_take_damage, false, health, ContactAction::NoHit)
    }
}

/// A whole round of contacts, one per enemy in order, until the round ends: the number
/// of hits dealt, the final health and the number of enemies that were handled.
pub open spec fn contact_round(can_take_damage: bool, health: int, within_hit_range: Seq<bool>) -> (nat, int, nat)
    decreases within_hit_range.len(),
{
    if within_hit_range.len() == 0 {
        (0, health, 0)
    } else {
        let (can, over, h, action) = contact_step(can_take_damage, health, within_hit_range[0]);
        let dealt: nat = if action == ContactAction::NoHit { 0 } else { 1 };
        if over {
            (dealt, h, 1)
        } else {
            let rest = contact_round(can, h, within_hit_range.drop_first());
            (rest.0 + dealt, rest.1, rest.2 + 1)
        }
    }
}

/// The contacts between the player and the enemies during one fixed step. The player can
/// be damaged at most once per step, and only when its invincibility window is closed;
/// the enemies are handled in order and a lethal hit ends the round.
pub struct ContactRound {
    can_take_damage: bool,
    over: bool,
}

impl ContactRound {
    pub closed spec fn can(&self) -> bool {
        self.can_take_damage
    }

    pub closed spec fn ended(&self) -> bool {
        self.over
    }

    /// A round in which the player can be damaged exactly when its invincibility window
    /// is closed.
    pub fn begin(invincibility: &Invincibility) -> (r: ContactRound)
        ensures
            r.can() == !invincibility.active(),
            !r.ended(),
    {
        ContactRound { can_take_damage: !invincibility.is_active(), over: false }
    }

    pub fn can_take_damage(&self) -> (r: bool)
        ensures
            r == self.can(),
    {
        self.can_take_damage
    }

    /// The player died: the remaining enemies are not handled this step.
    pub fn is_over(&self) -> (r: bool)
        ensures
            r == self.ended(),
    {
        self.over
    }

    /// Handles one enemy. When the player can take damage and the enemy is within hit
    /// range, the player loses one point of health; a surviving player opens a new
    /// invincibility window, and a player left without health dies, which ends the round.
    /// Either way no further damage is taken in this round.
    pub fn step(&mut self, health: &mut Health, invincibility: &mut Invincibility, within_hit_range: bool) -> (action: ContactAction)
        requires
            !old(self).ended(),
            old(self).can() && within_hit_range ==> old(health).0 > i32::MIN,
        ensures
            (final(self).can(), final(self).ended(), final(health).0 as int, action)
                == contact_step(old(self).can(), old(health).0 as int, within_hit_range),
            action == ContactAction::Hit ==> final(invincibility).clock().is_reset_of(old(invincibility).clock()),
            action == ContactAction::Hit ==> old(health).0 > 1 && final(health).0 == old(health).0 - 1,
            action == ContactAction::LethalHit ==> old(health).0 <= 1 && final(health).0 == 0,
            action == ContactAction::NoHit ==> final(health).0 == old(health).0,
            action != ContactAction::NoHit <==> (old(self).can() && within_hit_range),
            action != ContactAction::Hit ==> *final(invincibility) == *old(invincibility),
    {
        if self.can_take_damage && within_hit_range {
            health.0 = health.0 - 1;
            self.can_take_damage = false;
            if health.0 <= 0 {
                health.0 = 0;
                self.over = true;
                ContactAction::LethalHit
            } else {
                invincibility.start();
                ContactAction::Hit
            }
        } else {
            ContactAction::NoHit
        }
    }
}

/// At most one hit per round, and there is one exactly when the player could take damage
/// and some enemy was within hit range.
pub proof fn law_one_hit_per_round(can_take_damage: bool, health: int, within_hit_range: Seq<bool>)
    ensures
        contact_round(can_take_damage, health, within_hit_range).0 <= 1,
        contact_round(can_take_damage, health, within_hit_range).0 == 1
            <==> (can_take_damage && within_hit_range.contains(true)),
    decreases within_hit_range.len(),
{
    if within_hit_range.len() > 0 {
        let (can, over, h, action) = contact_step(can_take_damage, health, within_hit_range[0]);
        let rest = within_hit_range.drop_first();
        law_one_hit_per_round(can, h, rest);
        law_invincible_round_changes_nothing(h, rest);
        if within_hit_range.contains(true) && !within_hit_range[0] {
            let i = choose|i: int| 0 <= i < within_hit_range.len() && within_hit_range[i] == true;
            assert(rest[i - 1] == true);
        }
        if rest.contains(true) {
            let i = choose|i: int| 0 <= i < rest.len() && rest[i] == true;
            assert(within_hit_range[i + 1] == true);
        }
    }
}

/// While the invincibility window is open a round changes nothing and handles every enemy.
pub proof fn law_invincible_round_changes_nothing(health: int, within_hit_range: Seq<bool>)
    ensures
        contact_round(false, health, within_hit_range) == (0nat, health, within_hit_range.len()),
    decreases within_hit_range.len(),
{
    if within_hit_range.len() > 0 {
        law_invincible_round_changes_nothing(health, within_hit_range.drop_first());
    }
}

/// Damage never takes health below zero, and a round costs at most one point of health.
pub proof fn law_round_health(can_take_damage: bool, health: int, within_hit_range: Seq<bool>)
    requires
        health >= 0,
    ensures
        contact_round(can_take_damage, health, within_hit_range).1 >= 0,
        contact_round(can_take_damage, health, within_hit_range).1 == if contact_round(
            can_take_damage,
            health,
            within_hit_range,
        ).0 == 1 {
            health_after_hit(health)
        } else {
            health
        },
    decreases within_hit_range.len(),
{
    if within_hit_range.len() > 0 {
        let (can, over, h, action) = contact_step(can_take_damage, health, within_hit_range[0]);
        let rest = within_hit_range.drop_first();
        law_round_health(can, h, rest);
        law_invincible_round_changes_nothing(h, rest);
    }
}

/// After a hit that the player survives its invincibility window starts over; as long as
/// the time fed to the window since then adds up to less than its length, the window is
/// still open, and a round of contacts begun then deals no damage and changes nothing.
pub proof fn law_invincibility_window(window: nat, deltas: Seq<nat>, health: int, within_hit_range: Seq<bool>)
    requires
        total(deltas) < window,
    ensures
        !once_ticks(window, 0, false, deltas).1,
        contact_round(once_ticks(window, 0, false, deltas).1, health, within_hit_range)
            == (0nat, health, within_hit_range.len()),
{
    law_timer_finishes_when_time_adds_up(window, 0, deltas);
    law_invincible_round_changes_nothing(health, within_hit_range);
}

// ---------------------------------------------------------------------------
// Bullets against enemies
// ---------------------------------------------------------------------------

/// The enemy that bullet `row` hits, given the hits of the earlier bullets `earlier`:
/// the first enemy at index `e` or later that is within range of the bullet and that no
/// earlier bullet has hit.
pub open spec fn first_free_target(row: Seq<bool>, earlier: Seq<Option<usize>>, e: nat, n_enemies: nat) -> Option<usize>
    decreases n_enemies - e,
{
    if e >= n_enemies {
        None
    } else if row[e as int] && !earlier.contains(Some(e as usize)) {
        Some(e as usize)
    } else {
        first_free_target(row, earlier, e + 1, n_enemies)
    }
}

/// The hits of the first `n_bullets` bullets, bullet by bullet: each bullet in turn
/// takes the first enemy within its range that no earlier bullet has taken, if any.
pub open spec fn greedy_hits(in_range: Seq<Seq<bool>>, n_enemies: nat, n_bullets: nat) -> Seq<Option<usize>>
    decreases n_bullets,
{
    if n_bullets == 0 {
        Seq::empty()
    } else {
        let earlier = greedy_hits(in_range, n_enemies, (n_bullets - 1) as nat);
        earlier.push(first_free_target(in_range[n_bullets - 1], earlier, 0, n_enemies))
    }
}

/// How many entries of `hits` name an enemy.
pub open spec fn hit_count(hits: Seq<Option<usize>>) -> nat
    decreases hits.len(),
{
    if hits.len() == 0 {
        0
    } else {
        hit_count(hits.drop_last()) + if hits.last() is Some { 1nat } else { 0nat }
    }
}

/// A hit table: one row per bullet, one column per enemy, `true` where the bullet is
/// close enough to the enemy to hit it.
pub open spec fn table_shape(in_range: Seq<Vec<bool>>, n_enemies: nat) -> bool {
    forall|b: int| 0 <= b < in_range.len() ==> (#[trigger] in_range[b])@.len() == n_enemies
}

pub open spec fn table_view(in_range: Seq<Vec<bool>>) -> Seq<Seq<bool>> {
    in_range.map_values(|row: Vec<bool>| row@)
}

proof fn lemma_push_contains(s: Seq<Option<usize>>, x: Option<usize>, y: Option<usize>)
    ensures
        s.push(x).contains(y) <==> (s.contains(y) || x == y),
{
    if s.push(x).contains(y) {
        let i = choose|i: int| 0 <= i < s.push(x).len() && s.push(x)[i] == y;
        if i < s.len() {
            assert(s[i] == y);
        }
    }
    if s.contains(y) {
        let i = choose|i: int| 0 <= i < s.len() && s[i] == y;
        assert(s.push(x)[i] == y);
    }
    if x == y {
        assert(s.push(x)[s.len() as int] == y);
    }
}

proof fn lemma_hit_count_push(s: Seq<Option<usize>>, x: Option<usize>)
    ensures
        hit_count(s.push(x)) == hit_count(s) + if x is Some { 1nat } else { 0nat },
{
    assert(s.push(x).drop_last() =~= s);
}

proof fn lemma_hit_count_prefix(s: Seq<Option<usize>>, i: int)
    requires
        0 <= i <= s.len(),
    ensures
        hit_count(s.take(i)) <= hit_count(s),
    decreases s.len() - i,
{
    if i == s.len() {
        assert(s.take(i) =~= s);
    } else {
        lemma_hit_count_prefix(s, i + 1);
        assert(s.take(i).push(s[i]) =~= s.take(i + 1));
        lemma_hit_count_push(s.take(i), s[i]);
    }
}

proof fn lemma_hit_count_bound(s: Seq<Option<usize>>)
    ensures
        hit_count(s) <= s.len(),
    decreases s.len(),
{
    if s.len() > 0 {
        lemma_hit_count_bound(s.drop_last());
    }
}

/// Which enemy each bullet hits this step, for a table of which bullets are within hit
/// range of which enemies. Bullets are taken in order; a bullet hits the first enemy in
/// its range that an earlier bullet has not already hit, and at most one; an enemy is
/// hit at most once.
pub fn resolve_bullet_hits(in_range: &Vec<Vec<bool>>, n_enemies: usize) -> (hits: Vec<Option<usize>>)
    requires
        table_shape(in_range@, n_enemies as nat),
    ensures
        hits@ == greedy_hits(table_view(in_range@), n_enemies as nat, in_range@.len()),
        hits@.len() == in_range@.len(),
{
    broadcast use vstd::std_specs::hash::group_hash_axioms;

    let ghost table = table_view(in_range@);
    let mut hits: Vec<Option<usize>> = Vec::new();
    // The enemies hit so far.
    let mut taken: HashSet<usize> = HashSet::new();
    let n_bullets = in_range.len();
    let mut b: usize = 0;
    while b < n_bullets
        invariant
            n_bullets == in_range@.len(),
            table == table_view(in_range@),
            table_shape(in_range@, n_enemies as nat),
            b <= n_bullets,
            hits@ == greedy_hits(table, n_enemies as nat, b as nat),
            forall|k: usize| taken@.contains(k) <==> hits@.contains(Some(k)),
        decreases n_bullets - b,
    {
        let row = &in_range[b];
        assert(table[b as int] == row@);
        let ghost earlier = hits@;
        let mut pick: Option<usize> = None;
        let mut e: usize = 0;
        while e < n_enemies && pick.is_none()
            invariant
                n_bullets == in_range@.len(),
                b < n_bullets,
                row@ == table[b as int],
                row@.len() == n_enemies,
                earlier == hits@,
                forall|k: usize| taken@.contains(k) <==> earlier.contains(Some(k)),
                e <= n_enemies,
                pick is None ==> first_free_target(row@, earlier, 0, n_enemies as nat)
                    == first_free_target(row@, earlier, e as nat, n_enemies as nat),
                pick is Some ==> first_free_target(row@, earlier, 0, n_enemies as nat) == pick,
                pick is Some ==> pick.unwrap() < n_enemies,
            decreases n_enemies - e + if pick is None { 1int } else { 0int },
        {
            if row[e] && !taken.contains(&e) {
                pick = Some(e);
            } else {
                e = e + 1;
            }
        }
        proof {
            if pick is None {
                assert(first_free_target(row@, earlier, e as nat, n_enemies as nat) == None::<usize>);
            }
            assert(greedy_hits(table, n_enemies as nat, (b + 1) as nat)
                == earlier.push(first_free_target(table[b as int], earlier, 0, n_enemies as nat)));
        }
        hits.push(pick);
        match pick {
            Some(k) => {
                taken.insert(k);
            },
            None => {},
        }
        proof {
            assert forall|k: usize| taken@.contains(k) <==> hits@.contains(Some(k)) by {
                lemma_push_contains(earlier, pick, Some(k));
            }
        }
        b = b + 1;
    }
    proof {
        lemma_greedy_prefix(table, n_enemies as nat, n_bullets as nat, 0);
    }
    hits
}

/// The bullet-against-enemy step: resolves which bullet hits which enemy and counts one
/// point of score per enemy hit. Returns, for each bullet, the enemy it hit.
pub fn bullet_enemy_collision(in_range: &Vec<Vec<bool>>, n_enemies: usize, score: &mut Score) -> (hits: Vec<Option<usize>>)
    requires
        table_shape(in_range@, n_enemies as nat),
        old(score).0 + hit_count(greedy_hits(table_view(in_range@), n_enemies as nat, in_range@.len())) <= u32::MAX,
    ensures
        hits@ == greedy_hits(table_view(in_range@), n_enemies as nat, in_range@.len()),
        hits@.len() == in_range@.len(),
        final(score).0 == old(score).0 + hit_count(hits@),
{
    let hits = resolve_bullet_hits(in_range, n_enemies);
    let mut kills: u32 = 0;
    let mut i: usize = 0;
    while i < hits.len()
        invariant
            i <= hits@.len(),
            kills == hit_count(hits@.take(i as int)),
            old(score).0 + hit_count(hits@) <= u32::MAX,
        decreases hits@.len() - i,
    {
        proof {
            assert(hits@.take(i as int).push(hits@[i as int]) =~= hits@.take(i + 1));
            lemma_hit_count_push(hits@.take(i as int), hits@[i as int]);
            lemma_hit_count_prefix(hits@, i + 1);
        }
        if hits[i].is_some() {
            kills = kills + 1;
        }
        i = i + 1;
    }
    assert(hits@.take(hits@.len() as int) =~= hits@);
    score.add_kills(kills);
    hits
}

proof fn lemma_first_free_target(row: Seq<bool>, earlier: Seq<Option<usize>>, e: nat, n_enemies: nat)
    requires
        n_enemies <= usize::MAX,
    ensures
        first_free_target(row, earlier, e, n_enemies) matches Some(k) ==> {
            &&& e <= k < n_enemies
            &&& row[k as int]
            &&& !earlier.contains(Some(k))
            &&& forall|j: int| e <= j < k ==> !(row[j] && !earlier.contains(Some(j as usize)))
        },
        first_free_target(row, earlier, e, n_enemies) is None ==>
            forall|j: int| e <= j < n_enemies ==> !(row[j] && !earlier.contains(Some(j as usize))),
    decreases n_enemies - e,
{
    if e < n_enemies {
        lemma_first_free_target(row, earlier, e + 1, n_enemies);
    }
}

proof fn lemma_greedy_prefix(in_range: Seq<Seq<bool>>, n_enemies: nat, n: nat, k: nat)
    requires
        k <= n,
    ensures
        greedy_hits(in_range, n_enemies, n).len() == n,
        greedy_hits(in_range, n_enemies, n).take(k as int) == greedy_hits(in_range, n_enemies, k),
    decreases n,
{
    if n > 0 {
        lemma_greedy_prefix(in_range, n_enemies, (n - 1) as nat, if k == n { (n - 1) as nat } else { k });
        if k < n {
            assert(greedy_hits(in_range, n_enemies, n).take(k as int)
                =~= greedy_hits(in_range, n_enemies, (n - 1) as nat).take(k as int));
        } else {
            assert(greedy_hits(in_range, n_enemies, n).take(k as int) =~= greedy_hits(in_range, n_enemies, n));
        }
    } else {
        assert(greedy_hits(in_range, n_enemies, n).take(k as int) =~= Seq::<Option<usize>>::empty());
    }
}

/// What bullet `b` hits is decided by the hits of the bullets before it.
proof fn lemma_greedy_entry(in_range: Seq<Seq<bool>>, n_enemies: nat, n: nat, b: int)
    requires
        0 <= b < n,
    ensures
        greedy_hits(in_range, n_enemies, n).len() == n,
        greedy_hits(in_range, n_enemies, n)[b] == first_free_target(
            in_range[b],
            greedy_hits(in_range, n_enemies, b as nat),
            0,
            n_enemies,
        ),
        greedy_hits(in_range, n_enemies, b as nat) == greedy_hits(in_range, n_enemies, n).take(b),
{
    lemma_greedy_prefix(in_range, n_enemies, n, (b + 1) as nat);
    lemma_greedy_prefix(in_range, n_enemies, n, b as nat);
    let g = greedy_hits(in_range, n_enemies, n);
    assert(g[b] == g.take(b + 1)[b]);
}

/// No enemy is hit by two bullets in the same step.
pub proof fn law_enemy_hit_at_most_once(in_range: Seq<Seq<bool>>, n_enemies: nat, i: int, j: int)
    requires
        n_enemies <= usize::MAX,
        0 <= i < j < in_range.len(),
        greedy_hits(in_range, n_enemies, in_range.len())[i] is Some,
    ensures
        greedy_hits(in_range, n_enemies, in_range.len())[i] != greedy_hits(in_range, n_enemies, in_range.len())[j],
{
    let n = in_range.len();
    let g = greedy_hits(in_range, n_enemies, n);
    lemma_greedy_entry(in_range, n_enemies, n, j);
    let earlier = greedy_hits(in_range, n_enemies, j as nat);
    lemma_first_free_target(in_range[j], earlier, 0, n_enemies);
    assert(earlier.len() == j);
    assert(earlier[i] == g[i]);
    assert(earlier.contains(g[i]));
}

/// A bullet only hits an enemy that exists and that is within its range.
pub proof fn law_hit_is_in_range(in_range: Seq<Seq<bool>>, n_enemies: nat, b: int)
    requires
        n_enemies <= usize::MAX,
        0 <= b < in_range.len(),
    ensures
        greedy_hits(in_range, n_enemies, in_range.len())[b] matches Some(e) ==> e < n_enemies && in_range[b][e as int],
{
    let n = in_range.len();
    lemma_greedy_entry(in_range, n_enemies, n, b);
    lemma_first_free_target(in_range[b], greedy_hits(in_range, n_enemies, b as nat), 0, n_enemies);
}

/// No hit is missed: every enemy within range of a bullet that is passed over, or that
/// comes before the enemy the bullet hits, was hit by an earlier bullet.
pub proof fn law_no_free_target_skipped(in_range: Seq<Seq<bool>>, n_enemies: nat, b: int, e: int)
    requires
        n_enemies <= usize::MAX,
        0 <= b < in_range.len(),
        0 <= e < n_enemies,
        in_range[b][e],
        greedy_hits(in_range, n_enemies, in_range.len())[b] matches Some(k) ==> e < k,
    ensures
        exists|c: int| 0 <= c < b && greedy_hits(in_range, n_enemies, in_range.len())[c] == Some(e as usize),
{
    let n = in_range.len();
    let g = greedy_hits(in_range, n_enemies, n);
    lemma_greedy_entry(in_range, n_enemies, n, b);
    let earlier = greedy_hits(in_range, n_enemies, b as nat);
    lemma_first_free_target(in_range[b], earlier, 0, n_enemies);
    assert(earlier.len() == b);
    assert(earlier.contains(Some(e as usize)));
    let c = choose|c: int| 0 <= c < earlier.len() && earlier[c] == Some(e as usize);
    assert(earlier[c] == g[c]);
    assert(g[c] == Some(e as usize));
}

/// The enemies among the first `n_enemies` that `hits` names.
pub open spec fn hit_enemies(hits: Seq<Option<usize>>, n_enemies: nat) -> Set<int> {
    Set::new(|e: int| 0 <= e < n_enemies && hits.contains(Some(e as usize)))
}

proof fn lemma_greedy_hit_enemies(in_range: Seq<Seq<bool>>, n_enemies: nat, n: nat)
    requires
        n_enemies <= usize::MAX,
    ensures
        hit_enemies(greedy_hits(in_range, n_enemies, n), n_enemies).finite(),
        hit_count(greedy_hits(in_range, n_enemies, n)) == hit_enemies(greedy_hits(in_range, n_enemies, n), n_enemies).len(),
        hit_enemies(greedy_hits(in_range, n_enemies, n), n_enemies).subset_of(set_int_range(0, n_enemies as int)),
    decreases n,
{
    let g = greedy_hits(in_range, n_enemies, n);
    if n == 0 {
        assert(hit_enemies(g, n_enemies) =~= Set::<int>::empty());
    } else {
        let earlier = greedy_hits(in_range, n_enemies, (n - 1) as nat);
        let x = first_free_target(in_range[n - 1], earlier, 0, n_enemies);
        lemma_greedy_hit_enemies(in_range, n_enemies, (n - 1) as nat);
        lemma_first_free_target(in_range[n - 1], earlier, 0, n_enemies);
        lemma_hit_count_push(earlier, x);
        assert(g == earlier.push(x));
        let before = hit_enemies(earlier, n_enemies);
        match x {
            None => {
                assert forall|e: int| hit_enemies(g, n_enemies).contains(e) <==> before.contains(e) by {
                    lemma_push_contains(earlier, x, Some(e as usize));
                }
                assert(hit_enemies(g, n_enemies) =~= before);
            },
            Some(k) => {
                assert forall|e: int| hit_enemies(g, n_enemies).contains(e) <==> before.insert(k as int).contains(e) by {
                    lemma_push_contains(earlier, x, Some(e as usize));
                    if 0 <= e < n_enemies && e != k as int {
                        assert(Some(e as usize) != Some(k));
                    }
                }
                assert(hit_enemies(g, n_enemies) =~= before.insert(k as int));
                assert(!before.contains(k as int));
            },
        }
    }
    lemma_int_range(0, n_enemies as int);
    lemma_len_subset(hit_enemies(g, n_enemies), set_int_range(0, n_enemies as int));
}

/// A step kills no more enemies than there are enemies: the enemies hit are distinct.
pub proof fn law_kills_bounded_by_enemies(in_range: Seq<Seq<bool>>, n_enemies: nat)
    requires
        n_enemies <= usize::MAX,
    ensures
        hit_count(greedy_hits(in_range, n_enemies, in_range.len())) <= n_enemies,
{
    let g = greedy_hits(in_range, n_enemies, in_range.len());
    lemma_greedy_hit_enemies(in_range, n_enemies, in_range.len());
    lemma_int_range(0, n_enemies as int);
    lemma_len_subset(hit_enemies(g, n_enemies), set_int_range(0, n_enemies as int));
}

/// A step kills no more enemies than there are bullets.
pub proof fn law_kills_bounded_by_bullets(in_range: Seq<Seq<bool>>, n_enemies: nat)
    ensures
        hit_count(greedy_hits(in_range, n_enemies, in_range.len())) <= in_range.len(),
{
    lemma_greedy_prefix(in_range, n_enemies, in_range.len(), 0);
    lemma_hit_count_bound(greedy_hits(in_range, n_enemies, in_range.len()));
}

} // verus!
