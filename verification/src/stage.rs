//! The stage coordinator: it owns the alien pool and the alien-bullet pool,
//! drives spawning, scales the difficulty ("heat"), and keeps score and
//! lives. The world performs the actions a call returns — programming
//! timers, starting and stopping audio, and broadcasting the notifications
//! the rest of the scene listens to — in the order returned.

use vstd::prelude::*;
use crate::alien::{Alien, AlienProcessPattern, BASE_SPEED_CAP, ALIEN_SPEED_CAP, SPAN_CAP};
use crate::alien_bullet::AlienBullet;
use crate::barrage::{barrage_plan, barrage_spec};
use crate::env::Env;
use crate::magazine::{Magazine, somes_of};
use crate::scalar::{MILLI, tdiv, lemma_mul_bound};
use crate::vec3::{Vec3, SPEED_CAP, COORD_CAP};

verus! {

/// Lives a fresh session starts with.
pub const DEFAULT_PLAYER_LIFE: i64 = 3;

/// The difficulty multiplier at session start: one, in thousandths.
pub const BASE_HEAT: i64 = 1000;

/// Where the heat saturates; far beyond any playable session, but the
/// fixed-point products must stay in range.
pub const HEAT_CAP: i64 = 1_000_000_000_000;

/// Heat grows by this ratio, in tenths: times one and one tenth.
pub const HEAT_GROWTH_NUM: i64 = 11;

/// Denominator of the heat growth ratio.
pub const HEAT_GROWTH_DEN: i64 = 10;

/// A kill count divisible by this escalates the heat.
pub const KILLS_PER_HEAT_STEP: i64 = 10;

/// A kill count divisible by this grants an extra life.
pub const KILLS_PER_EXTEND: i64 = 20;

/// Largest arena-limit magnitude the stage accepts.
pub const ARENA_CAP: i64 = 1_000_000_000;

/// Depth at which top-edge invasion aliens appear, in thousandths.
pub const SPAWN_TOP_Z: i64 = -27_000;

/// Horizontal distance at which side-edge aliens appear, in thousandths.
pub const SPAWN_SIDE_X: i64 = 22_000;

/// Shortest spawn-interval draw, in thousandths of a second.
pub const SPAWN_INTERVAL_MIN: i64 = 500;

/// Longest spawn-interval draw, in thousandths of a second.
pub const SPAWN_INTERVAL_MAX: i64 = 3000;

/// What the world must do after a stage call: program or stop the spawn
/// timer, drive the audio, and broadcast the scene notifications.
#[derive(Clone, Copy, PartialEq, Eq, Structural, Debug)]
pub enum StageAction {
    /// Broadcast the remaining-lives notification.
    SetRemain(i64),
    /// Broadcast the score notification.
    SetScore(i64),
    /// Broadcast the new heat to everything that scales with it.
    SpeedUp(i64),
    /// Start the spawn timer with the given initial wait, in thousandths of
    /// a second.
    StartSpawnTimer(i64),
    /// Program the spawn timer's next wait, in thousandths of a second.
    SetSpawnWait(i64),
    /// Stop the spawn timer.
    StopSpawnTimer,
    /// Start the background music.
    PlayBgm,
    /// Stop the background music.
    StopBgm,
    /// Play the extra-life jingle.
    PlayExtendJingle,
    /// Broadcast the player-restart notification (queued, never inline).
    RestartPlayer,
    /// Broadcast the game-over notification.
    GameOver,
}

/// The random draws one spawn consumes, handed in by the world.
#[derive(Clone, Copy, PartialEq, Eq, Structural, Debug)]
pub struct SpawnDraws {
    /// Raw next-spawn interval, drawn from the spawn-interval range, in
    /// thousandths of a second; the heat divides it.
    pub interval_draw: i64,
    /// The profile coin: top-edge invasion spawn, or side-edge directional
    /// spawn.
    pub invasion: bool,
    /// Horizontal spawn coordinate for the invasion profile, drawn between
    /// the stage's left and right limits.
    pub spawn_x: i64,
    /// Depth spawn coordinate for the directional profile, drawn between
    /// the stage's upper limit and the arena's midline.
    pub spawn_z: i64,
    /// The side coin for the directional profile: enter from the right edge
    /// heading left, or from the left edge heading right.
    pub from_right: bool,
    /// Raw direction-change span, drawn from zero to three seconds, in
    /// thousandths; the heat divides it.
    pub dir_span_draw: i64,
    /// Raw fire span, drawn from the alien's fire-interval range, in
    /// thousandths; the heat divides it.
    pub fire_span_draw: i64,
}

/// An entity released into the world, and where the world must place it.
pub struct Spawned<T> {
    pub entity: T,
    pub pos: Vec3,
}

pub struct Stage {
    /// The alien pool, exclusively owned by the stage.
    pub aliens_magazine: Magazine<Alien>,
    /// The alien-bullet pool, exclusively owned by the stage.
    pub alibullets_magazine: Magazine<AlienBullet>,
    /// The stage boundary, read once at setup.
    pub env: Env,
    /// Lives left; the session ends when it reaches zero.
    pub player_life: i64,
    /// Lives a restart grants.
    pub default_player_life: i64,
    /// Aliens destroyed this session: the score.
    pub beated_alien_num: i64,
    /// The difficulty multiplier, in thousandths; non-decreasing within a
    /// session and reset to one on restart.
    pub stage_heat: i64,
}

impl Stage {
    /// Every scalar stays in range and every pooled alien is itself well
    /// formed, so a spawn can configure whatever it borrows.
    pub open spec fn wf(self) -> bool {
        &&& BASE_HEAT <= self.stage_heat <= HEAT_CAP
        &&& 0 <= self.beated_alien_num
        &&& 0 <= self.default_player_life
        &&& self.env.wf()
        &&& -ARENA_CAP <= self.env.left_limit <= ARENA_CAP
        &&& -ARENA_CAP <= self.env.right_limit <= ARENA_CAP
        &&& -ARENA_CAP <= self.env.up_limit <= ARENA_CAP
        &&& -ARENA_CAP <= self.env.down_limit <= ARENA_CAP
        &&& forall|i: int|
            0 <= i < self.aliens_magazine@.len() ==> (#[trigger] self.aliens_magazine@[i]).wf()
    }

    pub fn new() -> (r: Stage)
        ensures
            r.aliens_magazine@ == Seq::<Alien>::empty(),
            r.alibullets_magazine@ == Seq::<AlienBullet>::empty(),
            r.player_life == DEFAULT_PLAYER_LIFE,
            r.default_player_life == DEFAULT_PLAYER_LIFE,
            r.beated_alien_num == 0,
            r.stage_heat == BASE_HEAT,
            r.env.time == 0,
            r.wf(),
    {
        let alien_slots: Vec<Option<Alien>> = Vec::new();
        let bullet_slots: Vec<Option<AlienBullet>> = Vec::new();
        let aliens_magazine = Magazine::new(alien_slots);
        let alibullets_magazine = Magazine::new(bullet_slots);
        proof {
            assert(somes_of(Seq::<Option<Alien>>::empty()) =~= Seq::<Alien>::empty());
            assert(somes_of(Seq::<Option<AlienBullet>>::empty()) =~= Seq::<AlienBullet>::empty());
        }
        Stage {
            aliens_magazine,
            alibullets_magazine,
            env: Env::new(),
            player_life: DEFAULT_PLAYER_LIFE,
            default_player_life: DEFAULT_PLAYER_LIFE,
            beated_alien_num: 0,
            stage_heat: BASE_HEAT,
        }
    }

    /// One-time setup: the current lives become the restart default, both
    /// pools are filled from the factories' output, and the stage limits
    /// are cached.
    pub fn ready(
        &mut self,
        alien_slots: Vec<Option<Alien>>,
        bullet_slots: Vec<Option<AlienBullet>>,
        left: i64,
        right: i64,
        up: i64,
        down: i64,
    )
        requires
            old(self).wf(),
            0 <= old(self).player_life,
            left <= right,
            up <= down,
            -ARENA_CAP <= left && right <= ARENA_CAP,
            -ARENA_CAP <= up && down <= ARENA_CAP,
            forall|i: int|
                0 <= i < alien_slots@.len() ==> ((#[trigger] alien_slots@[i]) matches Some(a)
                    ==> a.wf()),
        ensures
            final(self).aliens_magazine@ == somes_of(alien_slots@),
            final(self).alibullets_magazine@ == somes_of(bullet_slots@),
            final(self).default_player_life == old(self).player_life,
            final(self).player_life == old(self).player_life,
            final(self).beated_alien_num == old(self).beated_alien_num,
            final(self).stage_heat == old(self).stage_heat,
            final(self).env.left_limit == left && final(self).env.right_limit == right,
            final(self).env.up_limit == up && final(self).env.down_limit == down,
            final(self).wf(),
    {
        proof {
            crate::magazine::lemma_somes_of_elements(alien_slots@);
        }
        self.default_player_life = self.player_life;
        self.aliens_magazine = Magazine::new(alien_slots);
        self.alibullets_magazine = Magazine::new(bullet_slots);
        self.env.init(left, right, up, down);
    }

    /// Starts (or restarts) a session: lives, score and heat return to
    /// their defaults, and the world starts the spawn timer with the drawn
    /// initial delay, starts the music, and queues the player restart.
    pub fn start_game(&mut self, initial_delay: i64) -> (actions: Vec<StageAction>)
        requires
            old(self).wf(),
            SPAWN_INTERVAL_MIN <= initial_delay <= 1000,
        ensures
            final(self).player_life == old(self).default_player_life,
            final(self).beated_alien_num == 0,
            final(self).stage_heat == BASE_HEAT,
            final(self).default_player_life == old(self).default_player_life,
            final(self).aliens_magazine == old(self).aliens_magazine,
            final(self).alibullets_magazine == old(self).alibullets_magazine,
            final(self).env == old(self).env,
            actions@ == seq![
                StageAction::SetRemain(old(self).default_player_life),
                StageAction::SetScore(0),
                StageAction::SpeedUp(BASE_HEAT),
                StageAction::StartSpawnTimer(initial_delay),
                StageAction::PlayBgm,
                StageAction::RestartPlayer,
            ],
            final(self).wf(),
    {
        self.player_life = self.default_player_life;
        self.beated_alien_num = 0;
        self.stage_heat = BASE_HEAT;
        let mut actions: Vec<StageAction> = Vec::new();
        actions.push(StageAction::SetRemain(self.player_life));
        actions.push(StageAction::SetScore(0));
        actions.push(StageAction::SpeedUp(BASE_HEAT));
        actions.push(StageAction::StartSpawnTimer(initial_delay));
        actions.push(StageAction::PlayBgm);
        actions.push(StageAction::RestartPlayer);
        proof {
            assert(actions@ =~= seq![
                StageAction::SetRemain(old(self).default_player_life),
                StageAction::SetScore(0),
                StageAction::SpeedUp(BASE_HEAT),
                StageAction::StartSpawnTimer(initial_delay),
                StageAction::PlayBgm,
                StageAction::RestartPlayer,
            ]);
        }
        actions
    }

    /// Ends the session: the world stops the spawn timer and the music and
    /// broadcasts game over. The stage's own state is untouched.
    pub fn end_game(&mut self) -> (actions: Vec<StageAction>)
        ensures
            *final(self) == *old(self),
            actions@ == seq![
                StageAction::StopSpawnTimer,
                StageAction::StopBgm,
                StageAction::GameOver,
            ],
    {
        let mut actions: Vec<StageAction> = Vec::new();
        actions.push(StageAction::StopSpawnTimer);
        actions.push(StageAction::StopBgm);
        actions.push(StageAction::GameOver);
        proof {
            assert(actions@ =~= seq![
                StageAction::StopSpawnTimer,
                StageAction::StopBgm,
                StageAction::GameOver,
            ]);
        }
        actions
    }

    /// Broadcasts the queued player restart.
    pub fn player_restart(&self) -> (a: StageAction)
        ensures
            a == StageAction::RestartPlayer,
    {
        StageAction::RestartPlayer
    }

    /// Records the player's defeat: one life is lost; while lives remain
    /// the world queues a restart for the next tick, otherwise the session
    /// ends.
    pub fn player_beated(&mut self) -> (actions: Vec<StageAction>)
        requires
            old(self).player_life > i64::MIN,
        ensures
            final(self).player_life == old(self).player_life - 1,
            final(self).aliens_magazine == old(self).aliens_magazine,
            final(self).alibullets_magazine == old(self).alibullets_magazine,
            final(self).beated_alien_num == old(self).beated_alien_num,
            final(self).stage_heat == old(self).stage_heat,
            final(self).default_player_life == old(self).default_player_life,
            final(self).env == old(self).env,
            actions@ == if old(self).player_life - 1 > 0 {
                seq![
                    StageAction::SetRemain((old(self).player_life - 1) as i64),
                    StageAction::RestartPlayer,
                ]
            } else {
                seq![
                    StageAction::SetRemain((old(self).player_life - 1) as i64),
                    StageAction::StopSpawnTimer,
                    StageAction::StopBgm,
                    StageAction::GameOver,
                ]
            },
            old(self).wf() ==> final(self).wf(),
    {
        self.player_life = self.player_life - 1;
        let mut actions: Vec<StageAction> = Vec::new();
        actions.push(StageAction::SetRemain(self.player_life));
        if self.player_life > 0 {
            actions.push(StageAction::RestartPlayer);
            proof {
                assert(actions@ =~= seq![
                    StageAction::SetRemain((old(self).player_life - 1) as i64),
                    StageAction::RestartPlayer,
                ]);
            }
        } else {
            actions.push(StageAction::StopSpawnTimer);
            actions.push(StageAction::StopBgm);
            actions.push(StageAction::GameOver);
            proof {
                assert(actions@ =~= seq![
                    StageAction::SetRemain((old(self).player_life - 1) as i64),
                    StageAction::StopSpawnTimer,
                    StageAction::StopBgm,
                    StageAction::GameOver,
                ]);
            }
        }
        actions
    }

    /// The heat after one escalation: grown by the ratio, truncating, and
    /// saturating at the cap.
    pub open spec fn escalated_heat(h: int) -> int {
        let e = tdiv(h * (HEAT_GROWTH_NUM as int), HEAT_GROWTH_DEN as int);
        if e > HEAT_CAP as int {
            HEAT_CAP as int
        } else {
            e
        }
    }

    /// Records a destroyed alien: the score rises by one; every tenth kill
    /// escalates the heat by ten percent (compounding), and every twentieth
    /// also grants an extra life with its jingle.
    pub fn alien_beated(&mut self) -> (actions: Vec<StageAction>)
        requires
            old(self).wf(),
            old(self).beated_alien_num < i64::MAX,
            old(self).player_life < i64::MAX,
        ensures
            final(self).beated_alien_num == old(self).beated_alien_num + 1,
            final(self).stage_heat == if (old(self).beated_alien_num + 1) % (
            KILLS_PER_HEAT_STEP as int) == 0 {
                Self::escalated_heat(old(self).stage_heat as int)
            } else {
                old(self).stage_heat as int
            },
            final(self).player_life == if (old(self).beated_alien_num + 1) % (
            KILLS_PER_EXTEND as int) == 0 {
                old(self).player_life + 1
            } else {
                old(self).player_life as int
            },
            final(self).aliens_magazine == old(self).aliens_magazine,
            final(self).alibullets_magazine == old(self).alibullets_magazine,
            final(self).default_player_life == old(self).default_player_life,
            final(self).env == old(self).env,
            actions@ == {
                let score = old(self).beated_alien_num + 1;
                let with_score = seq![StageAction::SetScore(score as i64)];
                let with_heat = if score % (KILLS_PER_HEAT_STEP as int) == 0 {
                    with_score.push(
                        StageAction::SpeedUp(
                            Self::escalated_heat(old(self).stage_heat as int) as i64,
                        ),
                    )
                } else {
                    with_score
                };
                if score % (KILLS_PER_EXTEND as int) == 0 {
                    with_heat.push(StageAction::SetRemain((old(self).player_life + 1) as i64)).push(
                        StageAction::PlayExtendJingle,
                    )
                } else {
                    with_heat
                }
            },
            final(self).wf(),
    {
        self.beated_alien_num = self.beated_alien_num + 1;
        let mut actions: Vec<StageAction> = Vec::new();
        actions.push(StageAction::SetScore(self.beated_alien_num));
        if self.beated_alien_num % KILLS_PER_HEAT_STEP == 0 {
            proof {
                let h = old(self).stage_heat as int;
                assert(h * (HEAT_GROWTH_NUM as int) <= (HEAT_CAP as int) * (
                HEAT_GROWTH_NUM as int)) by (nonlinear_arith)
                    requires
                        h <= HEAT_CAP as int,
                        h >= 0,
                ;
                assert(tdiv(h * (HEAT_GROWTH_NUM as int), HEAT_GROWTH_DEN as int) >= h)
                    by (nonlinear_arith)
                    requires
                        h >= 0,
                ;
            }
            let grown: i64 = self.stage_heat * HEAT_GROWTH_NUM;
            let e: i64 = grown / HEAT_GROWTH_DEN;
            self.stage_heat = if e > HEAT_CAP {
                HEAT_CAP
            } else {
                e
            };
            actions.push(StageAction::SpeedUp(self.stage_heat));
        }
        if self.beated_alien_num % KILLS_PER_EXTEND == 0 {
            self.player_life = self.player_life + 1;
            actions.push(StageAction::SetRemain(self.player_life));
            actions.push(StageAction::PlayExtendJingle);
        }
        proof {
            let score = old(self).beated_alien_num + 1;
            let with_score = seq![StageAction::SetScore(score as i64)];
            let with_heat = if score % (KILLS_PER_HEAT_STEP as int) == 0 {
                with_score.push(
                    StageAction::SpeedUp(Self::escalated_heat(old(self).stage_heat as int) as i64),
                )
            } else {
                with_score
            };
            let full = if score % (KILLS_PER_EXTEND as int) == 0 {
                with_heat.push(StageAction::SetRemain((old(self).player_life + 1) as i64)).push(
                    StageAction::PlayExtendJingle,
                )
            } else {
                with_heat
            };
            assert(actions@ =~= full);
        }
        actions
    }

    /// Where a spawn places the alien: invasion spawns appear above the top
    /// edge at the drawn horizontal coordinate; directional spawns appear
    /// at the drawn depth beside the chosen side edge.
    pub open spec fn spawn_pos_spec(draws: SpawnDraws) -> Vec3 {
        if draws.invasion {
            Vec3 { x: draws.spawn_x, y: 0, z: SPAWN_TOP_Z }
        } else {
            Vec3 {
                x: if draws.from_right {
                    SPAWN_SIDE_X
                } else {
                    (-(SPAWN_SIDE_X as int)) as i64
                },
                y: 0,
                z: draws.spawn_z,
            }
        }
    }

    /// The heading a spawn releases the alien with: invasion aliens march
    /// straight down; side-edge aliens head across the stage.
    pub open spec fn spawn_dir_spec(draws: SpawnDraws) -> Vec3 {
        if draws.invasion {
            Vec3 { x: 0, y: 0, z: MILLI as int as i64 }
        } else {
            Vec3 {
                x: if draws.from_right {
                    -(MILLI as int) as i64
                } else {
                    MILLI as int as i64
                },
                y: 0,
                z: 0,
            }
        }
    }

    /// The movement pattern a spawn selects.
    pub open spec fn spawn_pattern_spec(draws: SpawnDraws) -> AlienProcessPattern {
        if draws.invasion {
            AlienProcessPattern::Invasion
        } else {
            AlienProcessPattern::Dir
        }
    }

    /// The inverse heat, in thousandths: the factor that shrinks the timer
    /// spans as the heat rises.
    pub open spec fn inverse_heat(h: int) -> int {
        tdiv(1_000_000, h)
    }

    /// The alien a spawn releases: revived, sped up by the heat, its timers
    /// scaled by the inverse heat, heading along the profile's direction,
    /// under the profile's pattern.
    pub open spec fn spawned_alien_spec(a: Alien, heat: int, draws: SpawnDraws) -> Alien {
        Alien {
            alive: true,
            speed: tdiv(a.setted_speed * heat, MILLI as int) as i64,
            direction: Alien::dir_of(Self::spawn_dir_spec(draws)),
            change_dir_wait: tdiv(
                draws.dir_span_draw * Self::inverse_heat(heat),
                MILLI as int,
            ) as i64,
            fire_wait: tdiv(draws.fire_span_draw * Self::inverse_heat(heat), MILLI as int) as i64,
            process_pattern: Self::spawn_pattern_spec(draws),
            ..a
        }
    }

    /// Spawns one alien when the spawn timer lapses, consuming the world's
    /// draws: half the time a top-edge invasion spawn, half the time a
    /// side-edge directional spawn. A depleted pool skips the spawn
    /// entirely — no error, and the spawn timer keeps its previous wait.
    /// On success the next wait is the drawn interval divided by the heat.
    pub fn spawn_alien(&mut self, draws: SpawnDraws) -> (r: (
        Option<Spawned<Alien>>,
        Vec<StageAction>,
    ))
        requires
            old(self).wf(),
            SPAWN_INTERVAL_MIN <= draws.interval_draw <= SPAWN_INTERVAL_MAX,
            old(self).env.left_limit <= draws.spawn_x <= old(self).env.right_limit,
            old(self).env.up_limit <= draws.spawn_z <= tdiv(
                old(self).env.up_limit + old(self).env.down_limit,
                2,
            ),
            0 <= draws.dir_span_draw <= SPAN_CAP,
            0 <= draws.fire_span_draw <= SPAN_CAP,
        ensures
            r.0 is Some <==> old(self).aliens_magazine@.len() > 0,
            r.0 matches Some(sp) ==> {
                &&& sp.pos == Self::spawn_pos_spec(draws)
                &&& sp.entity == Self::spawned_alien_spec(
                    old(self).aliens_magazine@[0],
                    old(self).stage_heat as int,
                    draws,
                )
                &&& sp.entity.wf()
                &&& final(self).aliens_magazine@ == old(self).aliens_magazine@.drop_first()
            },
            r.0 is None ==> final(self).aliens_magazine@ == old(self).aliens_magazine@,
            r.1@ == if old(self).aliens_magazine@.len() > 0 {
                seq![
                    StageAction::SetSpawnWait(
                        tdiv(
                            draws.interval_draw * (MILLI as int),
                            old(self).stage_heat as int,
                        ) as i64,
                    ),
                ]
            } else {
                Seq::<StageAction>::empty()
            },
            final(self).alibullets_magazine == old(self).alibullets_magazine,
            final(self).player_life == old(self).player_life,
            final(self).beated_alien_num == old(self).beated_alien_num,
            final(self).stage_heat == old(self).stage_heat,
            final(self).default_player_life == old(self).default_player_life,
            final(self).env == old(self).env,
            final(self).wf(),
    {
        let (pos, process, dir) = if draws.invasion {
            (
                Vec3 { x: draws.spawn_x, y: 0, z: SPAWN_TOP_Z },
                AlienProcessPattern::Invasion,
                Vec3 { x: 0, y: 0, z: MILLI },
            )
        } else {
            let x: i64 = if draws.from_right {
                SPAWN_SIDE_X
            } else {
                -SPAWN_SIDE_X
            };
            let dx: i64 = if draws.from_right {
                -MILLI
            } else {
                MILLI
            };
            (
                Vec3 { x, y: 0, z: draws.spawn_z },
                AlienProcessPattern::Dir,
                Vec3 { x: dx, y: 0, z: 0 },
            )
        };
        let popped = self.aliens_magazine.hammer();
        let mut alien = match popped {
            Some(a) => a,
            None => {
                return (None, Vec::new());
            }
        };
        proof {
            assert(old(self).aliens_magazine@[0].wf());
            lemma_mul_bound(
                alien.setted_speed as int,
                self.stage_heat as int,
                BASE_SPEED_CAP as int,
                HEAT_CAP as int,
            );
            assert((BASE_SPEED_CAP as int) * (HEAT_CAP as int) == (MILLI as int) * (
            ALIEN_SPEED_CAP as int)) by (nonlinear_arith);
            assert(0 <= Self::inverse_heat(self.stage_heat as int) <= MILLI) by (nonlinear_arith)
                requires
                    BASE_HEAT <= self.stage_heat <= HEAT_CAP,
            ;
        }
        alien.reset();
        alien.speed_up(self.stage_heat);
        let ratio: i64 = 1_000_000 / self.stage_heat;
        alien.set_dir_change_span_random(draws.dir_span_draw, ratio);
        alien.set_fire_span_random(draws.fire_span_draw, ratio);
        alien.set_dir(dir);
        alien.set_process(process);
        let interval: i64 = (draws.interval_draw * MILLI) / self.stage_heat;
        let mut actions: Vec<StageAction> = Vec::new();
        actions.push(StageAction::SetSpawnWait(interval));
        proof {
            assert(actions@ =~= seq![
                StageAction::SetSpawnWait(
                    tdiv(draws.interval_draw * (MILLI as int), old(self).stage_heat as int) as i64,
                ),
            ]);
            assert forall|i: int| 0 <= i < self.aliens_magazine@.len()
                implies (#[trigger] self.aliens_magazine@[i]).wf() by {
                assert(self.aliens_magazine@[i] == old(self).aliens_magazine@[i + 1]);
            }
        }
        (Some(Spawned { entity: alien, pos }), actions)
    }

    /// Turns an alien's barrage request into bullets: one per fan
    /// direction, all from the request's position, flying at the request's
    /// speed. When the bullet pool runs dry mid-fan, the remaining
    /// directions are skipped — the volley is simply cut short.
    pub fn alien_fire(&mut self, pos: Vec3, dir: Vec3, speed: i64, kind: i64) -> (shots: Vec<
        Spawned<AlienBullet>,
    >)
        requires
            old(self).wf(),
            kind >= 0,
            dir.bounded((COORD_CAP as int) / 3),
            -SPEED_CAP <= speed <= SPEED_CAP,
        ensures
            ({
                let dirs = barrage_spec(kind as int, dir);
                let n = if dirs.len() <= old(self).alibullets_magazine@.len() {
                    dirs.len() as int
                } else {
                    old(self).alibullets_magazine@.len() as int
                };
                &&& shots@.len() == n
                &&& forall|i: int|
                    0 <= i < n ==> (#[trigger] shots@[i]).pos == pos && shots@[i].entity == (
                    AlienBullet {
                        speed,
                        direction: AlienBullet::dir_of(dirs[i]),
                        flying: true,
                        ..old(self).alibullets_magazine@[i]
                    })
                &&& final(self).alibullets_magazine@ == old(self).alibullets_magazine@.skip(n)
            }),
            final(self).aliens_magazine == old(self).aliens_magazine,
            final(self).player_life == old(self).player_life,
            final(self).beated_alien_num == old(self).beated_alien_num,
            final(self).stage_heat == old(self).stage_heat,
            final(self).default_player_life == old(self).default_player_life,
            final(self).env == old(self).env,
            final(self).wf(),
    {
        proof {
            crate::barrage::lemma_barrage_bounded(kind as int, dir, (COORD_CAP as int) / 3);
        }
        let dirs = barrage_plan(kind, dir);
        let ghost dirs_seq = dirs@;
        let mut shots: Vec<Spawned<AlienBullet>> = Vec::new();
        let mut i: usize = 0;
        while i < dirs.len() && self.alibullets_magazine.get_left_num() > 0
            invariant
                0 <= i <= dirs_seq.len(),
                dirs@ == dirs_seq,
                dirs_seq == barrage_spec(kind as int, dir),
                shots@.len() == i,
                i <= old(self).alibullets_magazine@.len(),
                self.alibullets_magazine@ == old(self).alibullets_magazine@.skip(i as int),
                forall|j: int|
                    0 <= j < i ==> (#[trigger] shots@[j]).pos == pos && shots@[j].entity == (
                    AlienBullet {
                        speed,
                        direction: AlienBullet::dir_of(dirs_seq[j]),
                        flying: true,
                        ..old(self).alibullets_magazine@[j]
                    }),
                self.aliens_magazine == old(self).aliens_magazine,
                self.player_life == old(self).player_life,
                self.beated_alien_num == old(self).beated_alien_num,
                self.stage_heat == old(self).stage_heat,
                self.default_player_life == old(self).default_player_life,
                self.env == old(self).env,
                -SPEED_CAP <= speed <= SPEED_CAP,
                forall|j: int|
                    0 <= j < dirs_seq.len() ==> (#[trigger] dirs_seq[j]).bounded(COORD_CAP as int),
            decreases dirs.len() - i,
        {
            let popped = self.alibullets_magazine.hammer();
            let mut bullet = match popped {
                Some(b) => b,
                None => {
                    proof {
                        assert(false);
                    }
                    return shots;
                }
            };
            proof {
                assert(bullet == old(self).alibullets_magazine@[i as int]);
                assert(self.alibullets_magazine@ =~= old(self).alibullets_magazine@.skip(
                    i as int + 1,
                ));
            }
            bullet.set_speed(speed);
            bullet.set_dir(dirs[i]);
            bullet.flying = true;
            shots.push(Spawned { entity: bullet, pos });
            i = i + 1;
        }
        shots
    }

    /// Returns a collected alien to its pool.
    pub fn collect_alien(&mut self, alien: Alien)
        requires
            alien.wf(),
            old(self).aliens_magazine@.len() < usize::MAX,
        ensures
            final(self).aliens_magazine@ == old(self).aliens_magazine@.push(alien),
            final(self).alibullets_magazine == old(self).alibullets_magazine,
            final(self).player_life == old(self).player_life,
            final(self).beated_alien_num == old(self).beated_alien_num,
            final(self).stage_heat == old(self).stage_heat,
            final(self).default_player_life == old(self).default_player_life,
            final(self).env == old(self).env,
            old(self).wf() ==> final(self).wf(),
    {
        self.aliens_magazine.charge_bullet(alien);
    }

    /// Returns a collected alien bullet to its pool.
    pub fn collect_alien_bullet(&mut self, bullet: AlienBullet)
        requires
            old(self).alibullets_magazine@.len() < usize::MAX,
        ensures
            final(self).alibullets_magazine@ == old(self).alibullets_magazine@.push(bullet),
            final(self).aliens_magazine == old(self).aliens_magazine,
            final(self).player_life == old(self).player_life,
            final(self).beated_alien_num == old(self).beated_alien_num,
            final(self).stage_heat == old(self).stage_heat,
            final(self).default_player_life == old(self).default_player_life,
            final(self).env == old(self).env,
            old(self).wf() ==> final(self).wf(),
    {
        self.alibullets_magazine.charge_bullet(bullet);
    }
}

/// Heat never falls when an alien is destroyed: the multiplier is
/// non-decreasing within a session.
pub proof fn law_heat_monotone(h: int)
    requires
        BASE_HEAT <= h <= HEAT_CAP,
    ensures
        Stage::escalated_heat(h) >= h,
        BASE_HEAT <= Stage::escalated_heat(h) <= HEAT_CAP,
{
    assert(tdiv(h * (HEAT_GROWTH_NUM as int), HEAT_GROWTH_DEN as int) >= h) by (nonlinear_arith)
        requires
            h >= 0,
    ;
}

} // verus!
