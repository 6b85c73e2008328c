//! Stages: ordered wave sequences sharing a background, the catalog of
//! all stages, stage-select navigation, and wave progression.

use vstd::prelude::*;
use vstd::string::StringExecFns;
use crate::effects::VisualKind;
use crate::enemy::EnemyKind;
use crate::geom::MAX_SPEED;
use crate::timer::{Timer, TimerMode, MAX_DURATION_MS};
use crate::wave::{dist_wf, Wave};

verus! {

#[derive(Clone, Copy, PartialEq, Eq, Structural, Hash, Debug)]
pub enum Stage {
    Stage1,
    Stage2,
    Stage3,
}

/// The display name of a stage.
pub fn get_stage_name(stage: Stage) -> (name: String)
    ensures
        stage == Stage::Stage1 ==> name@ == "Stage1"@,
        stage == Stage::Stage2 ==> name@ == "Stage2"@,
        stage == Stage::Stage3 ==> name@ == "Stage3"@,
{
    match stage {
        Stage::Stage1 => String::from_str("Stage1"),
        Stage::Stage2 => String::from_str("Stage2"),
        Stage::Stage3 => String::from_str("Stage3"),
    }
}

/// One stage: a name, a background, and its ordered waves with the
/// index of the wave currently active.
#[derive(Debug)]
pub struct StageSetting {
    pub name: String,
    pub background: VisualKind,
    pub waves: Vec<Wave>,
    pub current_index: usize,
}

impl StageSetting {
    pub open spec fn wf(self) -> bool {
        &&& 1 <= self.waves@.len() <= 1_000
        &&& self.current_index < self.waves@.len()
        &&& forall|i: int| 0 <= i < self.waves@.len() ==> self.waves@[i].wf()
    }
}

/// The full catalog of stages plus the selected/active index.
#[derive(Debug)]
pub struct StageDatabase {
    pub settings: Vec<StageSetting>,
    pub current_index: usize,
}

impl StageDatabase {
    pub open spec fn wf(self) -> bool {
        &&& 1 <= self.settings@.len() <= 1_000
        &&& self.current_index < self.settings@.len()
        &&& forall|i: int| 0 <= i < self.settings@.len() ==> self.settings@[i].wf()
    }

    /// The stage currently selected.
    pub open spec fn current_stage(self) -> StageSetting {
        self.settings@[self.current_index as int]
    }

    /// The wave currently active in the selected stage.
    pub open spec fn current_wave(self) -> Wave {
        self.current_stage().waves@[self.current_stage().current_index as int]
    }

    /// The active wave has met its target.
    pub open spec fn wave_complete(self) -> bool {
        self.current_wave().defeated_count >= self.current_wave().target_count
    }

    /// The active wave is the last one of its stage.
    pub open spec fn on_last_wave(self) -> bool {
        self.current_stage().current_index == self.current_stage().waves@.len() - 1
    }

    /// Moves the selection one stage down, wrapping at the end.
    pub fn select_next(&mut self)
        requires
            old(self).wf(),
        ensures
            final(self).wf(),
            final(self).settings == old(self).settings,
            final(self).current_index == (old(self).current_index + 1)
                % (old(self).settings@.len() as int),
    {
        self.current_index = (self.current_index + 1) % self.settings.len();
    }

    /// Moves the selection one stage up, wrapping at the start.
    pub fn select_prev(&mut self)
        requires
            old(self).wf(),
        ensures
            final(self).wf(),
            final(self).settings == old(self).settings,
            final(self).current_index == (old(self).current_index
                + old(self).settings@.len() - 1) % (old(self).settings@.len() as int),
    {
        self.current_index = (self.current_index + self.settings.len() - 1) % self.settings.len();
    }

    /// Records one qualifying kill against the active wave.  The count
    /// saturates at the machine limit, far beyond any target.
    pub fn record_defeat(&mut self)
        requires
            old(self).wf(),
        ensures
            final(self).wf(),
            defeat_recorded(*old(self), *final(self)),
    {
        let stage_index: usize = self.current_index;
        let wave_index: usize = self.settings[stage_index].current_index;
        let count: u32 = self.settings[stage_index].waves[wave_index].defeated_count;
        if count < u32::MAX {
            self.settings[stage_index].waves[wave_index].defeated_count = count + 1;
        }
    }
}

/// How a stage database changes when one qualifying kill is recorded:
/// only the active wave's defeat count moves, up by one, saturating at
/// the machine limit.
pub open spec fn defeat_recorded(o: StageDatabase, n: StageDatabase) -> bool {
    &&& n.current_index == o.current_index
    &&& n.settings@.len() == o.settings@.len()
    &&& forall|i: int| 0 <= i < o.settings@.len() && i != o.current_index
        ==> n.settings@[i] == o.settings@[i]
    &&& n.current_stage().name == o.current_stage().name
    &&& n.current_stage().background == o.current_stage().background
    &&& n.current_stage().current_index == o.current_stage().current_index
    &&& n.current_stage().waves@.len() == o.current_stage().waves@.len()
    &&& forall|j: int| 0 <= j < o.current_stage().waves@.len()
        && j != o.current_stage().current_index
        ==> n.current_stage().waves@[j] == o.current_stage().waves@[j]
    &&& n.current_wave() == (Wave {
        defeated_count: if o.current_wave().defeated_count < u32::MAX {
            (o.current_wave().defeated_count + 1) as u32
        } else {
            u32::MAX
        },
        ..o.current_wave()
    })
}

/// How a stage database may change over a scan that records any
/// number of kills: only the active wave's defeat count moves, and
/// only upward.
pub open spec fn defeats_accrued(o: StageDatabase, n: StageDatabase) -> bool {
    &&& n.current_index == o.current_index
    &&& n.settings@.len() == o.settings@.len()
    &&& forall|i: int| 0 <= i < o.settings@.len() && i != o.current_index
        ==> n.settings@[i] == o.settings@[i]
    &&& n.current_stage().name == o.current_stage().name
    &&& n.current_stage().background == o.current_stage().background
    &&& n.current_stage().current_index == o.current_stage().current_index
    &&& n.current_stage().waves@.len() == o.current_stage().waves@.len()
    &&& forall|j: int| 0 <= j < o.current_stage().waves@.len()
        && j != o.current_stage().current_index
        ==> n.current_stage().waves@[j] == o.current_stage().waves@[j]
    &&& n.current_wave() == (Wave {
        defeated_count: n.current_wave().defeated_count,
        ..o.current_wave()
    })
    &&& n.current_wave().defeated_count >= o.current_wave().defeated_count
}

/// Accrual is reflexive: an untouched database has accrued nothing.
pub proof fn lemma_defeats_accrued_refl(db: StageDatabase)
    ensures
        defeats_accrued(db, db),
{
}

/// Accruals compose.
pub proof fn lemma_accrued_compose(o: StageDatabase, m: StageDatabase, n: StageDatabase)
    requires
        defeats_accrued(o, m),
        defeats_accrued(m, n),
    ensures
        defeats_accrued(o, n),
{
}

/// What a progression check concluded.
#[derive(Clone, Copy, PartialEq, Eq, Structural, Debug)]
pub enum WaveAdvance {
    /// The active wave is still short of its target.
    Stay,
    /// The active wave completed and the next one took over.
    Advanced,
    /// The last wave of the stage completed: the stage is clear.
    Cleared,
}

/// Checks the active wave's defeat count against its target: short of
/// the target nothing changes; at the target the stage either advances
/// to the next wave, restarting the spawn timer with the new wave's
/// interval, or — on the last wave — pauses spawning and signals that
/// the stage is clear.
pub open spec fn waves_rel(db0: StageDatabase, t0: Timer, db1: StageDatabase, t1: Timer,
    r: WaveAdvance) -> bool {
    &&& (r == WaveAdvance::Stay <==> !db0.wave_complete())
    &&& (r == WaveAdvance::Cleared <==> (db0.wave_complete() && db0.on_last_wave()))
    &&& (r == WaveAdvance::Advanced <==> (db0.wave_complete() && !db0.on_last_wave()))
    &&& !db0.wave_complete() ==> (db1 == db0 && t1 == t0)
    &&& db0.wave_complete() && db0.on_last_wave() ==> (db1 == db0
        && t1 == (Timer { paused: true, ..t0 }))
    &&& db0.wave_complete() && !db0.on_last_wave() ==> ({
        &&& db1.current_index == db0.current_index
        &&& db1.settings@.len() == db0.settings@.len()
        &&& forall|i: int| 0 <= i < db0.settings@.len() && i != db0.current_index
            ==> db1.settings@[i] == db0.settings@[i]
        &&& db1.current_stage().name == db0.current_stage().name
        &&& db1.current_stage().background == db0.current_stage().background
        &&& db1.current_stage().waves == db0.current_stage().waves
        &&& db1.current_stage().current_index == db0.current_stage().current_index + 1
        &&& t1.mode == TimerMode::Repeating
        &&& t1.duration_ms == db1.current_wave().spawn_interval_ms
        &&& t1.elapsed_ms == 0
        &&& !t1.finished
        &&& !t1.paused
    })
}

pub fn update_waves(db: &mut StageDatabase, spawn_timer: &mut Timer) -> (r: WaveAdvance)
    requires
        old(db).wf(),
        old(spawn_timer).wf(),
    ensures
        final(db).wf(),
        final(spawn_timer).wf(),
        waves_rel(*old(db), *old(spawn_timer), *final(db), *final(spawn_timer), r),
{
    let stage_index: usize = db.current_index;
    let wave_index: usize = db.settings[stage_index].current_index;
    let wave_count: usize = db.settings[stage_index].waves.len();
    let defeated: u32 = db.settings[stage_index].waves[wave_index].defeated_count;
    let target: u32 = db.settings[stage_index].waves[wave_index].target_count;

    if defeated < target {
        return WaveAdvance::Stay;
    }
    if wave_index == wave_count - 1 {
        spawn_timer.pause();
        return WaveAdvance::Cleared;
    }
    db.settings[stage_index].current_index = wave_index + 1;
    let interval: u64 = db.settings[stage_index].waves[wave_index + 1].spawn_interval_ms;
    *spawn_timer = Timer::new(interval, TimerMode::Repeating);
    WaveAdvance::Advanced
}

/// A wave with these settings and nothing defeated yet.
pub open spec fn wave_is(w: Wave, number: u32, target: u32, speed: i64, interval: u64,
    dist: Seq<(EnemyKind, u32)>) -> bool {
    &&& w.number == number
    &&& w.defeated_count == 0
    &&& w.target_count == target
    &&& w.enemy_speed == speed
    &&& w.spawn_interval_ms == interval
    &&& w.enemy_distribution@ == dist
}

/// Builds a fresh wave from its settings.
fn make_wave(number: u32, target: u32, speed: i64, interval: u64,
    dist: Vec<(EnemyKind, u32)>) -> (w: Wave)
    requires
        0 <= speed <= MAX_SPEED,
        1 <= interval <= MAX_DURATION_MS,
        dist_wf(dist@),
    ensures
        w.wf(),
        wave_is(w, number, target, speed, interval, dist@),
{
    Wave {
        number,
        defeated_count: 0,
        target_count: target,
        enemy_speed: speed,
        spawn_interval_ms: interval,
        enemy_distribution: dist,
    }
}

/// Early waves draw only straight dinos.
fn dist_straight() -> (d: Vec<(EnemyKind, u32)>)
    ensures
        dist_wf(d@),
        d@ == seq![(EnemyKind::DinoStraight, 1u32)],
{
    let mut d: Vec<(EnemyKind, u32)> = Vec::new();
    d.push((EnemyKind::DinoStraight, 1));
    proof {
        assert(d@ =~= seq![(EnemyKind::DinoStraight, 1u32)]);
    }
    d
}

/// Middle waves mix straight and zigzag dinos evenly.
fn dist_mixed() -> (d: Vec<(EnemyKind, u32)>)
    ensures
        dist_wf(d@),
        d@ == seq![(EnemyKind::DinoStraight, 1u32), (EnemyKind::DinoZigzag, 1u32)],
{
    let mut d: Vec<(EnemyKind, u32)> = Vec::new();
    d.push((EnemyKind::DinoStraight, 1));
    d.push((EnemyKind::DinoZigzag, 1));
    proof {
        assert(d@ =~= seq![(EnemyKind::DinoStraight, 1u32), (EnemyKind::DinoZigzag, 1u32)]);
    }
    d
}

/// Final waves draw all three kinds evenly.
fn dist_all() -> (d: Vec<(EnemyKind, u32)>)
    ensures
        dist_wf(d@),
        d@ == seq![(EnemyKind::DinoStraight, 1u32), (EnemyKind::DinoZigzag, 1u32),
            (EnemyKind::DinoHoming, 1u32)],
{
    let mut d: Vec<(EnemyKind, u32)> = Vec::new();
    d.push((EnemyKind::DinoStraight, 1));
    d.push((EnemyKind::DinoZigzag, 1));
    d.push((EnemyKind::DinoHoming, 1));
    proof {
        assert(d@ =~= seq![(EnemyKind::DinoStraight, 1u32), (EnemyKind::DinoZigzag, 1u32),
            (EnemyKind::DinoHoming, 1u32)]);
    }
    d
}

/// One stage of the catalog from its parts.
fn make_stage(name: String, background: VisualKind, w0: Wave, w1: Wave, w2: Wave)
    -> (s: StageSetting)
    requires
        w0.wf(),
        w1.wf(),
        w2.wf(),
    ensures
        s.wf(),
        s.name == name,
        s.background == background,
        s.current_index == 0,
        s.waves@.len() == 3,
        s.waves@[0] == w0,
        s.waves@[1] == w1,
        s.waves@[2] == w2,
{
    let mut waves: Vec<Wave> = Vec::new();
    waves.push(w0);
    waves.push(w1);
    waves.push(w2);
    StageSetting { name, background, waves, current_index: 0 }
}

/// Builds the full stage catalog: three stages of three waves each,
/// increasingly fast and dense, with the first stage selected.
pub fn load_stages() -> (db: StageDatabase)
    ensures
        db.wf(),
        db.current_index == 0,
        db.settings@.len() == 3,
        db.settings@[0].name@ == "Stage1"@,
        db.settings@[0].background == VisualKind::Ground,
        db.settings@[0].current_index == 0,
        db.settings@[0].waves@.len() == 3,
        wave_is(db.settings@[0].waves@[0], 0, 10, 200_000, 2_000,
            seq![(EnemyKind::DinoStraight, 1u32)]),
        wave_is(db.settings@[0].waves@[1], 1, 20, 300_000, 300,
            seq![(EnemyKind::DinoStraight, 1u32), (EnemyKind::DinoZigzag, 1u32)]),
        wave_is(db.settings@[0].waves@[2], 2, 10, 500_000, 100,
            seq![(EnemyKind::DinoStraight, 1u32), (EnemyKind::DinoZigzag, 1u32),
                (EnemyKind::DinoHoming, 1u32)]),
        db.settings@[1].name@ == "Stage2"@,
        db.settings@[1].background == VisualKind::Ocean,
        db.settings@[1].current_index == 0,
        db.settings@[1].waves@.len() == 3,
        wave_is(db.settings@[1].waves@[0], 0, 10, 100_000, 100,
            seq![(EnemyKind::DinoStraight, 1u32)]),
        wave_is(db.settings@[1].waves@[1], 1, 20, 200_000, 100,
            seq![(EnemyKind::DinoStraight, 1u32), (EnemyKind::DinoZigzag, 1u32)]),
        wave_is(db.settings@[1].waves@[2], 2, 10, 500_000, 100,
            seq![(EnemyKind::DinoStraight, 1u32), (EnemyKind::DinoZigzag, 1u32),
                (EnemyKind::DinoHoming, 1u32)]),
        db.settings@[2].name@ == "Stage3"@,
        db.settings@[2].background == VisualKind::Universe,
        db.settings@[2].current_index == 0,
        db.settings@[2].waves@.len() == 3,
        wave_is(db.settings@[2].waves@[0], 0, 10, 500_000, 2_000,
            seq![(EnemyKind::DinoStraight, 1u32)]),
        wave_is(db.settings@[2].waves@[1], 1, 20, 500_000, 1_000,
            seq![(EnemyKind::DinoStraight, 1u32), (EnemyKind::DinoZigzag, 1u32)]),
        wave_is(db.settings@[2].waves@[2], 2, 10, 500_000, 100,
            seq![(EnemyKind::DinoStraight, 1u32), (EnemyKind::DinoZigzag, 1u32),
                (EnemyKind::DinoHoming, 1u32)]),
{
    let stage1 = make_stage(get_stage_name(Stage::Stage1), VisualKind::Ground,
        make_wave(0, 10, 200_000, 2_000, dist_straight()),
        make_wave(1, 20, 300_000, 300, dist_mixed()),
        make_wave(2, 10, 500_000, 100, dist_all()));
    let stage2 = make_stage(get_stage_name(Stage::Stage2), VisualKind::Ocean,
        make_wave(0, 10, 100_000, 100, dist_straight()),
        make_wave(1, 20, 200_000, 100, dist_mixed()),
        make_wave(2, 10, 500_000, 100, dist_all()));
    let stage3 = make_stage(get_stage_name(Stage::Stage3), VisualKind::Universe,
        make_wave(0, 10, 500_000, 2_000, dist_straight()),
        make_wave(1, 20, 500_000, 1_000, dist_mixed()),
        make_wave(2, 10, 500_000, 100, dist_all()));
    let mut settings: Vec<StageSetting> = Vec::new();
    settings.push(stage1);
    settings.push(stage2);
    settings.push(stage3);
    StageDatabase { settings, current_index: 0 }
}

/// The marker a line starts with: an arrow on the selected stage,
/// matching blanks elsewhere.
pub open spec fn marker_spec(selected: bool) -> Seq<char> {
    if selected {
        " > "@
    } else {
        "   "@
    }
}

/// The select-screen text for the first `i` stages: one line per
/// stage, its marker, its name, and a blank line.
pub open spec fn disp_prefix(db: StageDatabase, i: int) -> Seq<char>
    decreases i,
{
    if i <= 0 {
        Seq::<char>::empty()
    } else {
        disp_prefix(db, i - 1) + marker_spec(i - 1 == db.current_index)
            + db.settings@[i - 1].name@ + "\n\n"@
    }
}

/// Renders the stage-select listing: every stage on its own line, the
/// selected one marked with an arrow.
pub fn create_disp_text(db: &StageDatabase) -> (text: String)
    ensures
        text@ == disp_prefix(*db, db.settings@.len() as int),
{
    let mut text: String = String::new();
    let mut i: usize = 0;
    while i < db.settings.len()
        invariant
            i <= db.settings@.len(),
            text@ == disp_prefix(*db, i as int),
        decreases db.settings@.len() - i,
    {
        if i == db.current_index {
            text.append(" > ");
        } else {
            text.append("   ");
        }
        text.append(db.settings[i].name.as_str());
        text.append("\n\n");
        i = i + 1;
    }
    text
}

/// Readies the selected stage for play: the first wave becomes active
/// and every defeat count of the stage starts over at zero.
pub fn reset_stage_waves(db: &mut StageDatabase)
    requires
        old(db).wf(),
    ensures
        final(db).wf(),
        final(db).current_index == old(db).current_index,
        final(db).settings@.len() == old(db).settings@.len(),
        forall|i: int| 0 <= i < old(db).settings@.len() && i != old(db).current_index
            ==> final(db).settings@[i] == old(db).settings@[i],
        final(db).current_stage().name == old(db).current_stage().name,
        final(db).current_stage().background == old(db).current_stage().background,
        final(db).current_stage().current_index == 0,
        final(db).current_stage().waves@.len() == old(db).current_stage().waves@.len(),
        forall|j: int| 0 <= j < old(db).current_stage().waves@.len()
            ==> final(db).current_stage().waves@[j] == (Wave {
                defeated_count: 0,
                ..old(db).current_stage().waves@[j]
            }),
{
    let stage_index: usize = db.current_index;
    db.settings[stage_index].current_index = 0;
    let wave_count: usize = db.settings[stage_index].waves.len();
    let mut j: usize = 0;
    while j < wave_count
        invariant
            db.wf(),
            old(db).wf(),
            wave_count == old(db).current_stage().waves@.len(),
            stage_index == old(db).current_index < db.settings@.len(),
            j <= wave_count,
            db.current_index == old(db).current_index,
            db.settings@.len() == old(db).settings@.len(),
            forall|i: int| 0 <= i < old(db).settings@.len() && i != stage_index
                ==> db.settings@[i] == old(db).settings@[i],
            db.current_stage().name == old(db).current_stage().name,
            db.current_stage().background == old(db).current_stage().background,
            db.current_stage().current_index == 0,
            db.current_stage().waves@.len() == wave_count,
            forall|k: int| 0 <= k < j ==> db.current_stage().waves@[k] == (Wave {
                defeated_count: 0,
                ..old(db).current_stage().waves@[k]
            }),
            forall|k: int| j <= k < wave_count ==> db.current_stage().waves@[k]
                == old(db).current_stage().waves@[k],
        decreases wave_count - j,
    {
        db.settings[stage_index].waves[j].defeated_count = 0;
        j = j + 1;
    }
}

} // verus!
