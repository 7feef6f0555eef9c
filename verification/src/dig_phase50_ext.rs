//! Digging with a pick: whether the pick can be used, one turn of digging,
//! what a finished hole does, digging upward, a shopkeeper's bill and a
//! digging beam striking the floor.
use vstd::prelude::*;
use crate::rng::{NetHackRng, rng_roll, rng_next, rng_after};
use crate::num::div_trunc;
use crate::text::{int_text, text_with_int, text_with_two_ints, concat2};

verus! {

/// Where the pick is swung.
#[derive(Debug, Clone, Copy, PartialEq, Eq, Structural)]
pub enum PickAxeDirection {
    /// Across the level.
    Horizontal { dx: i32, dy: i32 },
    /// Into the floor.
    Down,
    /// Into the ceiling.
    Up,
}

/// Why a pick cannot be used.
#[derive(Debug, Clone, PartialEq, Eq)]
pub enum PickAxeCheckFailure {
    NotWielding,
    CursedWeapon,
    Underwater,
    InAir,
    InvalidDirection,
    NonDiggable { reason: String },
    MountedDigDown,
    LevitatingDigDown,
}

/// Whether a pick can be used.
#[derive(Debug, Clone, PartialEq, Eq)]
pub enum PickAxeCheckResult {
    /// Digging may start.
    Proceed { direction: PickAxeDirection, target_tile: String },
    /// It may not.
    Failed(PickAxeCheckFailure),
}

/// Checks a pick before digging, in this order: it must be wielded, not a
/// cursed weapon, not under water, not on the air level; digging down is
/// refused while riding or levitating; the target must not be an undiggable
/// wall and must be diggable.
pub fn pick_axe_check(
    is_wielding_pick: bool,
    is_cursed_weapon: bool,
    is_underwater: bool,
    is_air_level: bool,
    is_mounted: bool,
    is_levitating: bool,
    direction: PickAxeDirection,
    target_tile_name: &str,
    target_is_diggable: bool,
    target_is_nondiggable_wall: bool,
) -> (r: PickAxeCheckResult)
    ensures
        !is_wielding_pick ==> r == PickAxeCheckResult::Failed(PickAxeCheckFailure::NotWielding),
        is_wielding_pick && is_cursed_weapon ==> r == PickAxeCheckResult::Failed(PickAxeCheckFailure::CursedWeapon),
        is_wielding_pick && !is_cursed_weapon && is_underwater
            ==> r == PickAxeCheckResult::Failed(PickAxeCheckFailure::Underwater),
        is_wielding_pick && !is_cursed_weapon && !is_underwater && is_air_level
            ==> r == PickAxeCheckResult::Failed(PickAxeCheckFailure::InAir),
        is_wielding_pick && !is_cursed_weapon && !is_underwater && !is_air_level ==> {
            if direction == PickAxeDirection::Down && is_mounted {
                r == PickAxeCheckResult::Failed(PickAxeCheckFailure::MountedDigDown)
            } else if direction == PickAxeDirection::Down && is_levitating {
                r == PickAxeCheckResult::Failed(PickAxeCheckFailure::LevitatingDigDown)
            } else if target_is_nondiggable_wall {
                r matches PickAxeCheckResult::Failed(PickAxeCheckFailure::NonDiggable { reason })
                    && reason@ == "이 벽은 파괴할 수 없다."@
            } else if !target_is_diggable {
                r matches PickAxeCheckResult::Failed(PickAxeCheckFailure::NonDiggable { reason })
                    && reason@ == target_tile_name@ + "은(는) 채굴할 수 없다."@
            } else {
                r matches PickAxeCheckResult::Proceed { direction: d, target_tile }
                    && d == direction && target_tile@ == target_tile_name@
            }
        },
{
    if !is_wielding_pick {
        return PickAxeCheckResult::Failed(PickAxeCheckFailure::NotWielding);
    }
    if is_cursed_weapon {
        return PickAxeCheckResult::Failed(PickAxeCheckFailure::CursedWeapon);
    }
    if is_underwater {
        return PickAxeCheckResult::Failed(PickAxeCheckFailure::Underwater);
    }
    if is_air_level {
        return PickAxeCheckResult::Failed(PickAxeCheckFailure::InAir);
    }
    match direction {
        PickAxeDirection::Down => {
            if is_mounted {
                return PickAxeCheckResult::Failed(PickAxeCheckFailure::MountedDigDown);
            }
            if is_levitating {
                return PickAxeCheckResult::Failed(PickAxeCheckFailure::LevitatingDigDown);
            }
        },
        PickAxeDirection::Horizontal { .. } => {},
        PickAxeDirection::Up => {},
    }
    if target_is_nondiggable_wall {
        return PickAxeCheckResult::Failed(
            PickAxeCheckFailure::NonDiggable { reason: "이 벽은 파괴할 수 없다.".to_string() },
        );
    }
    if !target_is_diggable {
        return PickAxeCheckResult::Failed(
            PickAxeCheckFailure::NonDiggable { reason: concat2(target_tile_name, "은(는) 채굴할 수 없다.") },
        );
    }
    PickAxeCheckResult::Proceed { direction, target_tile: target_tile_name.to_string() }
}

/// The outcome of one turn of digging.
#[derive(Debug, Clone, PartialEq, Eq)]
pub enum DigTurnResult {
    /// Still digging.
    InProgress { new_effort: i32, message: String },
    /// Done; the terrain changes.
    Completed { new_effort: i32, result_type: DigCompletionType, message: String },
    /// The digger fumbled and lost ground.
    Fumbled { new_effort: i32, message: String },
    /// The pick struck the digger caught in a bear trap.
    BearTrapSelfHit { damage: i32, message: String },
    /// The pick broke the bear trap.
    BearTrapBroken { message: String },
    /// Digging stopped.
    Interrupted { message: String },
}

/// What a finished dig made.
#[derive(Debug, Clone, Copy, PartialEq, Eq, Structural)]
pub enum DigCompletionType {
    WallToCorr,
    DoorOpened,
    FloorHole,
    CeilingBreached,
    TreeFelled,
    SecretCorrRevealed,
}

/// The state of a dig in progress.
#[derive(Debug, Clone)]
pub struct DigTurnInput {
    pub current_effort: i32,
    pub digging_down: bool,
    pub digging_up: bool,
    pub str_bonus: i32,
    pub weapon_spe: i32,
    pub weapon_erosion: i32,
    pub damage_inc: i32,
    pub is_dwarf: bool,
    pub is_fumbling: bool,
    pub in_bear_trap: bool,
    pub luck: i32,
    pub target_tile: DigTargetTile,
    pub is_boundary_level: bool,
}

/// What is being dug.
#[derive(Debug, Clone, Copy, PartialEq, Eq, Structural)]
pub enum DigTargetTile {
    Wall,
    Door,
    SecretDoor,
    SecretCorr,
    Floor,
    Tree,
    DbWall,
}

/// The effort needed to finish digging through `tile` (250 for any hole
/// dug downward).
pub open spec fn threshold_of(tile: DigTargetTile, digging_down: bool) -> int {
    if digging_down {
        250
    } else {
        match tile {
            DigTargetTile::Wall => 100,
            DigTargetTile::Door | DigTargetTile::SecretDoor => 60,
            DigTargetTile::SecretCorr => 80,
            DigTargetTile::DbWall => 200,
            DigTargetTile::Tree => 150,
            DigTargetTile::Floor => 200,
        }
    }
}

/// The effort needed to finish digging through `tile`.
pub fn dig_threshold(tile: DigTargetTile, digging_down: bool) -> (r: i32)
    ensures
        r == threshold_of(tile, digging_down),
{
    if digging_down {
        250
    } else {
        match tile {
            DigTargetTile::Wall => 100,
            DigTargetTile::Door | DigTargetTile::SecretDoor => 60,
            DigTargetTile::SecretCorr => 80,
            DigTargetTile::DbWall => 200,
            DigTargetTile::Tree => 150,
            DigTargetTile::Floor => 200,
        }
    }
}

/// The luck-adjusted value of a draw `raw` from `0..x`: a third of the luck
/// (rounded toward zero) is taken off, and the result kept in `0..x`.
pub open spec fn dig_luck_adjust(raw: int, x: int, luck: int) -> int {
    let adjusted = raw - div_trunc(luck, 3);
    if adjusted < 0 { 0 } else if adjusted > x - 1 { x - 1 } else { adjusted }
}

/// A luck-adjusted draw from `0..x`; 0 without a draw when `x <= 0`.
pub fn rnl(x: i32, luck: i32, rng: &mut NetHackRng) -> (r: i32)
    ensures
        x <= 0 ==> r == 0 && final(rng)@ == old(rng)@,
        x > 0 ==> {
            &&& r == dig_luck_adjust(rng_roll(old(rng)@, x as int), x as int, luck as int)
            &&& final(rng)@ == rng_next(old(rng)@)
            &&& 0 <= r < x
        },
{
    if x <= 0 {
        return 0;
    }
    let raw = rng.rn2(x);
    let third = luck / 3;
    assert(third == div_trunc(luck as int, 3));
    let adjusted = raw as i64 - third as i64;
    if adjusted < 0 {
        0
    } else if adjusted > (x - 1) as i64 {
        x - 1
    } else {
        adjusted as i32
    }
}

/// The effort gained with a base draw of `base`, before the floor of 1.
pub open spec fn raw_gain(i: DigTurnInput, base: int) -> int {
    base + i.str_bonus + i.weapon_spe - i.weapon_erosion + i.damage_inc + (if i.is_dwarf { 5int } else { 0int })
}

/// Every partial sum of the effort for a base draw of `base` fits in `i32`.
pub open spec fn gain_fits(i: DigTurnInput, base: int) -> bool {
    let a = base + i.str_bonus;
    let b = a + i.weapon_spe;
    let c = b - i.weapon_erosion;
    let d = c + i.damage_inc;
    let e = d + (if i.is_dwarf { 5int } else { 0int });
    let g = if e >= 1 { e } else { 1 };
    &&& i32::MIN <= a <= i32::MAX
    &&& i32::MIN <= b <= i32::MAX
    &&& i32::MIN <= c <= i32::MAX
    &&& i32::MIN <= d <= i32::MAX
    &&& i32::MIN <= e <= i32::MAX
    &&& i32::MIN <= i.current_effort + g <= i32::MAX
    &&& i32::MIN <= (i.current_effort + g) * 100
}

/// The inputs on which a turn of digging stays within `i32` for every draw.
pub open spec fn dig_turn_fits(i: DigTurnInput) -> bool {
    &&& (forall|base: int| 10 <= base <= 14 ==> #[trigger] gain_fits(i, base))
    &&& i.current_effort >= i32::MIN + 9
    &&& (i.in_bear_trap ==> i.weapon_spe <= i32::MAX - 5)
}

/// The kind of result a finished dig produces.
pub open spec fn completion_of(i: DigTurnInput) -> DigCompletionType {
    if i.digging_down {
        DigCompletionType::FloorHole
    } else if i.digging_up {
        DigCompletionType::CeilingBreached
    } else {
        match i.target_tile {
            DigTargetTile::Wall | DigTargetTile::DbWall => DigCompletionType::WallToCorr,
            DigTargetTile::Door | DigTargetTile::SecretDoor => DigCompletionType::DoorOpened,
            DigTargetTile::SecretCorr => DigCompletionType::SecretCorrRevealed,
            DigTargetTile::Tree => DigCompletionType::TreeFelled,
            DigTargetTile::Floor => DigCompletionType::FloorHole,
        }
    }
}

/// The message for a finished dig.
pub open spec fn completion_text(t: DigCompletionType) -> Seq<char> {
    match t {
        DigCompletionType::WallToCorr => "벽을 관통하는 데 성공했다!"@,
        DigCompletionType::DoorOpened => "문을 부수었다!"@,
        DigCompletionType::FloorHole => "바닥에 구멍을 뚫었다!"@,
        DigCompletionType::CeilingBreached => "천장을 뚫었다!"@,
        DigCompletionType::TreeFelled => "나무를 베어냈다!"@,
        DigCompletionType::SecretCorrRevealed => "숨겨진 통로를 발견했다!"@,
    }
}

/// The progress phrase for a dig `pct` percent done.
pub open spec fn progress_text(pct: int) -> Seq<char> {
    if pct < 25 {
        "채굴이 시작되었다."@
    } else if pct < 50 {
        "계속 파고 있다."@
    } else if pct < 75 {
        "벽이 약해지고 있다."@
    } else {
        "거의 다 뚫렸다!"@
    }
}

/// The outcome of the normal digging step from state `s`.
pub open spec fn dig_progress_outcome(i: DigTurnInput, s: u64, r: DigTurnResult) -> bool {
    let base = 10 + rng_roll(s, 5);
    let raw = raw_gain(i, base);
    let gain = if raw >= 1 { raw } else { 1 };
    let new_effort = i.current_effort + gain;
    let threshold = if i.digging_up { 300 } else { threshold_of(i.target_tile, i.digging_down) };
    if new_effort >= threshold {
        r matches DigTurnResult::Completed { new_effort: e, result_type, message }
            && e == new_effort && result_type == completion_of(i)
            && message@ == completion_text(completion_of(i))
    } else {
        r matches DigTurnResult::InProgress { new_effort: e, message }
            && e == new_effort
            && message@ == progress_text(new_effort * 100 / threshold) + " ("@ + int_text(new_effort) + "/"@
                + int_text(threshold) + ")"@
    }
}

/// The normal digging step: the effort grows by a draw and the dig is done
/// when it reaches the threshold.
fn dig_progress(input: &DigTurnInput, rng: &mut NetHackRng) -> (r: DigTurnResult)
    requires
        forall|base: int| 10 <= base <= 14 ==> #[trigger] gain_fits(*input, base),
    ensures
        dig_progress_outcome(*input, old(rng)@, r),
        final(rng)@ == rng_next(old(rng)@),
{
    let base = 10 + rng.rn2(5);
    assert(gain_fits(*input, base as int));
    let dwarf_bonus = if input.is_dwarf { 5 } else { 0 };
    let raw = base + input.str_bonus + input.weapon_spe - input.weapon_erosion + input.damage_inc + dwarf_bonus;
    let effort_gain = if raw >= 1 { raw } else { 1 };
    let new_effort = input.current_effort + effort_gain;
    let threshold = if input.digging_up { 300 } else { dig_threshold(input.target_tile, input.digging_down) };
    if new_effort >= threshold {
        let result_type = if input.digging_down {
            DigCompletionType::FloorHole
        } else if input.digging_up {
            DigCompletionType::CeilingBreached
        } else {
            match input.target_tile {
                DigTargetTile::Wall | DigTargetTile::DbWall => DigCompletionType::WallToCorr,
                DigTargetTile::Door | DigTargetTile::SecretDoor => DigCompletionType::DoorOpened,
                DigTargetTile::SecretCorr => DigCompletionType::SecretCorrRevealed,
                DigTargetTile::Tree => DigCompletionType::TreeFelled,
                DigTargetTile::Floor => DigCompletionType::FloorHole,
            }
        };
        let message = match result_type {
            DigCompletionType::WallToCorr => "벽을 관통하는 데 성공했다!".to_string(),
            DigCompletionType::DoorOpened => "문을 부수었다!".to_string(),
            DigCompletionType::FloorHole => "바닥에 구멍을 뚫었다!".to_string(),
            DigCompletionType::CeilingBreached => "천장을 뚫었다!".to_string(),
            DigCompletionType::TreeFelled => "나무를 베어냈다!".to_string(),
            DigCompletionType::SecretCorrRevealed => "숨겨진 통로를 발견했다!".to_string(),
        };
        return DigTurnResult::Completed { new_effort, result_type, message };
    }
    let pct = new_effort * 100 / threshold;
    let progress_msg = if pct < 25 {
        "채굴이 시작되었다."
    } else if pct < 50 {
        "계속 파고 있다."
    } else if pct < 75 {
        "벽이 약해지고 있다."
    } else {
        "거의 다 뚫렸다!"
    };
    let head = concat2(progress_msg, " (");
    let message = text_with_two_ints(head.as_str(), new_effort as i64, "/", threshold as i64, ")");
    DigTurnResult::InProgress { new_effort, message }
}

/// A turn of digging while caught in a bear trap.
fn dig_bear_trap(input: &DigTurnInput, rng: &mut NetHackRng) -> (r: DigTurnResult)
    requires
        input.weapon_spe <= i32::MAX - 5,
    ensures
        ({
            let s0 = old(rng)@;
            let roll = dig_luck_adjust(rng_roll(s0, 7), 7, input.luck as int);
            if roll > (if input.is_fumbling { 1int } else { 4int }) {
                let base = 2 + rng_roll(rng_next(s0), 4);
                let damage = if input.weapon_spe > 0 { base + input.weapon_spe } else { base };
                &&& r matches DigTurnResult::BearTrapSelfHit { damage: d, message }
                    && d == damage
                    && message@ == "곡괭이가 빗나가 자신을 찍었다! (피해: "@ + int_text(damage) + ")"@
                &&& final(rng)@ == rng_next(rng_next(s0))
            } else {
                &&& r matches DigTurnResult::BearTrapBroken { message }
                    && message@ == "곡괭이로 곰 함정을 부수었다!"@
                &&& final(rng)@ == rng_next(s0)
            }
        }),
{
    let ghost s0 = rng@;
    let threshold = if input.is_fumbling { 1 } else { 4 };
    let roll = rnl(7, input.luck, rng);
    if roll > threshold {
        let base_dmg = 2 + rng.rn2(4);
        let damage = if input.weapon_spe > 0 { base_dmg + input.weapon_spe } else { base_dmg };
        DigTurnResult::BearTrapSelfHit {
            damage,
            message: text_with_int("곡괭이가 빗나가 자신을 찍었다! (피해: ", damage as i64, ")"),
        }
    } else {
        DigTurnResult::BearTrapBroken { message: "곡괭이로 곰 함정을 부수었다!".to_string() }
    }
}

/// One turn of digging.
///
/// Caught in a bear trap, the digger either strikes itself (when a
/// luck-adjusted draw from `0..7` exceeds 1 when fumbling or 4 otherwise;
/// the damage is a draw from `2..6` plus any positive enchantment) or breaks
/// the trap. A fumbling digger loses ground one time in three (a second draw
/// from `0..10`, at least 1, taken off the effort, which stays at least 0).
/// Otherwise the effort grows by 10 plus a draw from `0..5`, the strength
/// bonus, the enchantment, less the erosion, plus the damage bonus and 5 for
/// a dwarf, at least 1; the dig is done when the effort reaches the
/// threshold of the target (300 upward).
pub fn dig_turn(input: &DigTurnInput, rng: &mut NetHackRng) -> (r: DigTurnResult)
    requires
        dig_turn_fits(*input),
    ensures
        ({
            let s0 = old(rng)@;
            if input.in_bear_trap {
                let roll = dig_luck_adjust(rng_roll(s0, 7), 7, input.luck as int);
                if roll > (if input.is_fumbling { 1int } else { 4int }) {
                    let base = 2 + rng_roll(rng_next(s0), 4);
                    let damage = if input.weapon_spe > 0 { base + input.weapon_spe } else { base };
                    &&& r matches DigTurnResult::BearTrapSelfHit { damage: d, message }
                        && d == damage
                        && message@ == "곡괭이가 빗나가 자신을 찍었다! (피해: "@ + int_text(damage) + ")"@
                    &&& final(rng)@ == rng_next(rng_next(s0))
                } else {
                    &&& r matches DigTurnResult::BearTrapBroken { message }
                        && message@ == "곡괭이로 곰 함정을 부수었다!"@
                    &&& final(rng)@ == rng_next(s0)
                }
            } else if input.is_fumbling && rng_roll(s0, 3) == 0 {
                let draw = rng_roll(rng_next(s0), 10);
                let loss = if draw >= 1 { draw } else { 1 };
                let left = input.current_effort - loss;
                &&& r matches DigTurnResult::Fumbled { new_effort, message }
                    && new_effort == (if left >= 0 { left } else { 0 })
                    && message@ == "어질거려서 채굴 진행이 후퇴했다. (노력치 -"@ + int_text(loss) + ")"@
                &&& final(rng)@ == rng_next(rng_next(s0))
            } else if input.is_fumbling {
                &&& dig_progress_outcome(*input, rng_next(s0), r)
                &&& final(rng)@ == rng_next(rng_next(s0))
            } else {
                &&& dig_progress_outcome(*input, s0, r)
                &&& final(rng)@ == rng_next(s0)
            }
        }),
{
    let ghost s0 = rng@;
    if input.in_bear_trap {
        return dig_bear_trap(input, rng);
    }
    if input.is_fumbling {
        let fumble_roll = rng.rn2(3);
        if fumble_roll == 0 {
            let draw = rng.rn2(10);
            let loss = if draw >= 1 { draw } else { 1 };
            let left = input.current_effort - loss;
            let new_effort = if left >= 0 { left } else { 0 };
            return DigTurnResult::Fumbled {
                new_effort,
                message: text_with_int("어질거려서 채굴 진행이 후퇴했다. (노력치 -", loss as i64, ")"),
            };
        }
    }
    dig_progress(input, rng)
}

/// What a finished hole does.
#[derive(Debug, Clone, PartialEq, Eq)]
pub enum DigHoleResult {
    /// A pit: the digger stays on this level.
    PitCreated { trap_turns: i32, items_buried: i32, message: String },
    /// A hole: the digger falls to the level below.
    HoleCreated { fall_damage: i32, items_buried: i32, message: String },
    /// The bottom level only yields a pit.
    AtBottom { trap_turns: i32, message: String },
    /// Liquid from nearby flows in.
    LiquidFilled { liquid_type: LiquidType, message: String },
}

/// A kind of liquid.
#[derive(Debug, Clone, Copy, PartialEq, Eq, Structural)]
pub enum LiquidType {
    Water,
    Lava,
    Moat,
}

/// The surroundings of a finished hole.
#[derive(Debug, Clone)]
pub struct DigHoleInput {
    pub is_bottom_level: bool,
    pub adjacent_pools: i32,
    pub adjacent_moats: i32,
    pub adjacent_lava: i32,
    pub items_on_floor: i32,
    pub is_flying: bool,
    pub is_levitating: bool,
    pub depth: i32,
}

/// The liquid that fills a hole: lava when there is lava and no more pools
/// or moats; else a moat when there is a moat and no more pools; else water.
pub open spec fn liquid_of(i: DigHoleInput) -> LiquidType {
    if i.adjacent_lava > 0 && i.adjacent_lava >= i.adjacent_pools && i.adjacent_lava >= i.adjacent_moats {
        LiquidType::Lava
    } else if i.adjacent_moats > 0 && i.adjacent_moats >= i.adjacent_pools {
        LiquidType::Moat
    } else {
        LiquidType::Water
    }
}

/// The message for liquid flowing into a hole.
pub open spec fn liquid_text(t: LiquidType) -> Seq<char> {
    match t {
        LiquidType::Lava => "용암이 구멍으로 흘러들어온다!"@,
        LiquidType::Moat => "해자의 물이 흘러들어온다!"@,
        LiquidType::Water => "물이 구멍으로 흘러들어온다!"@,
    }
}

/// The total of the first `n` six-sided dice drawn from the state `s`.
pub open spec fn fall_sum(s: u64, n: nat) -> int
    decreases n,
{
    if n == 0 {
        0
    } else {
        fall_sum(s, (n - 1) as nat) + rng_roll(rng_after(s, (n - 1) as nat), 6) + 1
    }
}

/// The number of dice of falling damage at `depth`: the depth kept in `1..=10`.
pub open spec fn fall_dice(depth: int) -> nat {
    if depth < 1 { 1 } else if depth > 10 { 10 } else { depth as nat }
}

/// The items buried by a hole: at most 5.
pub open spec fn buried_of(items: int) -> int {
    if items < 5 { items } else { 5 }
}

proof fn lemma_fall_sum_bounds(s: u64, n: nat)
    ensures
        n <= fall_sum(s, n) <= 6 * n,
    decreases n,
{
    if n > 0 {
        lemma_fall_sum_bounds(s, (n - 1) as nat);
        lemma_roll_range(rng_after(s, (n - 1) as nat), 6);
    }
}

proof fn lemma_roll_range(s: u64, x: int)
    requires
        x > 0,
    ensures
        0 <= rng_roll(s, x) < x,
{
    reveal(rng_roll);
}

/// What happens when a hole is finished.
///
/// Liquid nearby flows in (no draw). On the bottom level only a pit forms,
/// holding the digger for 2 plus a draw from `0..4` turns. A flying or
/// levitating digger makes a hole without falling. Otherwise the digger
/// falls, taking the sum of `depth` six-sided dice (1 to 10 of them). Up to
/// 5 items on the floor are buried.
pub fn dig_actual_hole(input: &DigHoleInput, rng: &mut NetHackRng) -> (r: DigHoleResult)
    requires
        i32::MIN <= input.adjacent_pools + input.adjacent_moats <= i32::MAX,
        i32::MIN <= input.adjacent_pools + input.adjacent_moats + input.adjacent_lava <= i32::MAX,
    ensures
        ({
            let s0 = old(rng)@;
            if input.adjacent_pools + input.adjacent_moats + input.adjacent_lava > 0 {
                &&& r matches DigHoleResult::LiquidFilled { liquid_type, message }
                    && liquid_type == liquid_of(*input) && message@ == liquid_text(liquid_of(*input))
                &&& final(rng)@ == s0
            } else if input.is_bottom_level {
                &&& r matches DigHoleResult::AtBottom { trap_turns, message }
                    && trap_turns == 2 + rng_roll(s0, 4)
                    && message@ == "바닥이 너무 단단해 구덩이만 파졌다."@
                &&& final(rng)@ == rng_next(s0)
            } else if input.is_flying || input.is_levitating {
                &&& r matches DigHoleResult::HoleCreated { fall_damage, items_buried, message }
                    && fall_damage == 0 && items_buried == buried_of(input.items_on_floor as int)
                    && message@ == "바닥에 구멍을 뚫었다! 공중에 떠 있어 떨어지지 않았다."@
                &&& final(rng)@ == s0
            } else {
                let n = fall_dice(input.depth as int);
                &&& r matches DigHoleResult::HoleCreated { fall_damage, items_buried, message }
                    && fall_damage == fall_sum(s0, n) && items_buried == buried_of(input.items_on_floor as int)
                    && message@ == "바닥에 구멍이 뚫려 아래층으로 떨어졌다! (피해: "@ + int_text(fall_sum(s0, n)) + ")"@
                &&& final(rng)@ == rng_after(s0, n)
            }
        }),
{
    let ghost s0 = rng@;
    let total_liquid = input.adjacent_pools + input.adjacent_moats + input.adjacent_lava;
    if total_liquid > 0 {
        let liquid_type = if input.adjacent_lava > 0 && input.adjacent_lava >= input.adjacent_pools
            && input.adjacent_lava >= input.adjacent_moats {
            LiquidType::Lava
        } else if input.adjacent_moats > 0 && input.adjacent_moats >= input.adjacent_pools {
            LiquidType::Moat
        } else {
            LiquidType::Water
        };
        let message = match liquid_type {
            LiquidType::Lava => "용암이 구멍으로 흘러들어온다!".to_string(),
            LiquidType::Moat => "해자의 물이 흘러들어온다!".to_string(),
            LiquidType::Water => "물이 구멍으로 흘러들어온다!".to_string(),
        };
        return DigHoleResult::LiquidFilled { liquid_type, message };
    }
    if input.is_bottom_level {
        let trap_turns = 2 + rng.rn2(4);
        return DigHoleResult::AtBottom { trap_turns, message: "바닥이 너무 단단해 구덩이만 파졌다.".to_string() };
    }
    let items_buried = if input.items_on_floor < 5 { input.items_on_floor } else { 5 };
    if input.is_flying || input.is_levitating {
        return DigHoleResult::HoleCreated {
            fall_damage: 0,
            items_buried,
            message: "바닥에 구멍을 뚫었다! 공중에 떠 있어 떨어지지 않았다.".to_string(),
        };
    }
    let dice: i32 = if input.depth < 1 { 1 } else if input.depth > 10 { 10 } else { input.depth };
    let mut total: i32 = 0;
    let mut k: i32 = 0;
    while k < dice
        invariant
            0 <= k <= dice <= 10,
            dice == fall_dice(input.depth as int),
            total == fall_sum(s0, k as nat),
            rng@ == rng_after(s0, k as nat),
        decreases dice - k,
    {
        proof {
            lemma_fall_sum_bounds(s0, k as nat);
        }
        let d = rng.rn2(6);
        total = total + 1 + d;
        k = k + 1;
    }
    DigHoleResult::HoleCreated {
        fall_damage: total,
        items_buried,
        message: text_with_int("바닥에 구멍이 뚫려 아래층으로 떨어졌다! (피해: ", total as i64, ")"),
    }
}

/// The outcome of digging upward.
#[derive(Debug, Clone, PartialEq, Eq)]
pub enum DigUpResult {
    /// The ceiling gives way.
    Breached { debris_damage: i32, message: String },
    /// There is nothing above.
    AtTop { message: String },
    /// This level's ceiling cannot be dug.
    SpecialLevel { message: String },
}

/// Digs upward: impossible on the top level or a special level; otherwise
/// the ceiling gives way and debris does a draw from `1..=depth + 10` (at
/// least `1..=1`).
pub fn dig_up_result(is_top_level: bool, is_special_level: bool, depth: i32, rng: &mut NetHackRng) -> (r: DigUpResult)
    requires
        depth <= i32::MAX - 10,
    ensures
        is_top_level ==> (r matches DigUpResult::AtTop { message } && message@ == "여기서 더 위로 파낼 수 없다."@)
            && final(rng)@ == old(rng)@,
        !is_top_level && is_special_level ==> (r matches DigUpResult::SpecialLevel { message }
            && message@ == "이 레벨의 천장은 너무 단단해서 파낼 수 없다."@) && final(rng)@ == old(rng)@,
        !is_top_level && !is_special_level ==> {
            let bound = if depth + 10 >= 1 { depth + 10 } else { 1 };
            let dmg = 1 + rng_roll(old(rng)@, bound);
            &&& r matches DigUpResult::Breached { debris_damage, message }
                && debris_damage == dmg
                && message@ == "천장을 뚫었다! 파편이 떨어진다. (피해: "@ + int_text(dmg) + ")"@
            &&& final(rng)@ == rng_next(old(rng)@)
        },
{
    if is_top_level {
        return DigUpResult::AtTop { message: "여기서 더 위로 파낼 수 없다.".to_string() };
    }
    if is_special_level {
        return DigUpResult::SpecialLevel { message: "이 레벨의 천장은 너무 단단해서 파낼 수 없다.".to_string() };
    }
    let bound = if depth + 10 >= 1 { depth + 10 } else { 1 };
    let debris_damage = 1 + rng.rn2(bound);
    DigUpResult::Breached {
        debris_damage,
        message: text_with_int("천장을 뚫었다! 파편이 떨어진다. (피해: ", debris_damage as i64, ")"),
    }
}

/// A shopkeeper's reaction to digging.
#[derive(Debug, Clone, PartialEq, Eq)]
pub enum WatchDigResult {
    /// Digging in the shop puts the digger in debt.
    Debt { amount: i64, message: String },
    /// Not in a shop.
    NoShop,
    /// No shopkeeper is present.
    NoShopkeeper,
}

/// The bill for digging in a shop: the wall repair cost, at least 50, for a
/// wall; half of it, at least 25, for the floor.
pub fn watch_dig_result(in_shop: bool, shopkeeper_alive: bool, is_wall: bool, wall_repair_cost: i64) -> (r: WatchDigResult)
    ensures
        !in_shop ==> r == WatchDigResult::NoShop,
        in_shop && !shopkeeper_alive ==> r == WatchDigResult::NoShopkeeper,
        in_shop && shopkeeper_alive ==> {
            let amount = if is_wall {
                if wall_repair_cost > 50 { wall_repair_cost as int } else { 50 }
            } else {
                if wall_repair_cost / 2 > 25 { wall_repair_cost / 2 } else { 25 }
            };
            r matches WatchDigResult::Debt { amount: a, message }
                && a == amount
                && message@ == "\"이봐! 내 가게를 파괴하다니!\" (부채 +"@ + int_text(amount) + "금)"@
        },
{
    if !in_shop {
        return WatchDigResult::NoShop;
    }
    if !shopkeeper_alive {
        return WatchDigResult::NoShopkeeper;
    }
    let amount = if is_wall {
        if wall_repair_cost > 50 { wall_repair_cost } else { 50 }
    } else {
        let half = wall_repair_cost / 2;
        if half > 25 { half } else { 25 }
    };
    WatchDigResult::Debt {
        amount,
        message: text_with_int("\"이봐! 내 가게를 파괴하다니!\" (부채 +", amount, "금)"),
    }
}

/// A digging beam striking the floor.
#[derive(Debug, Clone, PartialEq, Eq)]
pub enum ZapFloorResult {
    /// It bores a hole.
    HoleMade { message: String },
    /// Water or lava swallows it.
    AbsorbedByLiquid { liquid: String, message: String },
    /// The floor resists it.
    Resisted { message: String },
}

/// A digging beam striking the floor: water or lava absorbs it, an
/// undiggable floor or the bottom level resists it, a room or corridor floor
/// is holed, any other floor resists.
pub fn zap_floor_result(
    tile_is_room_or_corr: bool,
    is_pool: bool,
    is_lava: bool,
    is_bottom_level: bool,
    is_nondiggable: bool,
) -> (r: ZapFloorResult)
    ensures
        is_pool ==> (r matches ZapFloorResult::AbsorbedByLiquid { liquid, message }
            && liquid@ == "water"@ && message@ == "채굴 빔이 물에 흡수되었다."@),
        !is_pool && is_lava ==> (r matches ZapFloorResult::AbsorbedByLiquid { liquid, message }
            && liquid@ == "lava"@ && message@ == "채굴 빔이 용암에 흡수되었다."@),
        !is_pool && !is_lava && (is_nondiggable || is_bottom_level) ==> (r matches ZapFloorResult::Resisted { message }
            && message@ == "바닥이 너무 단단해서 빔이 반사되었다."@),
        !is_pool && !is_lava && !is_nondiggable && !is_bottom_level && tile_is_room_or_corr
            ==> (r matches ZapFloorResult::HoleMade { message } && message@ == "채굴 빔이 바닥을 관통했다!"@),
        !is_pool && !is_lava && !is_nondiggable && !is_bottom_level && !tile_is_room_or_corr
            ==> (r matches ZapFloorResult::Resisted { message } && message@ == "이 바닥에는 채굴 빔이 효과가 없다."@),
{
    if is_pool {
        return ZapFloorResult::AbsorbedByLiquid {
            liquid: "water".to_string(),
            message: "채굴 빔이 물에 흡수되었다.".to_string(),
        };
    }
    if is_lava {
        return ZapFloorResult::AbsorbedByLiquid {
            liquid: "lava".to_string(),
            message: "채굴 빔이 용암에 흡수되었다.".to_string(),
        };
    }
    if is_nondiggable || is_bottom_level {
        return ZapFloorResult::Resisted { message: "바닥이 너무 단단해서 빔이 반사되었다.".to_string() };
    }
    if tile_is_room_or_corr {
        return ZapFloorResult::HoleMade { message: "채굴 빔이 바닥을 관통했다!".to_string() };
    }
    ZapFloorResult::Resisted { message: "이 바닥에는 채굴 빔이 효과가 없다.".to_string() }
}

/// What a finished sideways dig (neither down nor up) makes of its target:
/// a door or a secret door is broken open, a wall or a drawbridge wall
/// becomes corridor, a tree is felled, a secret corridor is revealed, and
/// digging at the floor makes a hole.
pub proof fn sideways_dig_results(i: DigTurnInput, s: u64, r: DigTurnResult)
    requires
        !i.digging_down,
        !i.digging_up,
        dig_progress_outcome(i, s, r),
        r is Completed,
    ensures
        r matches DigTurnResult::Completed { result_type, message, .. } && match i.target_tile {
            DigTargetTile::Door | DigTargetTile::SecretDoor => result_type == DigCompletionType::DoorOpened
                && message@ == "문을 부수었다!"@,
            DigTargetTile::Wall | DigTargetTile::DbWall => result_type == DigCompletionType::WallToCorr
                && message@ == "벽을 관통하는 데 성공했다!"@,
            DigTargetTile::Tree => result_type == DigCompletionType::TreeFelled
                && message@ == "나무를 베어냈다!"@,
            DigTargetTile::SecretCorr => result_type == DigCompletionType::SecretCorrRevealed
                && message@ == "숨겨진 통로를 발견했다!"@,
            DigTargetTile::Floor => result_type == DigCompletionType::FloorHole
                && message@ == "바닥에 구멍을 뚫었다!"@,
        },
{
}

} // verus!
