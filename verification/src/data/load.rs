//! Copies of content records out of the registry.
use vstd::prelude::*;
use crate::error::{ContentError, Fault, fault_of};
use crate::data::schema::{ContentRegistry, ItemData, MonsterData, LevelData, WallData, DoorData,
    HiddenDoorData, HiddenTrapData, LevelMonsterData, LevelItemData, has_key, Keyed};

verus! {

fn copy_text(s: &Option<String>) -> (r: Option<String>)
    ensures
        r == *s,
{
    match s {
        Some(t) => Some(t.clone()),
        None => None,
    }
}

fn copy_coords(v: &Vec<i16>) -> (r: Vec<i16>)
    ensures
        r@ == v@,
{
    let mut out: Vec<i16> = Vec::new();
    let mut k: usize = 0;
    while k < v.len()
        invariant
            k <= v@.len(),
            out@ == v@.take(k as int),
        decreases v@.len() - k,
    {
        out.push(v[k]);
        k = k + 1;
        proof { assert(out@ == v@.take(k as int)); }
    }
    proof { assert(v@.take(v@.len() as int) == v@); }
    out
}

fn copy_opt_coords(v: &Option<Vec<i16>>) -> (r: Option<Vec<i16>>)
    ensures
        match (r, *v) {
            (Some(a), Some(b)) => a@ == b@,
            (None, None) => true,
            _ => false,
        },
{
    match v {
        Some(c) => Some(copy_coords(c)),
        None => None,
    }
}

/// An equal copy of an item definition.
pub fn copy_item(d: &ItemData) -> (r: ItemData)
    ensures
        r == *d,
{
    ItemData {
        id: d.id.clone(),
        kind: d.kind.clone(),
        glyph: d.glyph.clone(),
        weight: d.weight,
        slot: copy_text(&d.slot),
        hit_bonus: d.hit_bonus,
        damage: copy_text(&d.damage),
        effect: copy_text(&d.effect),
        charges: d.charges,
        nutrition: d.nutrition,
        ac_bonus: d.ac_bonus,
        base_price: d.base_price,
    }
}

/// An equal copy of a monster definition.
pub fn copy_monster(d: &MonsterData) -> (r: MonsterData)
    ensures
        r == *d,
{
    MonsterData {
        id: d.id.clone(),
        glyph: d.glyph.clone(),
        hp: d.hp,
        ac: d.ac,
        hit_bonus: d.hit_bonus,
        damage: d.damage.clone(),
        ai: d.ai.clone(),
        speed: d.speed,
        difficulty: d.difficulty,
        passive: copy_text(&d.passive),
    }
}

/// All item definitions, sorted by identifier.
pub fn load_items(registry: &ContentRegistry) -> (r: Result<Vec<ItemData>, ContentError>)
    ensures
        r matches Ok(v) && v@ == registry.item_seq(),
{
    let src = registry.items();
    let mut out: Vec<ItemData> = Vec::new();
    let mut k: usize = 0;
    while k < src.len()
        invariant
            k <= src@.len(),
            src@ == registry.item_seq(),
            out@ == src@.take(k as int),
        decreases src@.len() - k,
    {
        out.push(copy_item(&src[k]));
        k = k + 1;
        proof { assert(out@ == src@.take(k as int)); }
    }
    proof { assert(src@.take(src@.len() as int) == src@); }
    Ok(out)
}

/// All monster definitions, sorted by identifier.
pub fn load_monsters(registry: &ContentRegistry) -> (r: Result<Vec<MonsterData>, ContentError>)
    ensures
        r matches Ok(v) && v@ == registry.monster_seq(),
{
    let src = registry.monsters();
    let mut out: Vec<MonsterData> = Vec::new();
    let mut k: usize = 0;
    while k < src.len()
        invariant
            k <= src@.len(),
            src@ == registry.monster_seq(),
            out@ == src@.take(k as int),
        decreases src@.len() - k,
    {
        out.push(copy_monster(&src[k]));
        k = k + 1;
        proof { assert(out@ == src@.take(k as int)); }
    }
    proof { assert(src@.take(src@.len() as int) == src@); }
    Ok(out)
}

/// The definition of level `level_id`; `UnknownReference` (owner
/// `load_level`) when there is none. The copy shares every field with the
/// stored definition: the same identifier, branch, size and positions.
pub fn load_level(registry: &ContentRegistry, level_id: &str) -> (r: Result<LevelData, ContentError>)
    ensures
        has_key(registry.level_seq(), level_id@) ==> (r matches Ok(l) && l.level_id@ == level_id@
            && exists|i: int| 0 <= i < registry.level_seq().len() && #[trigger] registry.level_seq()[i].level_id@
                == level_id@ && same_level(l, registry.level_seq()[i])),
        !has_key(registry.level_seq(), level_id@) ==> (r matches Err(e)
            && fault_of(e) == Fault::Unknown("load_level"@, level_id@)),
{
    match registry.level(level_id) {
        Some(l) => {
            let c = copy_level(l);
            proof {
                let i = choose|i: int| 0 <= i < registry.level_seq().len() && registry.level_seq()[i] == *l;
                assert(registry.level_seq()[i].level_id@ == level_id@);
                assert(registry.level_seq()[i].key() == level_id@);
                assert(has_key(registry.level_seq(), level_id@));
            }
            Ok(c)
        },
        None => {
            let owner = "load_level".to_string();
            let target = level_id.to_string();
            assert(owner@ == "load_level"@);
            assert(target@ == level_id@);
            Err(ContentError::UnknownReference { owner, target })
        },
    }
}

/// Two level definitions agree field by field, positions by value.
pub open spec fn same_level(a: LevelData, b: LevelData) -> bool {
    &&& a.level_id == b.level_id && a.branch == b.branch && a.depth == b.depth
    &&& a.width == b.width && a.height == b.height
    &&& a.player_start@ == b.player_start@
    &&& a.stairs_down.is_some() == b.stairs_down.is_some()
    &&& a.stairs_up.is_some() == b.stairs_up.is_some()
    &&& (a.stairs_down matches Some(p) ==> b.stairs_down matches Some(q) && p@ == q@)
    &&& (a.stairs_up matches Some(p) ==> b.stairs_up matches Some(q) && p@ == q@)
}

fn copy_level(l: &LevelData) -> (r: LevelData)
    ensures
        same_level(r, *l),
{
    LevelData {
        level_id: l.level_id.clone(),
        branch: l.branch.clone(),
        depth: l.depth,
        width: l.width,
        height: l.height,
        player_start: copy_coords(&l.player_start),
        stairs_down: copy_opt_coords(&l.stairs_down),
        stairs_up: copy_opt_coords(&l.stairs_up),
        wall: copy_walls(&l.wall),
        door: copy_doors(&l.door),
        hidden_door: copy_hidden_doors(&l.hidden_door),
        hidden_trap: copy_hidden_traps(&l.hidden_trap),
        monster: copy_level_monsters(&l.monster),
        item: copy_level_items(&l.item),
    }
}

fn copy_walls(v: &Option<Vec<WallData>>) -> (r: Option<Vec<WallData>>)
    ensures
        r.is_some() == v.is_some(),
{
    match v {
        Some(ws) => {
            let mut out: Vec<WallData> = Vec::new();
            let mut k: usize = 0;
            while k < ws.len()
                invariant
                    k <= ws@.len(),
                decreases ws@.len() - k,
            {
                out.push(WallData { x: ws[k].x, y_range: copy_coords(&ws[k].y_range) });
                k = k + 1;
            }
            Some(out)
        },
        None => None,
    }
}

fn copy_doors(v: &Option<Vec<DoorData>>) -> (r: Option<Vec<DoorData>>)
    ensures
        r.is_some() == v.is_some(),
{
    match v {
        Some(ds) => {
            let mut out: Vec<DoorData> = Vec::new();
            let mut k: usize = 0;
            while k < ds.len()
                invariant
                    k <= ds@.len(),
                decreases ds@.len() - k,
            {
                out.push(DoorData { pos: copy_coords(&ds[k].pos), state: ds[k].state.clone() });
                k = k + 1;
            }
            Some(out)
        },
        None => None,
    }
}

fn copy_hidden_doors(v: &Option<Vec<HiddenDoorData>>) -> (r: Option<Vec<HiddenDoorData>>)
    ensures
        r.is_some() == v.is_some(),
{
    match v {
        Some(ds) => {
            let mut out: Vec<HiddenDoorData> = Vec::new();
            let mut k: usize = 0;
            while k < ds.len()
                invariant
                    k <= ds@.len(),
                decreases ds@.len() - k,
            {
                out.push(HiddenDoorData { pos: copy_coords(&ds[k].pos), tile: ds[k].tile.clone() });
                k = k + 1;
            }
            Some(out)
        },
        None => None,
    }
}

fn copy_hidden_traps(v: &Option<Vec<HiddenTrapData>>) -> (r: Option<Vec<HiddenTrapData>>)
    ensures
        r.is_some() == v.is_some(),
{
    match v {
        Some(ds) => {
            let mut out: Vec<HiddenTrapData> = Vec::new();
            let mut k: usize = 0;
            while k < ds.len()
                invariant
                    k <= ds@.len(),
                decreases ds@.len() - k,
            {
                out.push(HiddenTrapData { pos: copy_coords(&ds[k].pos), trap: ds[k].trap.clone(),
                    tile: ds[k].tile.clone() });
                k = k + 1;
            }
            Some(out)
        },
        None => None,
    }
}

fn copy_level_monsters(v: &Option<Vec<LevelMonsterData>>) -> (r: Option<Vec<LevelMonsterData>>)
    ensures
        r.is_some() == v.is_some(),
{
    match v {
        Some(ds) => {
            let mut out: Vec<LevelMonsterData> = Vec::new();
            let mut k: usize = 0;
            while k < ds.len()
                invariant
                    k <= ds@.len(),
                decreases ds@.len() - k,
            {
                out.push(LevelMonsterData { id: ds[k].id.clone(), pos: copy_coords(&ds[k].pos) });
                k = k + 1;
            }
            Some(out)
        },
        None => None,
    }
}

fn copy_level_items(v: &Option<Vec<LevelItemData>>) -> (r: Option<Vec<LevelItemData>>)
    ensures
        r.is_some() == v.is_some(),
{
    match v {
        Some(ds) => {
            let mut out: Vec<LevelItemData> = Vec::new();
            let mut k: usize = 0;
            while k < ds.len()
                invariant
                    k <= ds@.len(),
                decreases ds@.len() - k,
            {
                out.push(LevelItemData { id: ds[k].id.clone(), pos: copy_coords(&ds[k].pos) });
                k = k + 1;
            }
            Some(out)
        },
        None => None,
    }
}

} // verus!
