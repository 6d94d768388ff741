//! Typed, null-safe introspection over a host process whose object layout is
//! only known at run time: a table of discovered field offsets, a resolver for
//! virtual-table slots, and views that turn raw addresses and handles into
//! typed objects.
//!
//! Nothing here reads the memory of the host. What the host holds is handed
//! in as plain values, and what is to be read or written is handed out as
//! addresses.

use vstd::prelude::*;
use crate::classes::entity::{CEntity, EntityState};
use crate::interface::Interface;
use crate::utils::memory::NotNull;

pub mod classes;
pub mod definitions;
pub mod interface;
pub mod interfaces;
pub mod netvar;
pub mod utils;

verus! {

/// The answer of the directory of live objects for one index, with what
/// the host says of the entity there.
#[derive(Debug, Clone, Copy)]
pub struct EntityReport {
    /// The address that the directory answered with; 0 where the index
    /// names no object.
    pub address: usize,
    /// What the host says of the entity. It counts only where there is one.
    pub state: EntityState,
}

/// The addresses among `reported`, in their order, that are not 0.
pub open spec fn live_addresses(reported: Seq<usize>) -> Seq<usize>
    decreases reported.len(),
{
    if reported.len() == 0 {
        Seq::empty()
    } else if reported.last() != 0 {
        live_addresses(reported.drop_last()).push(reported.last())
    } else {
        live_addresses(reported.drop_last())
    }
}

/// Whether `report` is of a player to reckon with, seen from the local
/// player at `local`: there is an entity, it is a player that is alive and
/// kept up to date, and it is not the local player.
pub open spec fn is_valid_report(report: EntityReport, local: usize) -> bool {
    &&& report.address != 0
    &&& report.state.is_player
    &&& report.state.is_alive
    &&& !report.state.is_dormant
    &&& report.address != local
}

/// The addresses of the players to reckon with among `reports`, in their
/// order.
pub open spec fn valid_players(reports: Seq<EntityReport>, local: usize) -> Seq<usize>
    decreases reports.len(),
{
    if reports.len() == 0 {
        Seq::empty()
    } else if is_valid_report(reports.last(), local) {
        valid_players(reports.drop_last(), local).push(reports.last().address)
    } else {
        valid_players(reports.drop_last(), local)
    }
}

/// The addresses that the views in `views` hold, in their order.
pub open spec fn addresses(views: Seq<CEntity>) -> Seq<usize> {
    views.map_values(|view: CEntity| view.address())
}

/// Whether `at` is the place of the closest of `players`, each of which
/// comes with its distance: none is closer, and none before it is as close.
pub open spec fn is_closest(players: Seq<(CEntity, u32)>, at: int) -> bool {
    &&& 0 <= at < players.len()
    &&& forall|j: int| 0 <= j < players.len() ==> players[at].1 <= (#[trigger] players[j]).1
    &&& forall|j: int| 0 <= j < at ==> players[at].1 < (#[trigger] players[j]).1
}

/// The closest of `players`, if there is any. Each player comes with a
/// number that grows with its distance from the local player. Of two
/// players that are equally close, the one that comes first is chosen.
pub fn search_closest_entity(players: &Vec<(CEntity, u32)>) -> (closest: Option<CEntity>)
    ensures
        closest is None <==> players@.len() == 0,
        closest is Some ==> exists|at: int|
            is_closest(players@, at) && closest->0.address() == (#[trigger] players@[at]).0.address(),
{
    if players.len() == 0 {
        return None;
    }
    let mut best: usize = 0;
    let mut i: usize = 1;
    while i < players.len()
        invariant
            0 <= best < i <= players@.len(),
            forall|j: int| 0 <= j < i ==> players@[best as int].1 <= (#[trigger] players@[j]).1,
            forall|j: int| 0 <= j < best ==> players@[best as int].1 < (#[trigger] players@[j]).1,
        decreases players@.len() - i,
    {
        if players[i].1 < players[best].1 {
            best = i;
        }
        i += 1;
    }
    assert(is_closest(players@, best as int));
    Some(players[best].0)
}

/// The players to reckon with, in the order of their indices. `reports`
/// holds, for each index from 0 up to the host's count of clients, the
/// answer of the directory of live objects.
pub fn get_all_players(reports: &Vec<EntityReport>, local_player: &CEntity) -> (players: Vec<
    CEntity,
>)
    ensures
        addresses(players@) == valid_players(reports@, local_player.address()),
{
    let mut players: Vec<CEntity> = Vec::new();
    let mut id: usize = 0;
    proof {
        assert(reports@.take(0) =~= Seq::empty());
        assert(addresses(players@) =~= Seq::empty());
    }
    while id < reports.len()
        invariant
            id <= reports@.len(),
            addresses(players@) == valid_players(
                reports@.take(id as int),
                local_player.address(),
            ),
        decreases reports@.len() - id,
    {
        let report = &reports[id];
        proof {
            assert(reports@.take(id + 1).drop_last() =~= reports@.take(id as int));
            assert(reports@.take(id + 1).last() == reports@[id as int]);
        }
        let ghost before = players@;
        match get_entity_by_id(report.address) {
            Some(entity) => {
                if entity.is_valid_player(&report.state, local_player) {
                    players.push(entity);
                    proof {
                        assert(addresses(players@) =~= addresses(before).push(entity.address()));
                    }
                }
            },
            None => {},
        }
        id += 1;
    }
    proof {
        assert(reports@.take(reports@.len() as int) =~= reports@);
    }
    players
}

/// The entities that are there, in the order of their indices. `reported`
/// holds, for each index from 0 up to the highest index in use, the address
/// that the directory of live objects answered with.
pub fn get_all_entities(reported: &Vec<usize>) -> (entities: Vec<CEntity>)
    ensures
        addresses(entities@) == live_addresses(reported@),
{
    let mut entities: Vec<CEntity> = Vec::new();
    let mut id: usize = 0;
    proof {
        assert(reported@.take(0) =~= Seq::empty());
        assert(addresses(entities@) =~= Seq::empty());
    }
    while id < reported.len()
        invariant
            id <= reported@.len(),
            addresses(entities@) == live_addresses(reported@.take(id as int)),
        decreases reported@.len() - id,
    {
        proof {
            assert(reported@.take(id + 1).drop_last() =~= reported@.take(id as int));
            assert(reported@.take(id + 1).last() == reported@[id as int]);
        }
        let ghost before = entities@;
        match get_entity_by_id(reported[id]) {
            Some(entity) => {
                entities.push(entity);
                proof {
                    assert(addresses(entities@) =~= addresses(before).push(entity.address()));
                }
            },
            None => {},
        }
        id += 1;
    }
    proof {
        assert(reported@.take(reported@.len() as int) =~= reported@);
    }
    entities
}

/// The view of the local player, for whose index the directory of live
/// objects answered with the address `reported`. There is always a local
/// player while the host is in a game.
pub fn get_local_player(reported: usize) -> (player: CEntity)
    requires
        reported != 0,
    ensures
        player.address() == reported,
{
    CEntity::from_raw_unchecked(reported)
}

/// The entity for whose index the directory of live objects answered with
/// the address `reported`: no entity where that is 0.
pub fn get_entity_by_id(reported: usize) -> (entity: Option<CEntity>)
    ensures
        entity is None <==> reported == 0,
        entity is Some ==> entity->0.address() == reported,
{
    NotNull::new(CEntity::from_raw_unchecked(reported)).get()
}

} // verus!
