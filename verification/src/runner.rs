//! Bookkeeping of the interactive headless runner: the two-way map between
//! engine entities and the ids shown to the AI controller, and the choices
//! the runner makes when it turns a command into engine work.

use crate::text::{decimal, decimal_digits, text_eq};
use std::collections::HashMap;
use vstd::prelude::*;

verus! {

broadcast use vstd::std_specs::hash::group_hash_axioms;

/// Entity id mapping from engine entities (by their 64-bit handle) to the
/// external ids handed to the controller, and back.
#[derive(Debug)]
pub struct EntityIdMap {
    next_id: u32,
    to_external: HashMap<u64, u32>,
    to_internal: HashMap<u32, u64>,
}

impl EntityIdMap {
    /// Engine entity to external id.
    pub closed spec fn forward(&self) -> Map<u64, u32> {
        self.to_external@
    }

    /// External id to engine entity.
    pub closed spec fn backward(&self) -> Map<u32, u64> {
        self.to_internal@
    }

    /// The id the next new entity receives.
    pub closed spec fn spec_next_id(&self) -> u32 {
        self.next_id
    }

    /// The two maps are inverse to each other, and every issued id lies
    /// below the next one to be issued.
    pub closed spec fn wf(&self) -> bool {
        &&& forall|e: u64| #[trigger]
            self.to_external@.contains_key(e) ==> self.to_internal@.contains_key(
                self.to_external@[e],
            ) && self.to_internal@[self.to_external@[e]] == e && self.to_external@[e]
                < self.next_id
        &&& forall|id: u32| #[trigger]
            self.to_internal@.contains_key(id) ==> self.to_external@.contains_key(
                self.to_internal@[id],
            ) && self.to_external@[self.to_internal@[id]] == id
    }

    /// An empty map that issues ids from zero.
    pub fn new() -> (m: Self)
        ensures
            m.wf(),
            m.forward() == Map::<u64, u32>::empty(),
            m.backward() == Map::<u32, u64>::empty(),
            m.spec_next_id() == 0,
    {
        EntityIdMap { next_id: 0, to_external: HashMap::new(), to_internal: HashMap::new() }
    }

    /// The id the next new entity will receive.
    pub fn next_id(&self) -> (n: u32)
        ensures
            n == self.spec_next_id(),
    {
        self.next_id
    }

    /// External id of `entity`, issuing a fresh one on first sight.
    pub fn register(&mut self, entity: u64) -> (id: u32)
        requires
            old(self).wf(),
            old(self).forward().contains_key(entity) || old(self).spec_next_id() < u32::MAX,
        ensures
            final(self).wf(),
            old(self).forward().contains_key(entity) ==> {
                &&& id == old(self).forward()[entity]
                &&& final(self).forward() == old(self).forward()
                &&& final(self).backward() == old(self).backward()
                &&& final(self).spec_next_id() == old(self).spec_next_id()
            },
            !old(self).forward().contains_key(entity) ==> {
                &&& id == old(self).spec_next_id()
                &&& final(self).spec_next_id() == old(self).spec_next_id() + 1
                &&& final(self).forward() == old(self).forward().insert(entity, id)
                &&& final(self).backward() == old(self).backward().insert(id, entity)
            },
    {
        match self.to_external.get(&entity) {
            Some(id) => *id,
            None => {
                let id = self.next_id;
                assert(!self.to_internal@.contains_key(id));
                self.next_id = self.next_id + 1;
                self.to_external.insert(entity, id);
                self.to_internal.insert(id, entity);
                id
            },
        }
    }

    /// Engine entity behind an external id.
    pub fn lookup(&self, external_id: u32) -> (e: Option<u64>)
        ensures
            e == if self.backward().contains_key(external_id) {
                Some(self.backward()[external_id])
            } else {
                None::<u64>
            },
    {
        match self.to_internal.get(&external_id) {
            Some(e) => Some(*e),
            None => None,
        }
    }

    /// External id of an engine entity.
    pub fn lookup_external(&self, entity: u64) -> (id: Option<u32>)
        ensures
            id == if self.forward().contains_key(entity) {
                Some(self.forward()[entity])
            } else {
                None::<u32>
            },
    {
        match self.to_external.get(&entity) {
            Some(id) => Some(*id),
            None => None,
        }
    }

    /// Forgets an entity and its external id; the id is never reissued.
    pub fn remove(&mut self, entity: u64)
        requires
            old(self).wf(),
        ensures
            final(self).wf(),
            final(self).spec_next_id() == old(self).spec_next_id(),
            final(self).forward() == old(self).forward().remove(entity),
            final(self).backward() == if old(self).forward().contains_key(entity) {
                old(self).backward().remove(old(self).forward()[entity])
            } else {
                old(self).backward()
            },
    {
        match self.to_external.remove(&entity) {
            Some(id) => {
                self.to_internal.remove(&id);
            },
            None => {},
        }
    }
}

impl Default for EntityIdMap {
    fn default() -> (m: Self)
        ensures
            m.wf(),
            m.forward() == Map::<u64, u32>::empty(),
            m.backward() == Map::<u32, u64>::empty(),
            m.spec_next_id() == 0,
    {
        EntityIdMap::new()
    }
}

/// What a lookup returns after a registration: the controller's id leads
/// back to the entity, and the entity to that id.
pub proof fn lemma_register_then_lookup(m: EntityIdMap, entity: u64, id: u32, after: EntityIdMap)
    requires
        m.wf(),
        after.wf(),
        m.forward().contains_key(entity) ==> id == m.forward()[entity] && after.forward()
            == m.forward() && after.backward() == m.backward(),
        !m.forward().contains_key(entity) ==> id == m.spec_next_id() && after.forward()
            == m.forward().insert(entity, id) && after.backward() == m.backward().insert(
            id,
            entity,
        ),
    ensures
        after.forward().contains_key(entity) && after.forward()[entity] == id,
        after.backward().contains_key(id) && after.backward()[id] == entity,
{
}

/// What a lookup returns after a removal: neither the entity nor its former
/// id is found any more, while every other entity keeps its id.
pub proof fn lemma_remove_then_lookup(m: EntityIdMap, entity: u64, after: EntityIdMap, other: u64)
    requires
        m.wf(),
        after.forward() == m.forward().remove(entity),
        after.backward() == if m.forward().contains_key(entity) {
            m.backward().remove(m.forward()[entity])
        } else {
            m.backward()
        },
        other != entity,
    ensures
        !after.forward().contains_key(entity),
        m.forward().contains_key(entity) ==> !after.backward().contains_key(m.forward()[entity]),
        m.forward().contains_key(other) ==> after.forward().contains_key(other) && after.forward()[other]
            == m.forward()[other] && after.backward()[m.forward()[other]] == other,
{
}

/// Ids are never reused: an id issued to a new entity was not held by any
/// entity before.
pub proof fn lemma_fresh_ids(m: EntityIdMap, other: u64)
    requires
        m.wf(),
        m.forward().contains_key(other),
    ensures
        m.forward()[other] < m.spec_next_id(),
        !m.backward().contains_key(m.spec_next_id()),
{
}

/// Headless runner configuration.
#[derive(Debug, Clone)]
pub struct HeadlessConfig {
    /// Output state after every tick (vs only on query).
    pub auto_state_output: bool,
    /// Scenario file to load on startup.
    pub scenario_path: Option<String>,
}

impl Default for HeadlessConfig {
    fn default() -> (c: Self)
        ensures
            !c.auto_state_output,
            c.scenario_path is None,
    {
        HeadlessConfig { auto_state_output: false, scenario_path: None }
    }
}

/// Faction an entity spawned by a controller command belongs to.
#[derive(Debug, Clone, Copy, PartialEq, Eq, Structural)]
pub enum SpawnFaction {
    Continuity,
    Collegium,
    Tinkers,
}

/// Faction index 0 (or none given) is Continuity, 1 is Collegium, and
/// any other index the Tinkers.
pub fn spawn_faction(faction: Option<u8>) -> (f: SpawnFaction)
    ensures
        f == match faction {
            None => SpawnFaction::Continuity,
            Some(i) => if i == 0 {
                SpawnFaction::Continuity
            } else if i == 1 {
                SpawnFaction::Collegium
            } else {
                SpawnFaction::Tinkers
            },
        },
{
    match faction {
        None => SpawnFaction::Continuity,
        Some(0) => SpawnFaction::Continuity,
        Some(1) => SpawnFaction::Collegium,
        Some(_) => SpawnFaction::Tinkers,
    }
}

/// Building template used for a `spawn_building` command.
#[derive(Debug, Clone, Copy, PartialEq, Eq, Structural)]
pub enum BuildingTemplate {
    Depot,
    Barracks,
    SupplyDepot,
    TechLab,
    Turret,
}

/// Template for a requested building kind; unknown kinds become a depot.
pub open spec fn template_of(kind: Seq<char>) -> BuildingTemplate {
    if kind == "command_center"@ || kind == "depot"@ {
        BuildingTemplate::Depot
    } else if kind == "barracks"@ {
        BuildingTemplate::Barracks
    } else if kind == "supply_depot"@ || kind == "supply"@ {
        BuildingTemplate::SupplyDepot
    } else if kind == "tech_lab"@ || kind == "techlab"@ {
        BuildingTemplate::TechLab
    } else if kind == "turret"@ || kind == "defense"@ {
        BuildingTemplate::Turret
    } else {
        BuildingTemplate::Depot
    }
}

/// Which kinds select which building, over every kind: barracks, supply
/// depots, tech labs and turrets each by their own names alone, and a
/// command center for "command_center", "depot" and any unknown kind.
pub proof fn lemma_template_names(kind: Seq<char>)
    ensures
        template_of(kind) == BuildingTemplate::Barracks <==> kind == "barracks"@,
        template_of(kind) == BuildingTemplate::SupplyDepot <==> kind == "supply_depot"@ || kind == "supply"@,
        template_of(kind) == BuildingTemplate::TechLab <==> kind == "tech_lab"@ || kind == "techlab"@,
        template_of(kind) == BuildingTemplate::Turret <==> kind == "turret"@ || kind == "defense"@,
        template_of(kind) == BuildingTemplate::Depot <==> kind != "barracks"@ && kind != "supply_depot"@
            && kind != "supply"@ && kind != "tech_lab"@ && kind != "techlab"@ && kind != "turret"@ && kind
            != "defense"@,
{
    reveal_strlit("command_center");
    reveal_strlit("depot");
    reveal_strlit("barracks");
    reveal_strlit("supply_depot");
    reveal_strlit("supply");
    reveal_strlit("tech_lab");
    reveal_strlit("techlab");
    reveal_strlit("turret");
    reveal_strlit("defense");
    assert("command_center"@.len() == 14 && "depot"@.len() == 5 && "barracks"@.len() == 8);
    assert("supply_depot"@.len() == 12 && "supply"@.len() == 6 && "tech_lab"@.len() == 8);
    assert("techlab"@.len() == 7 && "turret"@.len() == 6 && "defense"@.len() == 7);
    assert("barracks"@[0] != "tech_lab"@[0]);
    assert("supply"@[0] != "turret"@[0]);
    assert("techlab"@[0] != "defense"@[0]);
}

/// Chooses the building template for a requested building kind.
pub fn building_template(kind: &str) -> (t: BuildingTemplate)
    ensures
        t == template_of(kind@),
        t == BuildingTemplate::Barracks <==> kind@ == "barracks"@,
        t == BuildingTemplate::SupplyDepot <==> kind@ == "supply_depot"@ || kind@ == "supply"@,
        t == BuildingTemplate::TechLab <==> kind@ == "tech_lab"@ || kind@ == "techlab"@,
        t == BuildingTemplate::Turret <==> kind@ == "turret"@ || kind@ == "defense"@,
{
    proof {
        lemma_template_names(kind@);
    }
    if text_eq(kind, "command_center") || text_eq(kind, "depot") {
        BuildingTemplate::Depot
    } else if text_eq(kind, "barracks") {
        BuildingTemplate::Barracks
    } else if text_eq(kind, "supply_depot") || text_eq(kind, "supply") {
        BuildingTemplate::SupplyDepot
    } else if text_eq(kind, "tech_lab") || text_eq(kind, "techlab") {
        BuildingTemplate::TechLab
    } else if text_eq(kind, "turret") || text_eq(kind, "defense") {
        BuildingTemplate::Turret
    } else {
        BuildingTemplate::Depot
    }
}


/// How the runner answers an order given to an entity (move, stop,
/// teleport, kill or attack).
#[derive(Debug, Clone, Copy, PartialEq, Eq, Structural)]
pub enum OrderVerdict {
    /// Carry the order out and acknowledge it.
    Issue,
    /// The ordered entity has no external id.
    EntityNotFound,
    /// The attack target has no external id.
    TargetNotFound,
    /// The entity (for an attack: the attacker or the target) is not known
    /// to the core simulation.
    NotRegistered,
    /// The core simulation's command buffer is not available.
    CoreUnavailable,
}

/// Verdict on an order for one entity: it must be known by its external
/// id, then registered with the core, and the core must take commands.
pub open spec fn unit_order_verdict(known: bool, registered: bool, core_available: bool) -> OrderVerdict {
    if !known {
        OrderVerdict::EntityNotFound
    } else if !registered {
        OrderVerdict::NotRegistered
    } else if !core_available {
        OrderVerdict::CoreUnavailable
    } else {
        OrderVerdict::Issue
    }
}

/// Verdict on an attack order: both ids must be known (the attacker is
/// checked first), both entities registered with the core, and the core
/// must take commands.
pub open spec fn attack_order_verdict(
    attacker_known: bool,
    target_known: bool,
    both_registered: bool,
    core_available: bool,
) -> OrderVerdict {
    if !attacker_known {
        OrderVerdict::EntityNotFound
    } else if !target_known {
        OrderVerdict::TargetNotFound
    } else if !both_registered {
        OrderVerdict::NotRegistered
    } else if !core_available {
        OrderVerdict::CoreUnavailable
    } else {
        OrderVerdict::Issue
    }
}

/// Decides how to answer an order for one entity (move, stop). Teleport
/// and kill orders need only a known entity: pass `true` for the rest.
pub fn order_verdict(known: bool, registered: bool, core_available: bool) -> (v: OrderVerdict)
    ensures
        v == unit_order_verdict(known, registered, core_available),
{
    if !known {
        OrderVerdict::EntityNotFound
    } else if !registered {
        OrderVerdict::NotRegistered
    } else if !core_available {
        OrderVerdict::CoreUnavailable
    } else {
        OrderVerdict::Issue
    }
}

/// Decides how to answer an attack order.
pub fn attack_verdict(
    attacker_known: bool,
    target_known: bool,
    both_registered: bool,
    core_available: bool,
) -> (v: OrderVerdict)
    ensures
        v == attack_order_verdict(attacker_known, target_known, both_registered, core_available),
{
    if !attacker_known {
        OrderVerdict::EntityNotFound
    } else if !target_known {
        OrderVerdict::TargetNotFound
    } else if !both_registered {
        OrderVerdict::NotRegistered
    } else if !core_available {
        OrderVerdict::CoreUnavailable
    } else {
        OrderVerdict::Issue
    }
}

/// The error text sent back for a refused order (`None` for an order that
/// is carried out).
pub open spec fn order_error_text(v: OrderVerdict, entity_id: u32, target_id: u32, attack: bool) -> Option<Seq<char>> {
    match v {
        OrderVerdict::Issue => None,
        OrderVerdict::EntityNotFound => Some("Entity "@ + decimal_digits(entity_id as nat) + " not found"@),
        OrderVerdict::TargetNotFound => Some("Target "@ + decimal_digits(target_id as nat) + " not found"@),
        OrderVerdict::NotRegistered => Some(
            if attack {
                "Entities not registered with core"@
            } else {
                "Entity "@ + decimal_digits(entity_id as nat) + " not registered with core"@
            },
        ),
        OrderVerdict::CoreUnavailable => Some("Core simulation not available"@),
    }
}

/// Error message for a refused order, naming the entity (or target) id.
pub fn order_error_message(v: OrderVerdict, entity_id: u32, target_id: u32, attack: bool) -> (m: Option<String>)
    ensures
        match m {
            Some(s) => order_error_text(v, entity_id, target_id, attack) == Some(s@),
            None => order_error_text(v, entity_id, target_id, attack) is None,
        },
{
    match v {
        OrderVerdict::Issue => None,
        OrderVerdict::EntityNotFound => {
            let mut s = "Entity ".to_string();
            s.append(decimal(entity_id as u64).as_str());
            s.append(" not found");
            Some(s)
        },
        OrderVerdict::TargetNotFound => {
            let mut s = "Target ".to_string();
            s.append(decimal(target_id as u64).as_str());
            s.append(" not found");
            Some(s)
        },
        OrderVerdict::NotRegistered => {
            if attack {
                Some("Entities not registered with core".to_string())
            } else {
                let mut s = "Entity ".to_string();
                s.append(decimal(entity_id as u64).as_str());
                s.append(" not registered with core");
                Some(s)
            }
        },
        OrderVerdict::CoreUnavailable => Some("Core simulation not available".to_string()),
    }
}

} // verus!
