//! Characters, their stores, and controller state.
//!
//! Entities are referenced by plain index ids.  A stored id is always a
//! weak back-reference: the referenced entity may be deleted independently,
//! so every use goes through an existence-checked lookup.

use vstd::prelude::*;

verus! {

use crate::attr::BASE_VALUE_LIMIT;
use crate::geom::Vec2Fx;

/// Bound on a character's walking speed, in milli-units per second.
pub const SPEED_LIMIT: i64 = 10_000_000;

/// Identifies a character entity; an index into the character store.
#[derive(Clone, Copy, PartialEq, Eq, Structural, Debug)]
pub struct CharEntityId(pub usize);

/// Identifies a controller entity; an index into the controller store.
#[derive(Clone, Copy, PartialEq, Eq, Structural, Debug)]
pub struct ControllerEntityId(pub usize);

/// A team tag; characters on different teams are enemies.
#[derive(Clone, Copy, PartialEq, Eq, Structural, Debug)]
pub struct Team(pub u64);

/// How a character delivers its basic attack; a status may override it
/// and must restore the default on expiry.
#[derive(Clone, Copy, PartialEq, Eq, Structural, Debug)]
pub enum BasicAttackType {
    MeleeSimple,
    Ranged,
}

/// What a character is currently set upon.
#[derive(Clone, Copy, PartialEq, Eq, Structural, Debug)]
pub enum EntityTarget {
    OtherEntity(CharEntityId),
    Pos(Vec2Fx),
}

/// The base (unmodified) attributes of a character.  Effective attributes
/// are recomputed from these plus the active status modifiers each tick,
/// never stored authoritatively.
#[derive(Clone, Copy, PartialEq, Eq, Structural, Debug)]
pub struct CharAttributes {
    pub armor: i64,
    pub walking_speed: i64,
    pub attack_range: i64,
    pub attack_damage: i64,
    pub attack_speed: i64,
}

impl CharAttributes {
    pub open spec fn wf(self) -> bool {
        &&& -BASE_VALUE_LIMIT <= self.armor <= BASE_VALUE_LIMIT
        &&& 0 <= self.walking_speed <= SPEED_LIMIT
        &&& -BASE_VALUE_LIMIT <= self.attack_range <= BASE_VALUE_LIMIT
        &&& -BASE_VALUE_LIMIT <= self.attack_damage <= BASE_VALUE_LIMIT
        &&& -BASE_VALUE_LIMIT <= self.attack_speed <= BASE_VALUE_LIMIT
    }
}

/// A sentinel turret's targeting state, attached to the turret character.
#[derive(Clone, Copy, PartialEq, Eq, Structural, Debug)]
pub struct TurretComponent {
    pub owner_entity_id: CharEntityId,
    pub preferred_target: Option<CharEntityId>,
}

/// The mutable per-tick state of one character.
#[derive(Clone, Copy, PartialEq, Eq, Structural, Debug)]
pub struct CharacterStateComponent {
    pub pos: Vec2Fx,
    pub team: Team,
    pub hp: i64,
    pub target: Option<EntityTarget>,
    pub basic_attack_type: BasicAttackType,
    pub base_attributes: CharAttributes,
    /// Effective walking speed of the latest attribute recomputation.
    pub calculated_walking_speed: i64,
    pub turret: Option<TurretComponent>,
}

impl CharacterStateComponent {
    pub open spec fn wf(self) -> bool {
        &&& self.pos.wf()
        &&& self.base_attributes.wf()
        &&& 0 <= self.calculated_walking_speed <= SPEED_LIMIT
    }

    /// The character's planar position.
    pub fn pos(&self) -> (r: Vec2Fx)
        ensures
            r == self.pos,
    {
        self.pos
    }

    /// A character is dead once its hit points are gone.
    pub fn is_dead(&self) -> (r: bool)
        ensures
            r == (self.hp <= 0),
    {
        self.hp <= 0
    }
}

/// Owns every character, indexed by [`CharEntityId`].  A deleted
/// character leaves a `None` slot behind so ids stay stable.
pub struct CharacterStore {
    pub chars: Vec<Option<CharacterStateComponent>>,
}

impl CharacterStore {
    pub open spec fn wf(self) -> bool {
        forall|i: int|
            0 <= i < self.chars@.len() && self.chars@[i] is Some
                ==> (#[trigger] self.chars@[i])->Some_0.wf()
    }

    /// The character a (possibly dangling) id refers to, if any.
    pub open spec fn spec_get(self, id: CharEntityId) -> Option<CharacterStateComponent> {
        if id.0 < self.chars@.len() {
            self.chars@[id.0 as int]
        } else {
            None
        }
    }

    pub fn new() -> (r: CharacterStore)
        ensures
            r.wf(),
            r.chars@.len() == 0,
    {
        CharacterStore { chars: Vec::new() }
    }

    /// Existence-checked lookup.
    pub fn get_char(&self, id: CharEntityId) -> (r: Option<CharacterStateComponent>)
        ensures
            r == self.spec_get(id),
    {
        if id.0 < self.chars.len() {
            self.chars[id.0]
        } else {
            None
        }
    }

    /// Adds a character; the returned id refers to it.
    pub fn add_char(&mut self, c: CharacterStateComponent) -> (id: CharEntityId)
        requires
            old(self).wf(),
            c.wf(),
        ensures
            final(self).wf(),
            id.0 == old(self).chars@.len(),
            final(self).chars@ == old(self).chars@.push(Some(c)),
            final(self).spec_get(id) == Some(c),
    {
        let id = CharEntityId(self.chars.len());
        self.chars.push(Some(c));
        id
    }

    /// Overwrites the character a live id refers to.
    pub fn set_char(&mut self, id: CharEntityId, c: CharacterStateComponent)
        requires
            old(self).wf(),
            c.wf(),
            id.0 < old(self).chars@.len(),
        ensures
            final(self).wf(),
            final(self).chars@ == old(self).chars@.update(id.0 as int, Some(c)),
            final(self).spec_get(id) == Some(c),
    {
        self.chars.set(id.0, Some(c));
    }

    /// Deletes a character; the id dangles afterwards.
    pub fn delete_char(&mut self, id: CharEntityId)
        requires
            old(self).wf(),
            id.0 < old(self).chars@.len(),
        ensures
            final(self).wf(),
            final(self).chars@ == old(self).chars@.update(id.0 as int, None),
            final(self).spec_get(id) is None,
    {
        self.chars.set(id.0, None);
    }

    pub fn len(&self) -> (r: usize)
        ensures
            r == self.chars@.len(),
    {
        self.chars.len()
    }
}

/// A movement or attack intention issued for a controller-driven entity.
#[derive(Clone, Copy, PartialEq, Eq, Structural, Debug)]
pub enum PlayerIntention {
    MoveTo(Vec2Fx),
    MoveTowardsMouse(Vec2Fx),
    Attack(CharEntityId),
}

/// The controller of one controller-driven entity; `turret_controller`
/// marks the controllers the sentinel-turret decision loop drives.
#[derive(Clone, Copy, PartialEq, Eq, Structural, Debug)]
pub struct ControllerComponent {
    pub controlled_entity: CharEntityId,
    pub intention: Option<PlayerIntention>,
    pub turret_controller: bool,
}

/// Owns every controller, indexed by [`ControllerEntityId`].
pub struct ControllerStore {
    pub controllers: Vec<Option<ControllerComponent>>,
}

impl ControllerStore {
    pub open spec fn spec_get(self, id: ControllerEntityId) -> Option<ControllerComponent> {
        if id.0 < self.controllers@.len() {
            self.controllers@[id.0 as int]
        } else {
            None
        }
    }

    pub fn new() -> (r: ControllerStore)
        ensures
            r.controllers@.len() == 0,
    {
        ControllerStore { controllers: Vec::new() }
    }

    /// Existence-checked lookup.
    pub fn get_controller(&self, id: ControllerEntityId) -> (r: Option<ControllerComponent>)
        ensures
            r == self.spec_get(id),
    {
        if id.0 < self.controllers.len() {
            self.controllers[id.0]
        } else {
            None
        }
    }

    /// Adds a controller; the returned id refers to it.
    pub fn add_controller(&mut self, c: ControllerComponent) -> (id: ControllerEntityId)
        ensures
            id.0 == old(self).controllers@.len(),
            final(self).controllers@ == old(self).controllers@.push(Some(c)),
            final(self).spec_get(id) == Some(c),
    {
        let id = ControllerEntityId(self.controllers.len());
        self.controllers.push(Some(c));
        id
    }

    /// Overwrites the controller a live id refers to.
    pub fn set_controller(&mut self, id: ControllerEntityId, c: ControllerComponent)
        requires
            id.0 < old(self).controllers@.len(),
        ensures
            final(self).controllers@ == old(self).controllers@.update(id.0 as int, Some(c)),
            final(self).spec_get(id) == Some(c),
    {
        self.controllers.set(id.0, Some(c));
    }

    /// Deletes a controller; the id dangles afterwards.
    pub fn delete_controller(&mut self, id: ControllerEntityId)
        requires
            id.0 < old(self).controllers@.len(),
        ensures
            final(self).controllers@ == old(self).controllers@.update(id.0 as int, None),
            final(self).spec_get(id) is None,
    {
        self.controllers.set(id.0, None);
    }

    pub fn len(&self) -> (r: usize)
        ensures
            r == self.controllers@.len(),
    {
        self.controllers.len()
    }
}

} // verus!
