//! The component store and the scheduler, as this crate sees them.
//!
//! Both are `bevy_ecs` types. Verus cannot look inside either, so this module
//! gives each a mathematical reading and states, for every `bevy_ecs` call
//! the crate makes, what that call does to the reading. These statements are
//! taken on trust from the `bevy_ecs` sources; everything else in the crate
//! is proved from them.

use crate::modules::output::OutputBundle;
use crate::modules::sensor::Features;
use crate::modules::sensor::Name;
use crate::modules::timer::polled_through;
use crate::modules::timer::Timer;
use crate::modules::timer::TimerView;
use crate::modules::Metadata;
use crate::modules::MetadataView;
use crate::DefaultStage;
use bevy_ecs::component::Component;
use bevy_ecs::component::TableStorage;
use bevy_ecs::entity::Entity;
use bevy_ecs::schedule::IntoSystemDescriptor;
use bevy_ecs::schedule::Schedule;
use bevy_ecs::schedule::Stage;
use bevy_ecs::schedule::SystemStage;
use bevy_ecs::system::Query;
use bevy_ecs::world::World;
use vstd::prelude::*;

verus! {

/// `bevy_ecs::world::World`, carried as an opaque value.
#[verifier::external_type_specification]
#[verifier::external_body]
pub struct ExWorld(World);

/// `bevy_ecs::schedule::Schedule`, carried as an opaque value.
#[verifier::external_type_specification]
#[verifier::external_body]
pub struct ExSchedule(Schedule);

/// `bevy_ecs::entity::Entity`, carried as an opaque value.
#[verifier::external_type_specification]
#[verifier::external_body]
pub struct ExEntity(Entity);

/// `bevy_ecs::component::TableStorage`, the storage kind every component of
/// this crate names.
#[verifier::external_type_specification]
#[verifier::external_body]
pub struct ExTableStorage(TableStorage);

/// The components of this crate that one entity carries. A field is `None`
/// where the entity has no component of that kind. Components of other
/// crates are not recorded.
pub struct EntityView {
    /// The text of its `Name`.
    pub name: Option<Seq<char>>,
    /// Its `Metadata`.
    pub metadata: Option<MetadataView>,
    /// Its `Timer`.
    pub timer: Option<TimerView>,
    /// Its `Features`: the handles of its outputs, in order.
    pub features: Option<Seq<u64>>,
    /// Its `Output`: the handle of the sensor that owns it.
    pub output: Option<u64>,
    /// Its `Reading`, as the bit pattern of the float.
    pub reading: Option<u64>,
}

impl EntityView {
    /// An entity that carries none of this crate's components.
    pub open spec fn bare() -> EntityView {
        EntityView {
            name: None,
            metadata: None,
            timer: None,
            features: None,
            output: None,
            reading: None,
        }
    }

    /// A freshly assembled output: a back-reference to `owner`, the
    /// metadata of the measured quantity, and a reading of zero.
    pub open spec fn output(owner: u64, metadata: MetadataView) -> EntityView {
        EntityView {
            name: None,
            metadata: Some(metadata),
            timer: None,
            features: None,
            output: Some(owner),
            reading: Some(0),
        }
    }

    /// This entity once a name and metadata have been written onto it.
    pub open spec fn identified(self, name: Seq<char>, metadata: MetadataView) -> EntityView {
        EntityView { name: Some(name), metadata: Some(metadata), ..self }
    }

    /// This entity once `timer` has been written onto it.
    pub open spec fn timed(self, timer: TimerView) -> EntityView {
        EntityView { timer: Some(timer), ..self }
    }

    /// This entity once the output handles `features` have been written
    /// onto it.
    pub open spec fn featured(self, features: Seq<u64>) -> EntityView {
        EntityView { features: Some(features), ..self }
    }
}

/// The 64 bits that identify an entity (`Entity::to_bits`): generation in
/// the upper half, index in the lower. Two handles with the same bits are the
/// same entity.
pub uninterp spec fn entity_bits(e: Entity) -> u64;

/// What a world holds: each entity that is live, or reserved and waiting
/// for the next flush, by its bits, with the components of this crate that
/// it carries. A reserved entity carries none.
pub uninterp spec fn world_view(w: World) -> Map<u64, EntityView>;

/// The entities of a world that are live: spawned, or reserved and flushed
/// since, and not despawned. These are the ones `World::get_entity_mut`
/// finds.
pub uninterp spec fn world_live(w: World) -> Set<u64>;

/// How many entity indices a world has handed out so far, counting those
/// reserved and not yet flushed. Indices are handed out from zero upwards and
/// a `u32` holds them, which is the one limit on spawning.
pub uninterp spec fn world_slots(w: World) -> nat;

/// The number that tells a world from every other world of the process
/// (`World::id`).
pub uninterp spec fn world_id(w: World) -> nat;

/// How many stages a schedule holds.
pub uninterp spec fn stage_count(s: Schedule) -> nat;

/// How many systems the stage labelled `DefaultStage` holds; `None` where
/// the schedule has no system stage under that label.
pub uninterp spec fn default_stage_size(s: Schedule) -> Option<nat>;

/// How many of the systems in the stage labelled `DefaultStage` are this
/// crate's polling system; zero where there is no such stage.
pub uninterp spec fn default_stage_polling(s: Schedule) -> nat;

/// The id of the world that the stage labelled `DefaultStage` first ran on,
/// which is the only world it runs on from then; `None` while it has not run.
pub uninterp spec fn stage_world(s: Schedule) -> Option<nat>;

/// How `polls` polls leave a timer, or the lack of one: the duration stays,
/// and the state is what one poll after the other reaches, each with some
/// reading of the clock.
pub open spec fn timer_polled(before: Option<TimerView>, after: Option<TimerView>, polls: nat) -> bool {
    match before {
        None => after is None,
        Some(timer) => {
            &&& after matches Some(left)
            &&& left.duration == timer.duration
            &&& exists|readings: Seq<Option<u128>>|
                readings.len() == polls && left.state == #[trigger] polled_through(
                    timer.duration,
                    timer.state,
                    readings,
                )
        },
    }
}

/// How a pass of `polls` polling systems, and of no other system, turns the
/// store `before` into the store `after`: the same entities are there, each
/// timer has been polled `polls` times, and nothing else has changed.
pub open spec fn polled(before: Map<u64, EntityView>, after: Map<u64, EntityView>, polls: nat) -> bool {
    &&& after.dom() == before.dom()
    &&& forall|e: u64|
        before.dom().contains(e) ==> #[trigger] after[e] == (EntityView {
            timer: after[e].timer,
            ..before[e]
        }) && timer_polled(before[e].timer, after[e].timer, polls)
}

/// The handles in `entities`, each by its bits.
pub open spec fn bits_of(entities: Seq<Entity>) -> Seq<u64> {
    entities.map_values(|e: Entity| entity_bits(e))
}

/// The number of systems that a stage must stay below to run
/// (`bevy_ecs::change_detection::CHECK_TICK_THRESHOLD`).
pub const SYSTEM_LIMIT: u32 = 518_400_000;

/// A pass without polls changes nothing.
pub proof fn lemma_unpolled(before: Map<u64, EntityView>, after: Map<u64, EntityView>)
    requires
        polled(before, after, 0),
    ensures
        after == before,
{
    assert forall|e: u64| before.dom().contains(e) implies after[e] == before[e] by {
        assert(after[e] == (EntityView { timer: after[e].timer, ..before[e] }));
        assert(timer_polled(before[e].timer, after[e].timer, 0));
        if before[e].timer is Some {
            let readings = choose|readings: Seq<Option<u128>>|
                readings.len() == 0 && after[e].timer->0.state == #[trigger] polled_through(
                    before[e].timer->0.duration,
                    before[e].timer->0.state,
                    readings,
                );
            assert(after[e].timer->0 == before[e].timer->0);
        }
    }
    assert(after =~= before);
}

/// `World::new`: a world without entities. (`bevy_ecs` numbers the worlds of
/// a process and panics once `usize::MAX` of them were made.)
#[verifier::external_body]
pub(crate) fn new_world() -> (world: World)
    ensures
        world_view(world) == (Map::<u64, EntityView>::empty()),
        world_live(world) == Set::<u64>::empty(),
        world_slots(world) == 0,
{
    World::new()
}

/// `Entities::resolve_from_id`, read through `World::entities`: whether
/// `index` is among the indices the world has handed out. The source compares
/// it with the length of the entity table plus the count of reserved indices.
#[verifier::external_body]
pub(crate) fn index_in_use(world: &World, index: u32) -> (used: bool)
    ensures
        used == (index < world_slots(*world)),
{
    world.entities().resolve_from_id(index).is_some()
}

/// `World::spawn` with the empty bundle: one new live entity without
/// components. The source first flushes, which makes every reserved entity
/// live, then counts the entity in a `u32` and takes a freed index or the
/// next new one (panicking with "too many entities" where a `u32` cannot
/// hold it), and touches no component of another entity.
#[verifier::external_body]
pub(crate) fn spawn_bare(world: &mut World) -> (entity: Entity)
    requires
        world_slots(*old(world)) < u32::MAX,
    ensures
        !world_view(*old(world)).dom().contains(entity_bits(entity)),
        world_view(*final(world)) == world_view(*old(world)).insert(
            entity_bits(entity),
            EntityView::bare(),
        ),
        world_live(*final(world)) == world_view(*final(world)).dom(),
        world_slots(*old(world)) <= world_slots(*final(world)) <= world_slots(*old(world)) + 1,
        world_id(*final(world)) == world_id(*old(world)),
{
    world.spawn(()).id()
}

/// `World::spawn` with the three components of an output: one new live
/// entity that carries exactly them. Index allocation is as for the empty
/// bundle.
#[verifier::external_body]
pub(crate) fn spawn_output(world: &mut World, bundle: OutputBundle) -> (entity: Entity)
    requires
        world_slots(*old(world)) < u32::MAX,
    ensures
        !world_view(*old(world)).dom().contains(entity_bits(entity)),
        world_view(*final(world)) == world_view(*old(world)).insert(
            entity_bits(entity),
            bundle.view(),
        ),
        world_live(*final(world)) == world_view(*final(world)).dom(),
        world_slots(*old(world)) <= world_slots(*final(world)) <= world_slots(*old(world)) + 1,
        world_id(*final(world)) == world_id(*old(world)),
{
    world.spawn((bundle.output, bundle.meta, bundle.reading)).id()
}

/// `World::get_entity_mut` then `EntityMut::insert` with a `Name` and a
/// `Metadata`: both are written onto the entity, replacing earlier ones;
/// its other components and all other entities stay, and nothing is
/// flushed. `get_entity_mut` is `None` exactly for an entity that is not
/// live, hence the `requires`.
#[verifier::external_body]
pub(crate) fn insert_identity(world: &mut World, entity: Entity, name: Name, meta: Metadata)
    requires
        world_live(*old(world)).contains(entity_bits(entity)),
    ensures
        world_view(*final(world)) == world_view(*old(world)).insert(
            entity_bits(entity),
            world_view(*old(world))[entity_bits(entity)].identified(name@, meta@),
        ),
        world_live(*final(world)) == world_live(*old(world)),
        world_slots(*final(world)) == world_slots(*old(world)),
        world_id(*final(world)) == world_id(*old(world)),
{
    world.get_entity_mut(entity).unwrap().insert((name, meta));
}

/// `World::get_entity_mut` then `EntityMut::insert` with a `Timer`.
#[verifier::external_body]
pub(crate) fn insert_timer(world: &mut World, entity: Entity, timer: Timer)
    requires
        world_live(*old(world)).contains(entity_bits(entity)),
    ensures
        world_view(*final(world)) == world_view(*old(world)).insert(
            entity_bits(entity),
            world_view(*old(world))[entity_bits(entity)].timed(timer@),
        ),
        world_live(*final(world)) == world_live(*old(world)),
        world_slots(*final(world)) == world_slots(*old(world)),
        world_id(*final(world)) == world_id(*old(world)),
{
    world.get_entity_mut(entity).unwrap().insert(timer);
}

/// `World::get_entity_mut` then `EntityMut::insert` with a `Features`.
#[verifier::external_body]
pub(crate) fn insert_features(world: &mut World, entity: Entity, features: Features)
    requires
        world_live(*old(world)).contains(entity_bits(entity)),
    ensures
        world_view(*final(world)) == world_view(*old(world)).insert(
            entity_bits(entity),
            world_view(*old(world))[entity_bits(entity)].featured(features@),
        ),
        world_live(*final(world)) == world_live(*old(world)),
        world_slots(*final(world)) == world_slots(*old(world)),
        world_id(*final(world)) == world_id(*old(world)),
{
    world.get_entity_mut(entity).unwrap().insert(features);
}

/// `World::get_entity_mut` then `EntityMut::insert` with a component of the
/// caller's choosing. The same entities are there afterwards and every other
/// entity is untouched. Of the entity itself nothing is claimed: `T` may be
/// one of this crate's own component types, which the insert would replace.
#[verifier::external_body]
pub(crate) fn insert_component<T: Component>(world: &mut World, entity: Entity, component: T)
    requires
        world_live(*old(world)).contains(entity_bits(entity)),
    ensures
        world_view(*final(world)).dom() == world_view(*old(world)).dom(),
        forall|other: u64|
            other != entity_bits(entity) && world_view(*old(world)).dom().contains(other)
                ==> #[trigger] world_view(*final(world))[other] == world_view(*old(world))[other],
        world_live(*final(world)) == world_live(*old(world)),
        world_slots(*final(world)) == world_slots(*old(world)),
        world_id(*final(world)) == world_id(*old(world)),
{
    world.get_entity_mut(entity).unwrap().insert(component);
}

/// `Schedule::default`: a schedule without stages.
#[verifier::external_body]
pub(crate) fn new_schedule() -> (schedule: Schedule)
    ensures
        stage_count(schedule) == 0,
        default_stage_size(schedule) == None::<nat>,
        default_stage_polling(schedule) == 0,
        stage_world(schedule) == None::<nat>,
{
    Schedule::default()
}

/// `Schedule::add_stage` with `DefaultStage` and a single-threaded
/// `SystemStage`: the schedule gains that stage, empty and not yet run. The
/// source panics where a stage of that label is already there, which a
/// schedule without stages rules out.
#[verifier::external_body]
pub(crate) fn add_default_stage(schedule: &mut Schedule)
    requires
        stage_count(*old(schedule)) == 0,
    ensures
        stage_count(*final(schedule)) == 1,
        default_stage_size(*final(schedule)) == Some(0nat),
        default_stage_polling(*final(schedule)) == 0,
        stage_world(*final(schedule)) == None::<nat>,
{
    schedule.add_stage(DefaultStage, SystemStage::single_threaded());
}

/// `Schedule::add_system_to_stage` with `DefaultStage` and a system of the
/// caller's: the stage holds one system more, which is not the polling
/// system. The source panics where the schedule has no system stage under
/// that label.
#[verifier::external_body]
pub(crate) fn add_to_default_stage<F, Params>(schedule: &mut Schedule, system: F) where
    F: IntoSystemDescriptor<Params>,

    requires
        default_stage_size(*old(schedule)) is Some,
    ensures
        stage_count(*final(schedule)) == stage_count(*old(schedule)),
        default_stage_size(*final(schedule)) == Some(default_stage_size(*old(schedule))->0 + 1),
        default_stage_polling(*final(schedule)) == default_stage_polling(*old(schedule)),
        stage_world(*final(schedule)) == stage_world(*old(schedule)),
{
    schedule.add_system_to_stage(DefaultStage, system);
}

/// `Schedule::add_system_to_stage` with `DefaultStage` and the polling
/// system: a system that visits every `Timer` in the store with
/// `Query::for_each_mut` and calls `Timer::poll` on it. It gets at each
/// timer mutably, so `bevy_ecs` marks every timer as changed in each pass.
#[verifier::external_body]
pub(crate) fn add_polling_to_default_stage(schedule: &mut Schedule)
    requires
        default_stage_size(*old(schedule)) is Some,
    ensures
        stage_count(*final(schedule)) == stage_count(*old(schedule)),
        default_stage_size(*final(schedule)) == Some(default_stage_size(*old(schedule))->0 + 1),
        default_stage_polling(*final(schedule)) == default_stage_polling(*old(schedule)) + 1,
        stage_world(*final(schedule)) == stage_world(*old(schedule)),
{
    schedule.add_system_to_stage(
        DefaultStage,
        |mut timers: Query<&mut Timer>| timers.for_each_mut(|mut timer| timer.poll()),
    );
}

/// `Schedule::run` (its `Stage` impl) on a schedule whose one stage is the
/// one labelled `DefaultStage` and holds nothing but polling systems: the
/// stage is bound to the world it is given, and each polling system runs
/// once, which polls every timer once; nothing else touches the world, and
/// no stage or system is added or removed.
///
/// The source asserts that a stage holds fewer than `CHECK_TICK_THRESHOLD`
/// systems and that a stage which has run before is given the world it
/// first ran on. Whatever else makes the call unwind comes in with a system
/// of the caller's: ordering constraints, run criteria, parameters that
/// clash or ask for a resource, and the system's own code. The polling
/// system has one query and no constraint, and `Timer::poll` is verified.
/// Hence the `requires`.
#[verifier::external_body]
pub(crate) fn run_schedule(schedule: &mut Schedule, world: &mut World)
    requires
        stage_count(*old(schedule)) == 1,
        default_stage_size(*old(schedule)) is Some,
        default_stage_size(*old(schedule))->0 < SYSTEM_LIMIT,
        default_stage_polling(*old(schedule)) == default_stage_size(*old(schedule))->0,
        stage_world(*old(schedule)) is Some ==> stage_world(*old(schedule))->0 == world_id(
            *old(world),
        ),
    ensures
        stage_count(*final(schedule)) == 1,
        default_stage_size(*final(schedule)) == default_stage_size(*old(schedule)),
        default_stage_polling(*final(schedule)) == default_stage_polling(*old(schedule)),
        stage_world(*final(schedule)) == Some(world_id(*old(world))),
        polled(
            world_view(*old(world)),
            world_view(*final(world)),
            default_stage_polling(*old(schedule)),
        ),
        world_live(*final(world)) == world_live(*old(world)),
        world_slots(*final(world)) == world_slots(*old(world)),
        world_id(*final(world)) == world_id(*old(world)),
{
    schedule.run(world);
}

/// Whether `world` has room for `count` more entities.
pub fn has_room(world: &World, count: u32) -> (room: bool)
    ensures
        room == (world_slots(*world) + count <= u32::MAX),
{
    !index_in_use(world, u32::MAX - count)
}

} // verus!
