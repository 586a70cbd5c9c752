//! Sensors: the parent entities that hold references to their outputs.

use crate::modules::metadata_of;
use crate::modules::output::OutputBuilder;
use crate::modules::timer::Duration;
use crate::modules::timer::State;
use crate::modules::timer::Timer;
use crate::modules::timer::TimerView;
use crate::modules::undefined_metadata;
use crate::modules::Descriptor;
use crate::modules::Metadata;
use crate::modules::MetadataView;
use crate::modules::UndefinedType;
use crate::store::bits_of;
use crate::store::entity_bits;
use crate::store::insert_component;
use crate::store::insert_features;
use crate::store::insert_identity;
use crate::store::insert_timer;
use crate::store::spawn_bare;
use crate::store::EntityView;
use crate::Robot;
use bevy_ecs::component::Component;
use bevy_ecs::component::TableStorage;
use bevy_ecs::entity::Entity;
use bevy_ecs::schedule::IntoSystemDescriptor;
use std::ops::Deref;
use vstd::prelude::*;

verus! {

/// A sensor's display name.
#[derive(Default, Debug)]
pub struct Name(pub String);

impl Component for Name {
    type Storage = TableStorage;
}

impl View for Name {
    type V = Seq<char>;

    open spec fn view(&self) -> Seq<char> {
        self.0@
    }
}

impl Deref for Name {
    type Target = String;

    fn deref(&self) -> (text: &String)
        ensures
            *text == self.0,
    {
        &self.0
    }
}

/// A sensor's outputs: their handles, in the order they were declared.
#[derive(Default, Debug)]
pub struct Features(pub Vec<Entity>);

impl Component for Features {
    type Storage = TableStorage;
}

impl View for Features {
    type V = Seq<u64>;

    open spec fn view(&self) -> Seq<u64> {
        bits_of(self.0@)
    }
}

impl Deref for Features {
    type Target = Vec<Entity>;

    fn deref(&self) -> (handles: &Vec<Entity>)
        ensures
            *handles == self.0,
    {
        &self.0
    }
}

impl Features {
    /// Whether the entity that carries these features is a sensor: whether
    /// it has an output at all.
    pub fn is_sensor(&self) -> (sensor: bool)
        ensures
            sensor == (self@.len() > 0),
    {
        self.0.len() > 0
    }
}

/// What a builder has collected: the entity it reserved and what `build`
/// will write onto it.
pub struct SensorPlan {
    pub entity: Entity,
    pub name: Seq<char>,
    pub metadata: MetadataView,
    pub outputs: Seq<MetadataView>,
    pub timer: Option<Duration>,
}

/// The sensor entity once its name, its metadata and, where the plan has
/// one, a fresh timer have been written onto it.
pub open spec fn prepared(view: EntityView, plan: SensorPlan) -> EntityView {
    let identified = view.identified(plan.name, plan.metadata);
    match plan.timer {
        Some(duration) => identified.timed(TimerView { duration, state: State::Wait }),
        None => identified,
    }
}

/// `store` once one output of `owner` has been spawned under each of
/// `handles`, in order, the i-th with the metadata `outputs[i]`.
pub open spec fn with_outputs(
    store: Map<u64, EntityView>,
    owner: u64,
    outputs: Seq<MetadataView>,
    handles: Seq<u64>,
) -> Map<u64, EntityView>
    decreases handles.len(),
{
    if handles.len() == 0 {
        store
    } else {
        with_outputs(store, owner, outputs, handles.drop_last()).insert(
            handles.last(),
            EntityView::output(owner, outputs[handles.len() - 1]),
        )
    }
}

/// Spawning outputs adds their handles to the entities of the store and
/// nothing else.
proof fn lemma_with_outputs_domain(
    store: Map<u64, EntityView>,
    owner: u64,
    outputs: Seq<MetadataView>,
    handles: Seq<u64>,
)
    ensures
        forall|k: u64|
            #[trigger] with_outputs(store, owner, outputs, handles).dom().contains(k) <==> (
            store.dom().contains(k) || handles.contains(k)),
    decreases handles.len(),
{
    if handles.len() > 0 {
        let front = handles.drop_last();
        lemma_with_outputs_domain(store, owner, outputs, front);
        assert forall|k: u64|
            #[trigger] with_outputs(store, owner, outputs, handles).dom().contains(k) <==> (
            store.dom().contains(k) || handles.contains(k)) by {
            let earlier = with_outputs(store, owner, outputs, front);
            assert(with_outputs(store, owner, outputs, handles).dom() == earlier.dom().insert(
                handles.last(),
            ));
            assert(earlier.dom().contains(k) <==> (store.dom().contains(k) || front.contains(k)));
            assert(handles.contains(k) <==> (front.contains(k) || k == handles.last())) by {
                if front.contains(k) {
                    let i: int = choose|i: int| 0 <= i < front.len() && front[i] == k;
                    assert(handles[i] == k);
                }
                if k == handles.last() {
                    assert(handles[handles.len() - 1] == k);
                }
                if handles.contains(k) && k != handles.last() {
                    let i: int = choose|i: int| 0 <= i < handles.len() && handles[i] == k;
                    assert(front[i] == k);
                }
            }
        }
    }
}

/// Spawning outputs leaves every entity that is not among them as it was.
proof fn lemma_with_outputs_frame(
    store: Map<u64, EntityView>,
    owner: u64,
    outputs: Seq<MetadataView>,
    handles: Seq<u64>,
    k: u64,
)
    requires
        !handles.contains(k),
    ensures
        with_outputs(store, owner, outputs, handles)[k] == store[k],
    decreases handles.len(),
{
    if handles.len() > 0 {
        let front = handles.drop_last();
        assert(handles[handles.len() - 1] == handles.last());
        assert forall|i: int| 0 <= i < front.len() implies front[i] != k by {
            assert(handles[i] == front[i]);
        }
        lemma_with_outputs_frame(store, owner, outputs, front, k);
    }
}

/// How `build` turns the store `before` into the store `after`. The sensor
/// entity, which is in the store already, gets its name, metadata and
/// timer; one output is spawned per declared output, each under a handle
/// that was not in the store before and that no other output has; and the
/// sensor's features list those handles in declaration order. Nothing else
/// changes.
pub open spec fn built(
    before: Map<u64, EntityView>,
    after: Map<u64, EntityView>,
    plan: SensorPlan,
) -> bool {
    let sensor: u64 = entity_bits(plan.entity);
    let base = before.insert(sensor, prepared(before[sensor], plan));
    &&& before.dom().contains(sensor)
    &&& after.dom().contains(sensor)
    &&& after[sensor].features matches Some(handles)
    &&& handles.len() == plan.outputs.len()
    &&& handles.no_duplicates()
    &&& forall|i: int| 0 <= i < handles.len() ==> !before.dom().contains(#[trigger] handles[i])
    &&& after == with_outputs(base, sensor, plan.outputs, handles).insert(
        sensor,
        base[sensor].featured(handles),
    )
}

/// How many systems planning a timer registers: the polling system where
/// there is an interval to wait for, none where there is not.
pub open spec fn polling_for(duration: Option<Duration>) -> nat {
    if duration is Some {
        1
    } else {
        0
    }
}

/// Sensor setup helper. It reserves the sensor's entity at once, holds the
/// robot for as long as it lives, and collects what `build` will assemble.
pub struct SensorBuilder<'c> {
    robot: &'c mut Robot,
    name: String,
    metadata: Metadata,
    outputs: Vec<OutputBuilder>,
    timer: Option<Duration>,
    entity: Entity,
}

impl<'c> SensorBuilder<'c> {
    /// The robot as it stands, seen through the builder.
    pub closed spec fn robot(&self) -> Robot {
        *self.robot
    }

    /// The builder's hold on the robot. Its `final` is the robot as the
    /// caller gets it back.
    pub closed spec fn lease(self) -> &'c mut Robot {
        self.robot
    }

    /// What the builder has collected so far.
    pub closed spec fn plan(&self) -> SensorPlan {
        SensorPlan {
            entity: self.entity,
            name: self.name@,
            metadata: self.metadata@,
            outputs: self.outputs@.map_values(|output: OutputBuilder| output@),
            timer: self.timer,
        }
    }

    /// The robot is well-formed and the reserved entity is live in it.
    pub closed spec fn wf(&self) -> bool {
        &&& self.robot.wf()
        &&& self.robot.store().dom().contains(entity_bits(self.entity))
        &&& self.robot.live().contains(entity_bits(self.entity))
    }

    /// Reserves an entity for a sensor called `name` and starts its plan:
    /// no type, no outputs, no timer.
    pub fn new(name: &str, robot: &'c mut Robot) -> (builder: SensorBuilder<'c>)
        requires
            old(robot).wf(),
            old(robot).slots() < u32::MAX,
        ensures
            builder.wf(),
            *final(builder.lease()) == *final(robot),
            !old(robot).store().dom().contains(entity_bits(builder.plan().entity)),
            builder.robot().store() == old(robot).store().insert(
                entity_bits(builder.plan().entity),
                EntityView::bare(),
            ),
            builder.robot().systems() == old(robot).systems(),
            builder.robot().pollers() == old(robot).pollers(),
            old(robot).slots() <= builder.robot().slots() <= old(robot).slots() + 1,
            builder.plan().name == name@,
            builder.plan().metadata == undefined_metadata(),
            builder.plan().outputs == Seq::<MetadataView>::empty(),
            builder.plan().timer == None::<Duration>,
    {
        let entity = spawn_bare(&mut robot.world);
        SensorBuilder {
            name: name.to_string(),
            robot,
            metadata: UndefinedType.metadata(),
            outputs: Vec::new(),
            timer: None,
            entity,
        }
    }

    /// Sets the sensor's type: the planned metadata becomes that of
    /// `sensor_type`.
    pub fn with_type<T: Descriptor + 'static>(self, sensor_type: &T) -> (builder: SensorBuilder<'c>)
        ensures
            builder.wf() == self.wf(),
            builder.robot() == self.robot(),
            *final(builder.lease()) == *final(self.lease()),
            builder.plan() == (SensorPlan { metadata: metadata_of(sensor_type), ..self.plan() }),
    {
        let mut builder = self;
        builder.set_type(sensor_type);
        builder
    }

    /// Sets the sensor's type in place.
    pub fn set_type<T: Descriptor + 'static>(&mut self, sensor_type: &T)
        ensures
            final(self).wf() == old(self).wf(),
            final(self).robot() == old(self).robot(),
            *final(final(self).lease()) == *final(old(self).lease()),
            final(self).plan() == (SensorPlan {
                metadata: metadata_of(sensor_type),
                ..old(self).plan()
            }),
    {
        self.metadata = sensor_type.metadata();
    }

    /// Declares one more output, of the type `output`, behind those
    /// already declared.
    pub fn with_output<T: Descriptor + 'static>(self, output: T) -> (builder: SensorBuilder<'c>)
        ensures
            builder.wf() == self.wf(),
            builder.robot() == self.robot(),
            *final(builder.lease()) == *final(self.lease()),
            builder.plan() == (SensorPlan {
                outputs: self.plan().outputs.push(metadata_of(&output)),
                ..self.plan()
            }),
    {
        let mut builder = self;
        builder.set_output(output);
        builder
    }

    /// Declares one more output in place.
    pub fn set_output<T: Descriptor + 'static>(&mut self, output: T)
        ensures
            final(self).wf() == old(self).wf(),
            final(self).robot() == old(self).robot(),
            *final(final(self).lease()) == *final(old(self).lease()),
            final(self).plan() == (SensorPlan {
                outputs: old(self).plan().outputs.push(metadata_of(&output)),
                ..old(self).plan()
            }),
    {
        self.outputs.push(OutputBuilder::new().with_type(output));
        assert(self.plan().outputs == old(self).plan().outputs.push(metadata_of(&output)));
    }

    /// Plans a timer of the given interval, or none. With an interval it
    /// also registers the polling system that keeps timers going, once per
    /// call: with that system registered n times, a timer that is not ready
    /// is polled n times per tick. Without an interval nothing is
    /// registered.
    pub fn with_timer(self, duration: Option<Duration>) -> (builder: SensorBuilder<'c>)
        requires
            self.wf(),
        ensures
            builder.wf(),
            *final(builder.lease()) == *final(self.lease()),
            builder.plan() == (SensorPlan { timer: duration, ..self.plan() }),
            builder.robot().systems() == self.robot().systems() + polling_for(duration),
            builder.robot().pollers() == self.robot().pollers() + polling_for(duration),
            builder.robot().store() == self.robot().store(),
            builder.robot().slots() == self.robot().slots(),
    {
        let mut builder = self;
        builder.set_timer(duration);
        builder
    }

    /// Plans a timer in place, as `with_timer` does.
    pub fn set_timer(&mut self, duration: Option<Duration>)
        requires
            old(self).wf(),
        ensures
            final(self).wf(),
            *final(final(self).lease()) == *final(old(self).lease()),
            final(self).plan() == (SensorPlan { timer: duration, ..old(self).plan() }),
            final(self).robot().systems() == old(self).robot().systems() + polling_for(duration),
            final(self).robot().pollers() == old(self).robot().pollers() + polling_for(duration),
            final(self).robot().store() == old(self).robot().store(),
            final(self).robot().slots() == old(self).robot().slots(),
    {
        self.timer = duration;
        match duration {
            Some(_) => {
                self.robot.add_polling();
            },
            None => {},
        }
    }

    /// Registers `system` with the robot.
    pub fn with_system<F, Params>(self, system: F) -> (builder: SensorBuilder<'c>) where
        F: IntoSystemDescriptor<Params>,

        requires
            self.wf(),
        ensures
            builder.wf(),
            *final(builder.lease()) == *final(self.lease()),
            builder.plan() == self.plan(),
            builder.robot().systems() == self.robot().systems() + 1,
            builder.robot().pollers() == self.robot().pollers(),
            builder.robot().store() == self.robot().store(),
            builder.robot().slots() == self.robot().slots(),
    {
        let mut builder = self;
        builder.set_system(system);
        builder
    }

    /// Registers `system` with the robot, in place.
    pub fn set_system<F, Params>(&mut self, system: F) where F: IntoSystemDescriptor<Params>
        requires
            old(self).wf(),
        ensures
            final(self).wf(),
            *final(final(self).lease()) == *final(old(self).lease()),
            final(self).plan() == old(self).plan(),
            final(self).robot().systems() == old(self).robot().systems() + 1,
            final(self).robot().pollers() == old(self).robot().pollers(),
            final(self).robot().store() == old(self).robot().store(),
            final(self).robot().slots() == old(self).robot().slots(),
    {
        self.robot.add_system(system);
    }

    /// Writes a component of the caller's choosing onto the reserved
    /// entity at once. Every other entity stays as it is. Components of
    /// this crate's own types are better left to `build`, which writes the
    /// name, the metadata, the features and a planned timer after this.
    pub fn add_component<T: Component>(&mut self, component: T)
        requires
            old(self).wf(),
        ensures
            final(self).wf(),
            *final(final(self).lease()) == *final(old(self).lease()),
            final(self).plan() == old(self).plan(),
            final(self).robot().systems() == old(self).robot().systems(),
            final(self).robot().pollers() == old(self).robot().pollers(),
            final(self).robot().slots() == old(self).robot().slots(),
            final(self).robot().store().dom() == old(self).robot().store().dom(),
            forall|other: u64|
                other != entity_bits(old(self).plan().entity)
                    && old(self).robot().store().dom().contains(other)
                    ==> #[trigger] final(self).robot().store()[other]
                    == old(self).robot().store()[other],
    {
        insert_component(&mut self.robot.world, self.entity, component);
    }

    /// Writes a component onto the reserved entity and hands the builder
    /// back, for chaining.
    pub fn with_component<T: Component>(self, component: T) -> (builder: SensorBuilder<'c>)
        requires
            self.wf(),
        ensures
            builder.wf(),
            *final(builder.lease()) == *final(self.lease()),
            builder.plan() == self.plan(),
            builder.robot().systems() == self.robot().systems(),
            builder.robot().pollers() == self.robot().pollers(),
            builder.robot().slots() == self.robot().slots(),
            builder.robot().store().dom() == self.robot().store().dom(),
            forall|other: u64|
                other != entity_bits(self.plan().entity) && self.robot().store().dom().contains(
                    other,
                ) ==> #[trigger] builder.robot().store()[other] == self.robot().store()[other],
    {
        let mut builder = self;
        builder.add_component(component);
        builder
    }

    /// Whether the store has room for the outputs declared so far, which is
    /// what `build` needs.
    pub fn fits(&self) -> (room: bool)
        ensures
            room == (self.robot().slots() + self.plan().outputs.len() <= u32::MAX),
    {
        let count: usize = self.outputs.len();
        if count > u32::MAX as usize {
            false
        } else {
            self.robot.has_room(count as u32)
        }
    }

    /// Handles setting up all the sensor's components: writes the name and
    /// the metadata, a fresh timer where one was asked for, spawns the
    /// outputs in declaration order and lists them in the sensor's features.
    pub fn build(self) -> (entity: Entity)
        requires
            self.wf(),
            self.robot().slots() + self.plan().outputs.len() <= u32::MAX,
        ensures
            entity == self.plan().entity,
            final(self.lease()).wf(),
            final(self.lease()).systems() == self.robot().systems(),
            final(self.lease()).pollers() == self.robot().pollers(),
            self.robot().slots() <= final(self.lease()).slots() <= self.robot().slots()
                + self.plan().outputs.len(),
            built(self.robot().store(), final(self.lease()).store(), self.plan()),
    {
        let ghost before = self.robot().store();
        let ghost plan = self.plan();
        let ghost sensor = entity_bits(self.entity);
        let ghost base = before.insert(sensor, prepared(before[sensor], plan));
        let ghost slots = self.robot().slots();
        let SensorBuilder { robot, name, metadata, outputs, timer, entity } = self;
        insert_identity(&mut robot.world, entity, Name(name), metadata);
        if let Some(duration) = timer {
            insert_timer(&mut robot.world, entity, Timer::new(duration));
        }
        assert(robot.store() == base);
        let mut handles: Vec<Entity> = Vec::new();
        let mut done: usize = 0;
        while done < outputs.len()
            invariant
                plan.outputs == outputs@.map_values(|output: OutputBuilder| output@),
                sensor == entity_bits(entity),
                robot.wf(),
                robot.live().contains(sensor),
                robot.systems() == self.robot().systems(),
                robot.pollers() == self.robot().pollers(),
                slots <= robot.slots() <= slots + done,
                slots + outputs@.len() <= u32::MAX,
                base.dom() == before.dom(),
                before.dom().contains(sensor),
                done <= outputs@.len(),
                handles@.len() == done,
                bits_of(handles@).no_duplicates(),
                forall|i: int|
                    0 <= i < handles@.len() ==> !before.dom().contains(
                        #[trigger] bits_of(handles@)[i],
                    ),
                robot.store() == with_outputs(base, sensor, plan.outputs, bits_of(handles@)),
            decreases outputs@.len() - done,
        {
            let ghost earlier = bits_of(handles@);
            proof {
                lemma_with_outputs_domain(base, sensor, plan.outputs, earlier);
            }
            let handle = outputs[done].build(&entity, &mut robot.world);
            handles.push(handle);
            done = done + 1;
            proof {
                let fresh: u64 = entity_bits(handle);
                let grown = bits_of(handles@);
                assert(grown == earlier.push(fresh));
                assert(grown.drop_last() == earlier);
                assert(!earlier.contains(fresh) && !before.dom().contains(fresh));
                assert forall|i: int, j: int|
                    0 <= i < grown.len() && 0 <= j < grown.len() && i != j implies grown[i]
                    != grown[j] by {
                    if i < earlier.len() {
                        assert(earlier[i] == grown[i]);
                    }
                    if j < earlier.len() {
                        assert(earlier[j] == grown[j]);
                    }
                }
                assert forall|i: int| 0 <= i < grown.len() implies !before.dom().contains(
                    #[trigger] grown[i],
                ) by {
                    if i < earlier.len() {
                        assert(earlier[i] == grown[i]);
                    }
                }
            }
        }
        proof {
            let found = bits_of(handles@);
            lemma_with_outputs_domain(base, sensor, plan.outputs, found);
            assert(!found.contains(sensor));
            lemma_with_outputs_frame(base, sensor, plan.outputs, found, sensor);
        }
        insert_features(&mut robot.world, entity, Features(handles));
        entity
    }
}

/// The i-th output that was spawned is the i-th that was declared.
proof fn lemma_with_outputs_at(
    store: Map<u64, EntityView>,
    owner: u64,
    outputs: Seq<MetadataView>,
    handles: Seq<u64>,
    i: int,
)
    requires
        handles.no_duplicates(),
        0 <= i < handles.len(),
    ensures
        with_outputs(store, owner, outputs, handles).dom().contains(handles[i]),
        with_outputs(store, owner, outputs, handles)[handles[i]] == EntityView::output(
            owner,
            outputs[i],
        ),
    decreases handles.len(),
{
    let front = handles.drop_last();
    if i < handles.len() - 1 {
        assert(front[i] == handles[i]);
        assert(handles[handles.len() - 1] == handles.last());
        lemma_with_outputs_at(store, owner, outputs, front, i);
    }
}

/// Output ordering and back-reference integrity. After `build`, the i-th
/// handle in the sensor's features is an entity of the store whose metadata
/// is that of the i-th declared output, whose back-reference is the sensor,
/// and whose reading is zero.
pub proof fn lemma_built_outputs(
    before: Map<u64, EntityView>,
    after: Map<u64, EntityView>,
    plan: SensorPlan,
    i: int,
)
    requires
        built(before, after, plan),
        0 <= i < plan.outputs.len(),
    ensures
        after[entity_bits(plan.entity)].features is Some,
        after[entity_bits(plan.entity)].features->0.len() == plan.outputs.len(),
        after.dom().contains(after[entity_bits(plan.entity)].features->0[i]),
        after[after[entity_bits(plan.entity)].features->0[i]] == EntityView::output(
            entity_bits(plan.entity),
            plan.outputs[i],
        ),
{
    let sensor: u64 = entity_bits(plan.entity);
    let base = before.insert(sensor, prepared(before[sensor], plan));
    let handles = after[sensor].features->0;
    assert(!before.dom().contains(handles[i]));
    lemma_with_outputs_at(base, sensor, plan.outputs, handles, i);
}

/// After `build` the sensor entity carries the planned name and metadata
/// and the list of its outputs, and a fresh timer in `Wait` where one was
/// planned. Its other components are as they were.
pub proof fn lemma_built_sensor(
    before: Map<u64, EntityView>,
    after: Map<u64, EntityView>,
    plan: SensorPlan,
)
    requires
        built(before, after, plan),
    ensures
        after[entity_bits(plan.entity)].name == Some(plan.name),
        after[entity_bits(plan.entity)].metadata == Some(plan.metadata),
        after[entity_bits(plan.entity)].timer == (match plan.timer {
            Some(duration) => Some(TimerView { duration, state: State::Wait }),
            None => before[entity_bits(plan.entity)].timer,
        }),
        after[entity_bits(plan.entity)].output == before[entity_bits(plan.entity)].output,
        after[entity_bits(plan.entity)].reading == before[entity_bits(plan.entity)].reading,
{
}

/// `build` adds the outputs to the entities of the store and leaves every
/// entity but the sensor itself as it was.
pub proof fn lemma_built_frame(
    before: Map<u64, EntityView>,
    after: Map<u64, EntityView>,
    plan: SensorPlan,
    k: u64,
)
    requires
        built(before, after, plan),
    ensures
        after.dom().contains(k) <==> (before.dom().contains(k) || after[entity_bits(
            plan.entity,
        )].features->0.contains(k)),
        before.dom().contains(k) && k != entity_bits(plan.entity) ==> after[k] == before[k],
{
    let sensor: u64 = entity_bits(plan.entity);
    let base = before.insert(sensor, prepared(before[sensor], plan));
    let handles = after[sensor].features->0;
    lemma_with_outputs_domain(base, sensor, plan.outputs, handles);
    if before.dom().contains(k) && k != sensor {
        if handles.contains(k) {
            let i: int = choose|i: int| 0 <= i < handles.len() && handles[i] == k;
            assert(!before.dom().contains(handles[i]));
        }
        lemma_with_outputs_frame(base, sensor, plan.outputs, handles, k);
    }
}

/// The undefined default. A sensor that was never given a type is built
/// with the metadata id 255, "Undefined", "N/A", and so is each of its
/// outputs that was declared without a type.
pub proof fn lemma_untyped_is_undefined(
    before: Map<u64, EntityView>,
    after: Map<u64, EntityView>,
    plan: SensorPlan,
    i: int,
)
    requires
        built(before, after, plan),
    ensures
        plan.metadata == undefined_metadata() ==> after[entity_bits(plan.entity)].metadata == Some(
            MetadataView { id: 255, name: "Undefined"@, description: "N/A"@ },
        ),
        0 <= i < plan.outputs.len() && plan.outputs[i] == undefined_metadata() ==> after[after[entity_bits(
            plan.entity,
        )].features->0[i]].metadata == Some(
            MetadataView { id: 255, name: "Undefined"@, description: "N/A"@ },
        ),
{
    lemma_built_sensor(before, after, plan);
    if 0 <= i < plan.outputs.len() {
        lemma_built_outputs(before, after, plan, i);
    }
}

} // verus!
