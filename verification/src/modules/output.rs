//! Outputs: the individually addressable quantities a sensor measures. Each
//! output is an entity of its own that points back at its sensor.

use crate::modules::undefined_metadata;
use crate::modules::metadata_of;
use crate::modules::Descriptor;
use crate::modules::Metadata;
use crate::modules::MetadataView;
use crate::modules::UndefinedType;
use crate::store::entity_bits;
use crate::store::spawn_output;
use crate::store::world_id;
use crate::store::world_live;
use crate::store::world_slots;
use crate::store::world_view;
use crate::store::EntityView;
use bevy_ecs::component::Component;
use bevy_ecs::component::TableStorage;
use bevy_ecs::entity::Entity;
use bevy_ecs::world::World;
use std::ops::Deref;
use vstd::prelude::*;

verus! {

/// Output setup helper. It holds the metadata of the measured quantity and
/// may build any number of independent outputs from it.
pub struct OutputBuilder {
    metadata: Metadata,
}

impl View for OutputBuilder {
    type V = MetadataView;

    closed spec fn view(&self) -> MetadataView {
        self.metadata@
    }
}

impl OutputBuilder {
    /// A builder for an output without a type: its metadata is the
    /// undefined one.
    pub fn new() -> (builder: OutputBuilder)
        ensures
            builder@ == undefined_metadata(),
    {
        OutputBuilder { metadata: UndefinedType.metadata() }
    }

    /// Defines the output's type: the metadata becomes that of
    /// `output_type`.
    pub fn with_type<T: Descriptor + 'static>(self, output_type: T) -> (builder: OutputBuilder)
        ensures
            builder@ == metadata_of(&output_type),
    {
        let mut builder = self;
        builder.metadata = output_type.metadata();
        builder
    }

    /// Spawns one output entity in `world`: a back-reference to `sensor`,
    /// the builder's metadata and a reading of zero. No other entity
    /// changes, and every entity of the world is live afterwards. The
    /// builder stays as it is and can build again, each time a new entity.
    pub fn build(&self, sensor: &Entity, world: &mut World) -> (entity: Entity)
        requires
            world_slots(*old(world)) < u32::MAX,
        ensures
            !world_view(*old(world)).dom().contains(entity_bits(entity)),
            world_view(*final(world)) == world_view(*old(world)).insert(
                entity_bits(entity),
                EntityView::output(entity_bits(*sensor), self@),
            ),
            world_live(*final(world)) == world_view(*final(world)).dom(),
            world_slots(*old(world)) <= world_slots(*final(world)) <= world_slots(*old(world)) + 1,
            world_id(*final(world)) == world_id(*old(world)),
    {
        let meta = Metadata {
            id: self.metadata.id,
            name: self.metadata.name.clone(),
            description: self.metadata.description.clone(),
        };
        spawn_output(
            world,
            OutputBundle { output: Output(*sensor), meta, reading: Reading::default() },
        )
    }
}

/// One builder, several outputs. Two outputs built one after the other for
/// the same owner from the same metadata are two entities, each in the
/// store with that metadata, that back-reference and a reading of its own
/// at zero.
pub proof fn lemma_outputs_of_one_builder(
    store: Map<u64, EntityView>,
    owner: u64,
    metadata: MetadataView,
    first: u64,
    second: u64,
)
    requires
        !store.dom().contains(first),
        !store.insert(first, EntityView::output(owner, metadata)).dom().contains(second),
    ensures
        first != second,
        store.insert(first, EntityView::output(owner, metadata)).insert(
            second,
            EntityView::output(owner, metadata),
        )[first] == EntityView::output(owner, metadata),
        store.insert(first, EntityView::output(owner, metadata)).insert(
            second,
            EntityView::output(owner, metadata),
        )[second] == EntityView::output(owner, metadata),
{
}

/// The three components an output entity is spawned with.
#[derive(Debug)]
pub struct OutputBundle {
    pub(crate) output: Output,
    pub(crate) meta: Metadata,
    pub(crate) reading: Reading,
}

impl OutputBundle {
    /// The entity that spawning this bundle yields.
    pub closed spec fn view(&self) -> EntityView {
        EntityView {
            name: None,
            metadata: Some(self.meta@),
            timer: None,
            features: None,
            output: Some(entity_bits(self.output.0)),
            reading: Some(self.reading.bits),
        }
    }
}

/// Output identifier: the handle of the sensor that owns the output.
#[derive(Debug)]
pub struct Output(pub Entity);

impl Component for Output {
    type Storage = TableStorage;
}

impl Deref for Output {
    type Target = Entity;

    fn deref(&self) -> (owner: &Entity)
        ensures
            *owner == self.0,
    {
        &self.0
    }
}

/// An output's reading: a 64-bit float, held as its bit pattern.
#[derive(Debug)]
pub struct Reading {
    bits: u64,
}

impl Component for Reading {
    type Storage = TableStorage;
}

impl Default for Reading {
    /// The reading zero.
    fn default() -> (reading: Reading)
        ensures
            reading@ == 0,
    {
        Reading { bits: 0 }
    }
}

impl View for Reading {
    type V = u64;

    closed spec fn view(&self) -> u64 {
        self.bits
    }
}

impl Reading {
    /// The reading whose bit pattern is `bits`.
    pub fn from_bits(bits: u64) -> (reading: Reading)
        ensures
            reading@ == bits,
    {
        Reading { bits }
    }

    /// The bit pattern of the reading.
    pub fn bits(&self) -> (bits: u64)
        ensures
            bits == self@,
    {
        self.bits
    }

    /// Replaces the reading by the one whose bit pattern is `bits`.
    pub fn set(&mut self, bits: u64)
        ensures
            final(self)@ == bits,
    {
        self.bits = bits;
    }
}

/// The kinds of quantity an output can measure.
#[derive(Default, Debug)]
pub enum OutputType {
    #[default]
    Temperature,
    Humidity,
    Moisture,
}

impl Component for OutputType {
    type Storage = TableStorage;
}

impl Descriptor for OutputType {
    open spec fn spec_id(&self) -> u8 {
        match self {
            OutputType::Temperature => 0,
            OutputType::Humidity => 1,
            OutputType::Moisture => 2,
        }
    }

    open spec fn spec_name(&self) -> Seq<char> {
        match self {
            OutputType::Temperature => "Temperature"@,
            OutputType::Humidity => "Humidity"@,
            OutputType::Moisture => "Moisture"@,
        }
    }

    open spec fn spec_description(&self) -> Seq<char> {
        "Description"@
    }

    fn id(&self) -> (id: u8) {
        match self {
            OutputType::Temperature => 0,
            OutputType::Humidity => 1,
            OutputType::Moisture => 2,
        }
    }

    fn name(&self) -> (name: String) {
        match self {
            OutputType::Temperature => "Temperature".to_string(),
            OutputType::Humidity => "Humidity".to_string(),
            OutputType::Moisture => "Moisture".to_string(),
        }
    }

    fn description(&self) -> (description: String) {
        match self {
            OutputType::Temperature => "Description".to_string(),
            OutputType::Humidity => "Description".to_string(),
            OutputType::Moisture => "Description".to_string(),
        }
    }
}

} // verus!
