//! The pieces a robot is assembled from: descriptors and metadata, the
//! builders for sensors and their outputs, and the polling timer.

use crate::Robot;
use bevy_ecs::component::Component;
use bevy_ecs::component::TableStorage;
use vstd::prelude::*;

pub mod output;
pub mod sensor;
pub mod timer;

verus! {

/// A self-contained feature bundle: a sensor driver, a display, and the
/// like. `init` builds whatever entities and systems the feature needs on
/// the robot it is given and hands back what the caller should keep, most
/// often the handles of what it built.
///
/// `accepts` and `delivers` are the module's own statement of what `init`
/// needs and achieves, so that `Robot::add` and `Robot::with` can pass it on
/// to their callers. A module that states nothing leaves both at `true`.
pub trait Module<T>: Sized {
    /// What `init` needs of the robot beyond its being well-formed.
    open spec fn accepts(self, robot: Robot) -> bool {
        true
    }

    /// What `init` achieves: how the robot it leaves and the value it
    /// returns relate to the robot it found.
    open spec fn delivers(self, before: Robot, after: Robot, out: T) -> bool {
        true
    }

    /// Initializes the module on `robot`. The robot must be left
    /// well-formed, so that it can run at once.
    fn init(self, robot: &mut Robot) -> (out: T)
        requires
            old(robot).wf(),
            self.accepts(*old(robot)),
        ensures
            final(robot).wf(),
            self.delivers(*old(robot), *final(robot), out),
    ;
}

/// Identity of a typed object: a numeric id, a display name and a
/// description. The id 255 is reserved for "no type assigned".
#[derive(Debug)]
pub struct Metadata {
    pub id: u8,
    pub name: String,
    pub description: String,
}

impl Component for Metadata {
    type Storage = TableStorage;
}

/// The mathematical content of a `Metadata`.
pub struct MetadataView {
    pub id: u8,
    pub name: Seq<char>,
    pub description: Seq<char>,
}

impl View for Metadata {
    type V = MetadataView;

    open spec fn view(&self) -> MetadataView {
        MetadataView { id: self.id, name: self.name@, description: self.description@ }
    }
}

/// The metadata of an object that has no type assigned: id 255, name
/// "Undefined", description "N/A".
pub open spec fn undefined_metadata() -> MetadataView {
    MetadataView { id: 255, name: "Undefined"@, description: "N/A"@ }
}

/// The metadata that a descriptor's three answers make up.
pub open spec fn metadata_of<T: Descriptor + ?Sized>(descriptor: &T) -> MetadataView {
    MetadataView {
        id: descriptor.spec_id(),
        name: descriptor.spec_name(),
        description: descriptor.spec_description(),
    }
}

/// The capability of describing oneself. The three `spec_` functions say
/// what the three methods return; a type that does not state them describes
/// itself as undefined.
pub trait Descriptor {
    /// The id that `id` returns.
    open spec fn spec_id(&self) -> u8 {
        255
    }

    /// The text that `name` returns.
    open spec fn spec_name(&self) -> Seq<char> {
        "Undefined"@
    }

    /// The text that `description` returns.
    open spec fn spec_description(&self) -> Seq<char> {
        "N/A"@
    }

    fn id(&self) -> (id: u8)
        ensures
            id == self.spec_id(),
    ;

    fn name(&self) -> (name: String)
        ensures
            name@ == self.spec_name(),
    ;

    fn description(&self) -> (description: String)
        ensures
            description@ == self.spec_description(),
    ;

    /// Packages the three answers into one value.
    fn metadata(&self) -> (metadata: Metadata)
        ensures
            metadata.id == self.spec_id(),
            metadata.name@ == self.spec_name(),
            metadata.description@ == self.spec_description(),
    {
        Metadata { id: self.id(), name: self.name(), description: self.description() }
    }
}

/// The descriptor of an object that has no type assigned.
#[derive(Default, Debug)]
pub struct UndefinedType;

impl Descriptor for UndefinedType {
    fn id(&self) -> (id: u8)
        ensures
            id == 255,
    {
        255
    }

    fn name(&self) -> (name: String)
        ensures
            name@ == "Undefined"@,
    {
        "Undefined".to_string()
    }

    fn description(&self) -> (description: String)
        ensures
            description@ == "N/A"@,
    {
        "N/A".to_string()
    }
}

/// Whatever is asked of it, and however often, the undefined descriptor
/// answers with id 255, name "Undefined" and description "N/A".
pub proof fn lemma_undefined_is_constant(descriptor: UndefinedType)
    ensures
        descriptor.spec_id() == 255,
        metadata_of(&descriptor) == undefined_metadata(),
{
}

} // verus!
