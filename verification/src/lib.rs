//! A small robotics framework on an entity-component store: a robot holds
//! sensors, their outputs and the systems that run on them once per tick.

use crate::modules::Module;
use crate::store::add_default_stage;
use crate::store::add_polling_to_default_stage;
use crate::store::add_to_default_stage;
use crate::store::default_stage_polling;
use crate::store::has_room;
use crate::store::lemma_unpolled;
use crate::store::polled;
use crate::store::stage_world;
use crate::store::world_id;
use crate::store::new_schedule;
use crate::store::new_world;
use crate::store::run_schedule;
use crate::store::default_stage_size;
use crate::store::stage_count;
use crate::store::world_live;
use crate::store::world_slots;
use crate::store::world_view;
use crate::store::EntityView;
use crate::store::SYSTEM_LIMIT;
use bevy_ecs::schedule::IntoSystemDescriptor;
use bevy_ecs::schedule::Schedule;
use bevy_ecs::schedule::StageLabel;
use bevy_ecs::world::World;
use vstd::prelude::*;

pub mod clock;
pub mod dev;
pub mod modules;
pub mod prelude;
pub mod store;

verus! {

/// The label of the one stage a robot's systems run in.
pub struct DefaultStage;

impl StageLabel for DefaultStage {
    fn as_str(&self) -> (text: &'static str)
        ensures
            text@ == "DefaultStage"@,
    {
        "DefaultStage"
    }
}

/// The runtime: a component store and the systems that run on it.
pub struct Robot {
    world: World,
    scheduler: Schedule,
    /// How many systems are registered, counted up to `SYSTEM_LIMIT`.
    registered: u32,
    /// How many of them are the polling system, counted likewise.
    polling: u32,
}

/// A count as the robot keeps it: exact below `SYSTEM_LIMIT`, and
/// `SYSTEM_LIMIT` from there on.
pub open spec fn counted(count: nat) -> nat {
    if count < SYSTEM_LIMIT {
        count
    } else {
        SYSTEM_LIMIT as nat
    }
}

impl Robot {
    /// Every robot has one stage, for its systems, keeps count of them, and
    /// holds the store they first ran on, if they have run.
    pub closed spec fn wf(&self) -> bool {
        &&& stage_count(self.scheduler) == 1
        &&& default_stage_size(self.scheduler) is Some
        &&& self.pollers() <= self.systems()
        &&& self.registered == counted(self.systems())
        &&& self.polling == counted(self.pollers())
        &&& stage_world(self.scheduler) is Some ==> stage_world(self.scheduler)->0 == world_id(
            self.world,
        )
    }

    /// The scheduler as it stands.
    pub closed spec fn schedule(&self) -> Schedule {
        self.scheduler
    }

    /// The store as it stands.
    pub closed spec fn world(&self) -> World {
        self.world
    }

    /// What the store holds: each entity, by the bits of its handle, with
    /// the components of this crate that it carries.
    pub closed spec fn store(&self) -> Map<u64, EntityView> {
        world_view(self.world)
    }

    /// The live entities of the store: all but those only reserved so far.
    pub closed spec fn live(&self) -> Set<u64> {
        world_live(self.world)
    }

    /// How many entity indices the store has handed out; a `u32` holds them.
    pub closed spec fn slots(&self) -> nat {
        world_slots(self.world)
    }

    /// How many systems are registered.
    pub closed spec fn systems(&self) -> nat {
        default_stage_size(self.scheduler)->0
    }

    /// How many of the registered systems are the polling system.
    pub closed spec fn pollers(&self) -> nat {
        default_stage_polling(self.scheduler)
    }

    /// A robot without entities and without systems.
    pub fn new() -> (robot: Robot)
        ensures
            robot.wf(),
            robot.store() == (Map::<u64, EntityView>::empty()),
            robot.live() == Set::<u64>::empty(),
            robot.slots() == 0,
            robot.systems() == 0,
            robot.pollers() == 0,
    {
        let mut scheduler = new_schedule();
        add_default_stage(&mut scheduler);
        Robot { world: new_world(), scheduler, registered: 0, polling: 0 }
    }

    /// Runs every registered system once, for a robot whose systems are
    /// all the polling system: each timer in the store is polled once by
    /// each of them and nothing else changes. Without any system the store
    /// stays as it is.
    ///
    /// A robot that holds systems of the caller's is run by the caller,
    /// with `parts`: whether such a pass returns, and what it does to the
    /// store, depends on those systems.
    pub fn run(&mut self)
        requires
            old(self).wf(),
            old(self).systems() < SYSTEM_LIMIT,
            old(self).systems() == old(self).pollers(),
        ensures
            final(self).wf(),
            final(self).systems() == old(self).systems(),
            final(self).pollers() == old(self).pollers(),
            polled(old(self).store(), final(self).store(), old(self).pollers()),
            final(self).live() == old(self).live(),
            final(self).slots() == old(self).slots(),
            old(self).systems() == 0 ==> final(self).store() == old(self).store(),
    {
        run_schedule(&mut self.scheduler, &mut self.world);
        proof {
            if old(self).systems() == 0 {
                lemma_unpolled(old(self).store(), self.store());
            }
        }
    }

    /// Whether `run` can run the robot: whether it holds few enough
    /// systems, and none but the polling system.
    pub fn can_run(&self) -> (able: bool)
        requires
            self.wf(),
        ensures
            able == (self.systems() < SYSTEM_LIMIT && self.systems() == self.pollers()),
    {
        self.registered < SYSTEM_LIMIT && self.polling == self.registered
    }

    /// Hands out the scheduler and the store, for the caller to make a pass
    /// over systems of its own (`Schedule::run`) or to look into the store.
    /// The robot is what the caller leaves of the two; nothing more is known
    /// of it afterwards.
    pub fn parts(&mut self) -> (parts: (&mut Schedule, &mut World))
        ensures
            *parts.0 == old(self).schedule(),
            *parts.1 == old(self).world(),
            final(self).schedule() == *final(parts.0),
            final(self).world() == *final(parts.1),
    {
        (&mut self.scheduler, &mut self.world)
    }

    /// Adds a module and hands the robot back, for chaining. What the
    /// module's `init` returned is dropped.
    pub fn with<T: Module<E>, E>(self, module: T) -> (robot: Robot)
        requires
            self.wf(),
            module.accepts(self),
        ensures
            robot.wf(),
            (exists|out: E| module.delivers(self, robot, out)),
    {
        let mut robot = self;
        let out = robot.add(module);
        assert(module.delivers(self, robot, out));
        robot
    }

    /// Adds a module and returns what its `init` returned.
    pub fn add<T: Module<E>, E>(&mut self, module: T) -> (out: E)
        requires
            old(self).wf(),
            module.accepts(*old(self)),
        ensures
            final(self).wf(),
            module.delivers(*old(self), *final(self), out),
    {
        module.init(self)
    }

    /// Registers `system`. The store is not touched.
    pub fn add_system<F, Params>(&mut self, system: F) where F: IntoSystemDescriptor<Params>
        requires
            old(self).wf(),
        ensures
            final(self).wf(),
            final(self).systems() == old(self).systems() + 1,
            final(self).pollers() == old(self).pollers(),
            final(self).store() == old(self).store(),
            final(self).live() == old(self).live(),
            final(self).slots() == old(self).slots(),
    {
        add_to_default_stage(&mut self.scheduler, system);
        self.count_one();
    }

    /// Registers `system` and hands the robot back, for chaining.
    pub fn with_system<F, Params>(self, system: F) -> (robot: Robot) where
        F: IntoSystemDescriptor<Params>,

        requires
            self.wf(),
        ensures
            robot.wf(),
            robot.systems() == self.systems() + 1,
            robot.pollers() == self.pollers(),
            robot.store() == self.store(),
            robot.live() == self.live(),
            robot.slots() == self.slots(),
    {
        let mut robot = self;
        robot.add_system(system);
        robot
    }

    /// Whether the store has room for `count` more entities.
    pub fn has_room(&self, count: u32) -> (room: bool)
        ensures
            room == (self.slots() + count <= u32::MAX),
    {
        has_room(&self.world, count)
    }

    /// Registers the polling system, which once per tick updates every
    /// timer in the store that is not ready. The store is not touched.
    pub(crate) fn add_polling(&mut self)
        requires
            old(self).wf(),
        ensures
            final(self).wf(),
            final(self).systems() == old(self).systems() + 1,
            final(self).pollers() == old(self).pollers() + 1,
            final(self).store() == old(self).store(),
            final(self).live() == old(self).live(),
            final(self).slots() == old(self).slots(),
    {
        add_polling_to_default_stage(&mut self.scheduler);
        self.count_one();
        if self.polling < SYSTEM_LIMIT {
            self.polling = self.polling + 1;
        }
    }

    /// Counts one registration.
    fn count_one(&mut self)
        ensures
            final(self).world == old(self).world,
            final(self).scheduler == old(self).scheduler,
            final(self).polling == old(self).polling,
            final(self).registered == if old(self).registered < SYSTEM_LIMIT {
                (old(self).registered + 1) as u32
            } else {
                old(self).registered
            },
    {
        if self.registered < SYSTEM_LIMIT {
            self.registered = self.registered + 1;
        }
    }
}

} // verus!
