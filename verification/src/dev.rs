//! What the author of a module needs.

pub use crate::modules::output::Output;
pub use crate::modules::output::OutputBuilder;
pub use crate::modules::output::OutputType;
pub use crate::modules::output::Reading;
pub use crate::modules::sensor::Features;
pub use crate::modules::sensor::SensorBuilder;
pub use crate::modules::timer::Duration;
pub use crate::modules::timer::Timer;
pub use crate::modules::Descriptor;
pub use crate::modules::Metadata;
pub use crate::modules::Module;
pub use crate::DefaultStage;
pub use crate::Robot;
