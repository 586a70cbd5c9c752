//! What a user of the framework needs.

pub use crate::modules::output::Output;
pub use crate::modules::output::OutputType;
pub use crate::modules::output::Reading;
pub use crate::modules::sensor::Features;
pub use crate::modules::sensor::SensorBuilder;
pub use crate::modules::timer::Duration;
pub use crate::modules::timer::Timer;
pub use crate::modules::Metadata;
pub use crate::DefaultStage;
pub use crate::Robot;
