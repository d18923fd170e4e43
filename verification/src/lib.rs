pub mod bus;
pub mod dispatch;
pub mod errors;
pub mod path;
pub mod registry;
pub mod system;

pub use bus::EventBus;
pub use bus::EventConsumer;
pub use bus::RecvOutcome;
pub use bus::SystemEvent;
pub use dispatch::ask_outcome;
pub use dispatch::runner_step;
pub use dispatch::tell_outcome;
pub use dispatch::LoopAction;
pub use errors::ActorError;
pub use path::ActorPath;
pub use registry::ActorEntry;
pub use registry::Registry;
pub use system::ActorSystem;
