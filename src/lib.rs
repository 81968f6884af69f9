//! A typed event bridge: events get a namespaced wire-name from the plugin that
//! owns them, are registered once per plugin and looked up at dispatch time.
pub mod collection;
pub mod names;
pub mod payload;
pub mod registry;

pub use collection::{collect_events, EventCollection, EventDataType, EventDescriptor, EventError};
pub use names::PluginName;
pub use payload::{PayloadError, TypedEvent};
pub use registry::{EventRegistry, EventRegistryMeta};
