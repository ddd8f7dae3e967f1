//! Format discovery for registered types: from a type path to an example
//! value that constructs an instance, and to the sub-paths through which an
//! existing instance can be changed.
//!
//! The registry of type descriptors is the library's own model of what
//! reflection exposes; the host fills it.

pub mod descriptor;
pub mod discovery;
pub mod error;
pub mod examples;
pub mod format;
pub mod json;
pub mod keyboard;
pub mod mutation;
pub mod plugin;
pub mod request;
pub mod response;
pub mod spawn;
pub mod text;

pub use descriptor::{NamedField, TypeCategory, TypeDescriptor, TypeRegistry, Variant, VariantKind};
pub use discovery::{
    discover_component_format, discover_multiple_formats, discover_multiple_formats_with_debug,
    get_common_component_types, DiscoverySummary, MultiDiscoveryResult,
};
pub use error::{DebugContext, DiscoveryError, RegistryError};
pub use format::{FieldInfo, FormatInfo, MutationInfo, SpawnInfo};
pub use json::{Decimal, JsonValue};
pub use keyboard::KeyCodeWrapper;
pub use plugin::{BrpExtrasPlugin, DEFAULT_REMOTE_PORT};
