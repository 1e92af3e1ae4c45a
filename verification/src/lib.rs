//! A compact block-state registry.
//!
//! Every legal combination of block kind and property values is one row of a
//! dense table; the row's position is the state's numeric id. The registry
//! converts between that id, typed property views, and the string form
//! (namespaced id plus ordered name/value pairs) used for persistence.

pub mod block_data;
pub mod bundle;
pub mod data;
pub mod events;
pub mod index;
pub mod laws;
pub mod registry;
pub mod state;

pub use crate::block_data::BlockData;
pub use crate::block_data::Property;
pub use crate::bundle::unpack_bundle;
pub use crate::bundle::BundleError;
pub use crate::data::BlockKind;
pub use crate::events::BlockChangeEvent;
pub use crate::events::BlockPosition;
pub use crate::events::ChunkPosition;
pub use crate::events::ValidBlockPosition;
pub use crate::data::RawBlockProperties;
pub use crate::data::RawBlockState;
pub use crate::data::RawBlockStateProperties;
pub use crate::data::SimplifiedBlockKind;
pub use crate::data::ValidProperties;
pub use crate::registry::BlockRegistry;
pub use crate::registry::RegistryError;
pub use crate::state::BlockState;
