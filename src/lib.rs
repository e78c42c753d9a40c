//! Native-object lifetime bridge for a garbage-collected host runtime.
//!
//! Native values are attached to host wrapper objects inside type-tagged
//! boxes, recovered later with a check of the type tag, and torn down exactly
//! once when the host collects the wrapper, together with any teardown work
//! that explicit native references chained onto the wrapper.

pub mod status;
pub mod tagged;
pub mod registry;
pub mod bridge;
pub mod instance;

pub use status::{check_class_status, check_status, Error, Status};
pub use tagged::TaggedObject;
pub use registry::{FinalizeChain, ReferenceEntry, Registry};
pub use bridge::{new_instance, Bridge, FinalizeAction, WrapSlot};
pub use instance::{
    property_name, ClassInstance, JavaScriptClassExt, NapiRaw, NapiValue, Object, PropertyAttributes, This,
};
