//! Host-side model of a managed-code engine: the path collections and
//! property arrays handed to the engine, and the lifecycle of a bound engine.
use vstd::prelude::*;

pub mod error;
pub mod fs;
pub mod text;
pub mod paths;
pub mod assemblies;
pub mod properties;
pub mod platform;
pub mod core_clr;

pub use error::CoreClrError;
pub use error::CoreClrError as Error;
pub use error::Result;
pub use paths::Paths;
pub use assemblies::Assemblies;
pub use properties::Properties;
pub use platform::Platform;
pub use core_clr::CoreClr;
