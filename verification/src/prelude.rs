//! The items most applications need.

pub use crate::material::{PolylineMaterial, PolylineMaterialHandle};
pub use crate::polyline::{Polyline, PolylineBundle, PolylineHandle};
