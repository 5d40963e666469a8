//! Record types of the Source-engine BSP format, with their byte layouts.
pub mod area_flags;
pub mod emit_type;
pub mod flags;
pub mod geometry;
pub mod light;
pub mod primitive_count;
pub mod record;
pub mod scalar;
pub mod surface;
pub mod text;

pub use area_flags::AreaFlags;
pub use emit_type::{EmitType, InvalidEmitType};
pub use flags::{Contents, LeafFlags, SurfaceFlags, LIGHTMAP_COUNT, MASK_OPAQUE};
pub use geometry::{Brush, BrushSide, Edge, Leaf, Model, Node, Plane, SurfaceEdge, Vertex};
pub use light::WorldLight;
pub use primitive_count::PrimitiveCount;
pub use record::{read_record, read_records, record_size, write_record, write_records, Record};
pub use scalar::{Scalar, ScalarKind};
pub use surface::{ColorRGBExp32, Face, Lightmap, TextureData, TextureInfo, TextureMapping};
