//! Boundary layer of a retained-mode scene renderer: display-list building,
//! the display-list wire codec, per-pipeline epoch bookkeeping, the
//! external-image lock protocol, the blob-image cache, and the CSS border
//! shorthand parser that feeds border properties to the display list.

pub mod ids;
pub mod geom;
pub mod style;
pub mod wire;
pub mod record;
pub mod display_list;
pub mod codec;
pub mod builder;
pub mod state;
pub mod table;
pub mod resources;
pub mod api;
pub mod renderer;
pub mod blob;
pub mod external_image;
pub mod border;
