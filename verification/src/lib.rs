//! A pie-chart renderer: turns a titled list of labeled non-negative values
//! into a self-contained SVG document with one wedge per item, a title, and a
//! color-coded legend.
//!
//! All chart arithmetic is exact. Item values are integers in whatever fixed
//! unit the caller chooses (fractions `value / total` do not depend on the
//! unit); hues are 32-bit fractions of a turn; pixel coordinates are either
//! whole pixels or thousandths of a pixel. The only quantities the library
//! does not compute are the trigonometric arc endpoints of each wedge, which
//! the caller supplies in thousandths of a pixel.

pub mod colors;
pub mod data;
pub mod layout;
pub mod logging;
pub mod markup;
pub mod numfmt;
