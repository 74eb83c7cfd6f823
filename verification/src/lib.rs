//! Reader for Tritech Gemini GLF sonar log files.
//!
//! A GLF file is a ZIP container holding a `.dat` stream of concatenated
//! records: sonar frames (image records) and device-status snapshots. This
//! crate parses that stream, indexes every record, and materializes any frame
//! on demand as an 8-bit grayscale raster, inflating zlib-compressed payloads
//! where the record calls for it.
//!
//! Floating-point fields of the wire format (timestamps, bearing tables,
//! telemetry) are held as their raw little-endian IEEE-754 bit patterns, so
//! that the whole decoder can be stated and verified over plain integers.

pub mod ciheader;
pub mod epochgem;
pub mod error;
pub mod glf;
pub mod imagerec;
pub mod inflate;
pub mod laws;
pub mod raster;
pub mod reader;
pub mod statusrec;
pub mod zipdat;

pub use crate::ciheader::CIHeader;
pub use crate::epochgem::epoch_gem;
pub use crate::error::GlfError;
pub use crate::glf::GLF;
pub use crate::glf::NidxImg;
pub use crate::imagerec::ImageRecord;
pub use crate::raster::Raster;
pub use crate::statusrec::StatusRecord;
