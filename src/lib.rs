//! The file-system core of a media triage service: a metadata index kept as
//! two mirrored maps, a thumbnail cache, destination path templating, the
//! decisions of the ingestion pipeline and the commit step of batch
//! operations.

pub mod destinations;
pub mod facade;
pub mod model;
pub mod paths;
pub mod storage;
pub mod thumbnail;
pub mod watchdog;
