//! Layout and rules of plate meshes swept from polylines, and the debounce rule of the
//! sketch watcher.
pub mod normals;
pub mod plate;
pub mod watch;
