//! An adapter that lets an externally owned graphics context — an opaque
//! handle plus five callbacks supplied by the host environment — serve as the
//! backend a rendering library expects. The adapter forwards each operation to
//! its callback and translates the raw result: a boolean swap report into a
//! success-or-lost-context result, a symbol name into its nul-terminated
//! boundary form, a sentinel-convention size report into a checked dimension
//! pair.

pub mod backend;
pub mod marshal;

pub use backend::CBackend;
pub use backend::SwapBuffersError;
pub use backend::swap_result_from;
pub use marshal::marshal_symbol;
pub use marshal::check_reported_dimensions;
pub use marshal::DIMENSION_SENTINEL;
