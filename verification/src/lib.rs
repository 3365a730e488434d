pub mod auth;
pub mod compat;
pub mod config;
pub mod connection;
pub mod constants;
pub mod destination;
pub mod error;
pub mod job;
pub mod option_map;
pub mod options;
pub mod text;

pub use constants::{
    COPIES, MEDIA, PRINT_COLOR_MODE, PRINT_QUALITY, SIDES, ORIENTATION, PRINT_COLOR_MODE_AUTO,
    PRINT_COLOR_MODE_MONOCHROME, PRINT_COLOR_MODE_COLOR, PRINT_QUALITY_DRAFT,
    PRINT_QUALITY_NORMAL, PRINT_QUALITY_HIGH, SIDES_ONE_SIDED, SIDES_TWO_SIDED_PORTRAIT,
    SIDES_TWO_SIDED_LANDSCAPE, ORIENTATION_PORTRAIT, ORIENTATION_LANDSCAPE, MEDIA_A4,
    MEDIA_LETTER, MEDIA_LEGAL, MEDIA_FLAGS_DEFAULT, MEDIA_FLAGS_BORDERLESS, MEDIA_FLAGS_DUPLEX,
    MEDIA_FLAGS_EXACT, MEDIA_FLAGS_READY, DEST_FLAGS_NONE, DEST_FLAGS_UNCONNECTED,
    DEST_FLAGS_MORE, DEST_FLAGS_REMOVED, DEST_FLAGS_ERROR, PRINTER_LOCAL, PRINTER_CLASS,
    PRINTER_REMOTE, PRINTER_BW, PRINTER_COLOR, PRINTER_DUPLEX, WHICHJOBS_ALL, WHICHJOBS_ACTIVE,
    WHICHJOBS_COMPLETED,
};
pub use destination::{Destination, MediaSize, PrinterState};
pub use error::{Error, ErrorCategory, Result};
pub use option_map::OptionMap;
pub use options::{add_integer_option, add_option, get_integer_option, get_option, remove_option};
pub use job::{
    ColorMode, DuplexMode, Job, JobInfo, JobStatus, Orientation, PrintOptions, PrintQuality,
    FORMAT_JPEG, FORMAT_PDF, FORMAT_POSTSCRIPT, FORMAT_TEXT,
};
pub use connection::ConnectionFlags;
pub use config::{ConfigSummary, EncryptionMode};
