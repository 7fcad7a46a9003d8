//! A live terminal dashboard over a database's session activity.
//!
//! The library holds the dashboard's logic: decoding keys, the ordered event
//! queue that merges the clock and the keyboard, the controller that keeps the
//! selection and the fetched data, the pure rendering of a frame model, and the
//! assembly of the connection string. The program around it performs the I/O.
pub mod dashboard;
pub mod db;
pub mod error;
pub mod event;
pub mod render;
pub mod selection;
pub mod settings;
pub mod text;

pub use dashboard::{Command, StatActivityView};
pub use db::{PGStatActivity, PGSystemInfo};
pub use error::{CliError, CliResult};
pub use event::{decode_key, Delivery, Event, EventQueue, Key, RawKey, TICK_RATE_MS};
pub use render::{
    activity_row, activity_widths, get_header_row, render_frame, system_info_row, system_info_widths, ColumnWidth,
    FrameModel, RenderRow,
};
pub use selection::Selection;
pub use settings::ConnectionSettings;
