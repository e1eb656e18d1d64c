//! Visualize panics with native GUI dialogs.
//!
//! A small library for GUI applications that have no console: when an
//! unhandled failure reaches the top of a thread, a handler turns the
//! failure's payload, message and source location into the parameters of a
//! modal alert dialog. The library holds the configuration type, the
//! resolution of its optional fields to their fallbacks, and the
//! composition of the dialog text; the surrounding application installs
//! the handler with the runtime and shows the dialog.

mod config;
mod decimal;
mod handler;
mod registry;

pub use config::ConfigView;
pub use config::VisualPanic;
pub use config::VisualPanicLevel;
pub use config::default_title;
pub use config::lemma_default_resolution;
pub use config::lemma_partial_override;
pub use config::opt_str_view;
pub use config::resolved_icon;
pub use config::resolved_level;
pub use config::resolved_title;
pub use decimal::dec_digit;
pub use decimal::dec_seq;
pub use decimal::u32_to_decimal;
pub use handler::DetailsView;
pub use handler::DialogRequest;
pub use handler::HandlerError;
pub use handler::LocationView;
pub use handler::PanicDetails;
pub use handler::PanicLocation;
pub use handler::RequestView;
pub use handler::compose_display_text;
pub use handler::display_text;
pub use handler::format_location;
pub use handler::handle_panic;
pub use handler::handler_outcome;
pub use handler::lemma_display_text_parts;
pub use handler::lemma_handler_idempotent;
pub use handler::location_text;
pub use handler::outcome_view;
pub use registry::HookRegistry;
pub use registry::lemma_install_replaces;
pub use registry::spec_install;
