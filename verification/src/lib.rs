//! Settings state for a device-management application.
//!
//! The library owns the user-configurable settings of the application: a set
//! of per-session toggles that control how a connected device is treated, and
//! the selected visual theme. Defaults for the toggles are derived from the
//! device's platform API level, the theme is restored by name from a loaded
//! configuration, and a message-driven update protocol applies user intent
//! and decides when the state must be written back to the configuration
//! store. Probing the device, rendering widgets and the configuration file
//! itself are the surrounding application's concern.

pub mod settings;
pub mod theme;
