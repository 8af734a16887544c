//! Decision logic of a userspace Force Touch and haptics daemon for the
//! Bluetooth Magic Trackpad 2: touch report decoding, click staging,
//! haptic report bytes, configuration text and validation.

pub mod text;
pub mod buttons;
pub mod click;
pub mod touch;
pub mod reports;
pub mod ioctl;
pub mod mouse;
pub mod intparse;
pub mod conf;
pub mod settings;
pub mod args;
pub mod timing;
pub mod device;
