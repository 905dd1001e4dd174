//! Classification of HTTP User-Agent strings into bots or known
//! client/device/operating-system triples, driven by ordered rule lists.

pub mod pattern;
pub mod rules;
pub mod text;
pub mod hints;
pub mod known_browsers;
pub mod bot;
pub mod os;
pub mod client;
pub mod device;
pub mod device_detector;
