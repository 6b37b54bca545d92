//! Boot and WiFi setup logic of the WinkLink device: the persistent identity,
//! the captive portal that collects network credentials, the boot sequence
//! that ties them together, and fatal escalation.

pub mod providers;
pub mod text;
pub mod portal;
pub mod random;
pub mod identity;
pub mod hotspot;
pub mod bootstrap;
pub mod fatal;
