//! The names a host needs for ordinary use of the crate: the holder types,
//! the startup configuration, and the generator types they wrap.

pub use crate::component::chacha::ChaChaRngComponent;
pub use crate::component::rng::RngComponent;
pub use crate::component::secure::SecureRngComponent;
pub use crate::global::chacha::GlobalChaChaRng;
pub use crate::global::rng::GlobalRng;
pub use crate::global::secure::GlobalSecureRng;
pub use crate::plugin::RngPlugin;
pub use crate::traits::SecureSeedSource;
pub use crate::traits::SeedSource;
pub use turborand::prelude::ChaChaRng;
pub use turborand::prelude::Rng;
