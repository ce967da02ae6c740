//! Deciding which state the installation is in.

pub mod resolution;
pub mod resolver;
pub mod states;

pub use states::LauncherState;
pub use states::VersionDiff;
pub use resolver::Next;
pub use resolver::Request;
pub use resolver::ResolveError;
pub use resolver::Resolver;
pub use resolver::Response;
