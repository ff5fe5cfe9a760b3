//! Lifecycle logic of a local service supervisor: choosing which launch
//! command to spawn, deciding when a readiness probe connects, sleeps or gives
//! up, holding the single process handle between the startup and shutdown
//! paths, and the supervisor's phase machine.
//!
//! Spawning processes, opening sockets, sleeping and locking are left to the
//! caller, who performs the action that these functions decide and reports
//! back what happened.
pub mod launch;
pub mod lifecycle;
pub mod readiness;
pub mod slot;
