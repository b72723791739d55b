// Lifecycle orchestration for installed game builds: the instance state
// machine, the launch session, the registry and the application controller.
pub mod controller;
pub mod instance;
pub mod launcher;
pub mod lifecycle;
pub mod paths;
pub mod registry;
