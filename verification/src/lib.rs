//! Verified logic of the pod's STM32F767ZI boards: the on-card log format
//! and its bookkeeping, the navigation kinematics decoding, the motor
//! controller state machines, the CAN and event bus mapping, and the
//! board responders.
pub mod logging;
pub mod sdmmc;
pub mod navigation;
pub mod messages;
pub mod bridge;
pub mod motor;
pub mod status;
pub mod boards;
