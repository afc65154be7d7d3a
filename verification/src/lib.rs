//! Verified core of a body-tracking pose streamer.
//!
//! A sensor reports the joints of a tracked body, frame by frame. Each joint
//! is stabilised by a filter, placed in the world by a calibration, and sent
//! on as a pose message. The calibration comes from a separate tool, which
//! matches three landmarks as two devices see them.
//!
//! This crate holds the decisions of that pipeline: how a joint's filter
//! advances from sample to sample, which landmarks are kept, when the cached
//! calibration is replaced, how a replayed recording is paced, what a result
//! code of the sensor means, and how a pose is laid out on the wire.
//!
//! Arithmetic on doubles is left to the caller. Here a double is carried as
//! its IEEE-754 bit pattern; it is copied, stored and encoded, never computed
//! on. Devices, files, sockets and the clock are the caller's too: the caller
//! hands in what it read and carries out what is decided.

pub mod geometry;
pub mod skeleton;
pub mod filter;
pub mod calibrator;
pub mod calibration;
pub mod profile_provider;
pub mod k4a;
pub mod active_sensor;
pub mod kinect;
pub mod osc;
pub mod stream;
