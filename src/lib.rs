//! Screen capture core: conversion of a display server's raw root-window
//! snapshot into an RGBA pixel buffer, the preview loop's state machine, and
//! the ordering of resource acquisition and release around a capture run.

pub mod error;
pub mod frame;
pub mod interaction;
pub mod lifecycle;
pub mod preview;
