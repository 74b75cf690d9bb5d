//! An escape-time Mandelbrot renderer: maps pixel coordinates onto a viewport
//! of the complex plane, iterates the recurrence for each point, turns the
//! iteration counts into 8-bit samples, and hands the finished buffer to a
//! PNG encoder. Double-precision values travel through the verified code as
//! their IEEE-754 bit patterns.

pub mod complex;
pub mod fbits;
pub mod mandelbrot;
