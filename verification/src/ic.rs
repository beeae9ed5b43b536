//! Zero-sized markers identifying the chip variant a device handle is for.
//! A handle tagged with one marker cannot be passed to operations of the
//! other variant; the compiler checks this.

use vstd::prelude::*;

verus! {

/// MLX90614 IC marker: single/dual-zone variant with the larger register
/// set and a 64-bit device identifier.
pub struct Mlx90614;

/// MLX90615 IC marker: simpler register set and a 32-bit device identifier.
pub struct Mlx90615;

} // verus!
