//! Loads and stores with the memory orderings that the cursor protocol uses.
//!
//! The producer publishes the slots it wrote by a release store of `tail`, and the
//! consumer sees them after an acquire load of `tail`; `head` works the same way
//! in the other direction. A side reads the cursor it alone mutates with a relaxed
//! load. Nothing is known of a loaded value: another thread may have stored any
//! value in between.

use std::sync::atomic::AtomicBool;
use std::sync::atomic::AtomicI16;
use std::sync::atomic::AtomicI32;
use std::sync::atomic::AtomicI64;
use std::sync::atomic::AtomicI8;
use std::sync::atomic::AtomicIsize;
use std::sync::atomic::AtomicU16;
use std::sync::atomic::AtomicU32;
use std::sync::atomic::AtomicU64;
use std::sync::atomic::AtomicU8;
use std::sync::atomic::AtomicUsize;
use std::sync::atomic::Ordering;
use vstd::prelude::*;

verus! {

/// The loads and the store of the cursor protocol, on every atomic type.
pub trait AtomicExtension {
    type T;

    /// Loads the value; what is read afterwards is ordered after this load.
    fn load_acquire(&self) -> Self::T;

    /// Stores `val`; what was written before is ordered before this store.
    fn store_release(&self, val: Self::T);

    /// Loads the value without ordering, for the side that owns it.
    fn load_relaxed(&self) -> Self::T;
}

impl AtomicExtension for AtomicU8 {
    type T = u8;

    fn load_acquire(&self) -> u8 {
        self.load(Ordering::Acquire)
    }

    fn store_release(&self, val: u8) {
        self.store(val, Ordering::Release);
    }

    fn load_relaxed(&self) -> u8 {
        self.load(Ordering::Relaxed)
    }
}

impl AtomicExtension for AtomicU16 {
    type T = u16;

    fn load_acquire(&self) -> u16 {
        self.load(Ordering::Acquire)
    }

    fn store_release(&self, val: u16) {
        self.store(val, Ordering::Release);
    }

    fn load_relaxed(&self) -> u16 {
        self.load(Ordering::Relaxed)
    }
}

impl AtomicExtension for AtomicU32 {
    type T = u32;

    fn load_acquire(&self) -> u32 {
        self.load(Ordering::Acquire)
    }

    fn store_release(&self, val: u32) {
        self.store(val, Ordering::Release);
    }

    fn load_relaxed(&self) -> u32 {
        self.load(Ordering::Relaxed)
    }
}

impl AtomicExtension for AtomicU64 {
    type T = u64;

    fn load_acquire(&self) -> u64 {
        self.load(Ordering::Acquire)
    }

    fn store_release(&self, val: u64) {
        self.store(val, Ordering::Release);
    }

    fn load_relaxed(&self) -> u64 {
        self.load(Ordering::Relaxed)
    }
}

impl AtomicExtension for AtomicUsize {
    type T = usize;

    fn load_acquire(&self) -> usize {
        self.load(Ordering::Acquire)
    }

    fn store_release(&self, val: usize) {
        self.store(val, Ordering::Release);
    }

    fn load_relaxed(&self) -> usize {
        self.load(Ordering::Relaxed)
    }
}

impl AtomicExtension for AtomicI8 {
    type T = i8;

    fn load_acquire(&self) -> i8 {
        self.load(Ordering::Acquire)
    }

    fn store_release(&self, val: i8) {
        self.store(val, Ordering::Release);
    }

    fn load_relaxed(&self) -> i8 {
        self.load(Ordering::Relaxed)
    }
}

impl AtomicExtension for AtomicI16 {
    type T = i16;

    fn load_acquire(&self) -> i16 {
        self.load(Ordering::Acquire)
    }

    fn store_release(&self, val: i16) {
        self.store(val, Ordering::Release);
    }

    fn load_relaxed(&self) -> i16 {
        self.load(Ordering::Relaxed)
    }
}

impl AtomicExtension for AtomicI32 {
    type T = i32;

    fn load_acquire(&self) -> i32 {
        self.load(Ordering::Acquire)
    }

    fn store_release(&self, val: i32) {
        self.store(val, Ordering::Release);
    }

    fn load_relaxed(&self) -> i32 {
        self.load(Ordering::Relaxed)
    }
}

impl AtomicExtension for AtomicI64 {
    type T = i64;

    fn load_acquire(&self) -> i64 {
        self.load(Ordering::Acquire)
    }

    fn store_release(&self, val: i64) {
        self.store(val, Ordering::Release);
    }

    fn load_relaxed(&self) -> i64 {
        self.load(Ordering::Relaxed)
    }
}

impl AtomicExtension for AtomicIsize {
    type T = isize;

    fn load_acquire(&self) -> isize {
        self.load(Ordering::Acquire)
    }

    fn store_release(&self, val: isize) {
        self.store(val, Ordering::Release);
    }

    fn load_relaxed(&self) -> isize {
        self.load(Ordering::Relaxed)
    }
}

impl AtomicExtension for AtomicBool {
    type T = bool;

    fn load_acquire(&self) -> bool {
        self.load(Ordering::Acquire)
    }

    fn store_release(&self, val: bool) {
        self.store(val, Ordering::Release);
    }

    fn load_relaxed(&self) -> bool {
        self.load(Ordering::Relaxed)
    }
}

} // verus!
