//! Device memory: the byte type, the copies between host and device, and kept-aside allocations.
use vstd::prelude::*;
use vstd::layout::spec_size_of_val;
use crate::queue::Queue;
use crate::context::CurrentCtx;

verus! {

/// A byte of device memory.
pub struct DevByte(pub u8);

/// Which way a copy goes.
#[derive(Clone, Copy, PartialEq, Eq, Structural, Hash, Debug)]
pub enum CopyDirection {
    DeviceToHost,
    HostToDevice,
    DeviceToDevice,
}

/// A copy to hand to the driver: its direction, how many bytes, and the queue it is ordered on
/// (`None` for a copy that completes before returning).
#[derive(Clone, Copy, PartialEq, Eq, Structural, Hash, Debug)]
pub struct Transfer {
    pub direction: CopyDirection,
    pub bytes: usize,
    pub queue: Option<usize>,
}

/// The copy of device bytes `src` into host values `dst`, which must take as many bytes.
pub fn memcpy_d2h<T: Copy>(dst: &[T], src: &[DevByte]) -> (t: Transfer)
    requires
        spec_size_of_val::<[T]>(dst) == spec_size_of_val::<[DevByte]>(src),
    ensures
        t == (Transfer {
            direction: CopyDirection::DeviceToHost,
            bytes: spec_size_of_val::<[T]>(dst) as usize,
            queue: None,
        }),
{
    let len = core::mem::size_of_val(dst);
    Transfer { direction: CopyDirection::DeviceToHost, bytes: len, queue: None }
}

/// The copy of host values `src` into device bytes `dst`, which must take as many bytes.
pub fn memcpy_h2d<T: Copy>(dst: &[DevByte], src: &[T]) -> (t: Transfer)
    requires
        spec_size_of_val::<[T]>(src) == spec_size_of_val::<[DevByte]>(dst),
    ensures
        t == (Transfer {
            direction: CopyDirection::HostToDevice,
            bytes: spec_size_of_val::<[T]>(src) as usize,
            queue: None,
        }),
{
    let len = core::mem::size_of_val(src);
    Transfer { direction: CopyDirection::HostToDevice, bytes: len, queue: None }
}

/// The copy of device bytes `src` into device bytes `dst`, which must be as long.
pub fn memcpy_d2d(dst: &[DevByte], src: &[DevByte]) -> (t: Transfer)
    requires
        spec_size_of_val::<[DevByte]>(src) == spec_size_of_val::<[DevByte]>(dst),
    ensures
        t == (Transfer {
            direction: CopyDirection::DeviceToDevice,
            bytes: spec_size_of_val::<[DevByte]>(src) as usize,
            queue: None,
        }),
{
    let len = core::mem::size_of_val(src);
    Transfer { direction: CopyDirection::DeviceToDevice, bytes: len, queue: None }
}

impl Queue {
    /// The copy of host values `src` into device bytes `dst` ordered on this queue; `dst` must
    /// take as many bytes.
    pub fn memcpy_h2d<T: Copy>(&self, dst: &[DevByte], src: &[T]) -> (t: Transfer)
        requires
            spec_size_of_val::<[T]>(src) == spec_size_of_val::<[DevByte]>(dst),
        ensures
            t == (Transfer {
                direction: CopyDirection::HostToDevice,
                bytes: spec_size_of_val::<[T]>(src) as usize,
                queue: Some(self.raw),
            }),
    {
        let len = core::mem::size_of_val(src);
        Transfer { direction: CopyDirection::HostToDevice, bytes: len, queue: Some(self.raw) }
    }

    /// The copy of device bytes `src` into device bytes `dst` ordered on this queue; `dst` must
    /// be as long.
    pub fn memcpy_d2d(&self, dst: &[DevByte], src: &[DevByte]) -> (t: Transfer)
        requires
            spec_size_of_val::<[DevByte]>(src) == spec_size_of_val::<[DevByte]>(dst),
        ensures
            t == (Transfer {
                direction: CopyDirection::DeviceToDevice,
                bytes: spec_size_of_val::<[DevByte]>(src) as usize,
                queue: Some(self.raw),
            }),
    {
        let len = core::mem::size_of_val(src);
        Transfer { direction: CopyDirection::DeviceToDevice, bytes: len, queue: Some(self.raw) }
    }
}

/// A device allocation kept aside from its context: the context it came from, its device
/// address (`CNaddr`) and its length in bytes.
#[derive(Debug)]
pub struct DevMemSpore {
    pub ctx: usize,
    pub ptr: u64,
    pub len: usize,
}

impl DevMemSpore {
    /// The length of the allocation in bytes.
    pub fn len(&self) -> (n: usize)
        ensures
            n == self.len,
    {
        self.len
    }

    /// Whether the allocation holds no bytes.
    pub fn is_empty(&self) -> (b: bool)
        ensures
            b == (self.len == 0),
    {
        self.len == 0
    }
}

impl CurrentCtx {
    /// The bytes to allocate on the device for `len` values of `T`; the array must fit in
    /// `isize::MAX` bytes.
    pub fn malloc<T: Copy>(&self, len: usize) -> (bytes: usize)
        requires
            len * vstd::layout::size_of::<T>() <= isize::MAX,
        ensures
            bytes == len * vstd::layout::size_of::<T>(),
    {
        len * core::mem::size_of::<T>()
    }

    /// The bytes to allocate on the host for `len` values of `T`; the array must fit in
    /// `isize::MAX` bytes.
    pub fn malloc_host<T: Copy>(&self, len: usize) -> (bytes: usize)
        requires
            len * vstd::layout::size_of::<T>() <= isize::MAX,
        ensures
            bytes == len * vstd::layout::size_of::<T>(),
    {
        len * core::mem::size_of::<T>()
    }
}

} // verus!
