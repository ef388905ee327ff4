//! Contexts: which device they belong to, how they are released, and how a closure runs in one.
use vstd::prelude::*;
use crate::device::Device;

verus! {

/// A context on a device (`CNcontext`, held as its address). A shared context is the device's
/// primary context, released rather than destroyed.
#[derive(PartialEq, Eq, Structural, Hash, Debug)]
pub struct Context {
    pub ctx: usize,
    pub dev: i32,
    pub shared: bool,
}

/// The context that is current on the calling thread (held as its address).
#[derive(Clone, Copy, PartialEq, Eq, Structural, Hash, Debug)]
pub struct CurrentCtx(pub usize);

/// There is no current context.
#[derive(Clone, Copy, PartialEq, Eq, Structural, Hash, Debug)]
pub struct NoCtxError;

/// How a context goes back to the driver when it is dropped.
#[derive(Clone, Copy, PartialEq, Eq, Structural, Hash, Debug)]
pub enum ContextRelease {
    /// Release the device's shared context.
    ReleaseShared(i32),
    /// Destroy the context.
    Destroy(usize),
}

/// What running a closure in a context does: make `enter` current, hand `current` to the
/// closure, then make `restore` current again.
#[derive(Clone, Copy, PartialEq, Eq, Structural, Hash, Debug)]
pub struct ContextSwitch {
    pub enter: usize,
    pub current: CurrentCtx,
    pub restore: usize,
}

impl Device {
    /// The context the driver created on this device.
    pub fn context(&self, created: usize) -> (c: Context)
        ensures
            c == (Context { ctx: created, dev: self.0, shared: false }),
    {
        Context { ctx: created, dev: self.0, shared: false }
    }

    /// The device's shared context, as the driver acquired it.
    pub fn acquire_shared(&self, acquired: usize) -> (c: Context)
        ensures
            c == (Context { ctx: acquired, dev: self.0, shared: true }),
    {
        Context { ctx: acquired, dev: self.0, shared: true }
    }
}

impl Context {
    /// The raw context.
    pub fn as_raw(&self) -> (raw: usize)
        ensures
            raw == self.ctx,
    {
        self.ctx
    }

    /// The device the context lives on.
    pub fn device(&self) -> (d: Device)
        ensures
            d == Device(self.dev),
    {
        Device(self.dev)
    }

    /// How the context is given back when dropped: a shared context is released on its device,
    /// any other is destroyed.
    pub fn release(&self) -> (r: ContextRelease)
        ensures
            r == (if self.shared {
                ContextRelease::ReleaseShared(self.dev)
            } else {
                ContextRelease::Destroy(self.ctx)
            }),
    {
        if self.shared {
            ContextRelease::ReleaseShared(self.dev)
        } else {
            ContextRelease::Destroy(self.ctx)
        }
    }

    /// Running a closure in this context while `previous` is current: this context is entered,
    /// the closure sees it as current, and `previous` is made current again afterwards.
    pub fn apply(&self, previous: usize) -> (s: ContextSwitch)
        ensures
            s.enter == self.ctx,
            s.current == CurrentCtx(self.ctx),
            s.restore == previous,
    {
        ContextSwitch { enter: self.ctx, current: CurrentCtx(self.ctx), restore: previous }
    }
}

impl CurrentCtx {
    /// The raw context.
    pub fn as_raw(&self) -> (raw: usize)
        ensures
            raw == self.0,
    {
        self.0
    }

    /// The device of the current context, from the handle the driver reports.
    pub fn dev(&self, reported: i32) -> (d: Device)
        ensures
            d == Device(reported),
    {
        Device(reported)
    }

    /// Applies `f` to the current context if there is one (`raw` is the address the driver
    /// reports as current, zero when there is none), otherwise returns `Err(NoCtxError)`.
    pub fn apply_current<T, F: FnOnce(&CurrentCtx) -> T>(raw: usize, f: F) -> (r: Result<
        T,
        NoCtxError,
    >)
        requires
            raw != 0 ==> f.requires((&CurrentCtx(raw),)),
        ensures
            raw == 0 ==> r == Err::<T, NoCtxError>(NoCtxError),
            raw != 0 ==> (r matches Ok(v) && f.ensures((&CurrentCtx(raw),), v)),
    {
        if raw != 0 {
            let current = CurrentCtx(raw);
            Ok(f(&current))
        } else {
            Err(NoCtxError)
        }
    }
}

} // verus!
