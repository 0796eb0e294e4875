//! Type-level life-cycle states of the window and of the Vulkan context, and
//! the containers that carry their data.
use vstd::prelude::*;
use core::marker::PhantomData;
use crate::sealed::Sealed;

verus! {

/// A life-cycle state: [`Uninitialized`] or [`Initialized`].
pub trait State: Sealed {}

/// The state before initialization.
pub struct Uninitialized;

impl Sealed for Uninitialized {}

impl State for Uninitialized {}

impl Default for Uninitialized {
    fn default() -> (r: Self)
        ensures
            r == Uninitialized,
    {
        Uninitialized
    }
}

/// The state after a successful initialization.
pub struct Initialized;

impl Sealed for Initialized {}

impl State for Initialized {}

impl Default for Initialized {
    fn default() -> (r: Self)
        ensures
            r == Initialized,
    {
        Initialized
    }
}

/// The application window in state `S`, with the data `D` that this state
/// holds.
pub struct Window<S: State, D = ()> {
    pub data: D,
    marker: PhantomData<S>,
}

impl<S: State, D> Window<S, D> {
    /// The data that the window holds.
    pub closed spec fn held(self) -> D {
        self.data
    }

    /// A window in state `S` holding `data`.
    pub fn with_data(data: D) -> (w: Self)
        ensures
            w.held() == data,
    {
        Window { data, marker: PhantomData }
    }
}

impl<S: State, D: Default> Default for Window<S, D> {
    fn default() -> (r: Self)
        ensures
            call_ensures(D::default, (), r.held()),
    {
        Window { data: D::default(), marker: PhantomData }
    }
}

/// The Vulkan context in state `S`, with the data `D` that this state holds.
pub struct Vulkan<S: State, D = ()> {
    pub data: D,
    marker: PhantomData<S>,
}

impl<S: State, D> Vulkan<S, D> {
    /// The data that the vulkan holds.
    pub closed spec fn held(self) -> D {
        self.data
    }

    /// A context in state `S` holding `data`.
    pub fn with_data(data: D) -> (v: Self)
        ensures
            v.held() == data,
    {
        Vulkan { data, marker: PhantomData }
    }
}

impl<S: State, D: Default> Default for Vulkan<S, D> {
    fn default() -> (r: Self)
        ensures
            call_ensures(D::default, (), r.held()),
    {
        Vulkan { data: D::default(), marker: PhantomData }
    }
}

/// The application: its window in state `WS` and its Vulkan context in state
/// `VS`.
pub struct App<WS: State, VS: State, WD = (), VD = ()> {
    pub window: Window<WS, WD>,
    pub vulkan: Vulkan<VS, VD>,
}

impl<WS: State, VS: State, WD: Default, VD: Default> Default for App<WS, VS, WD, VD> {
    fn default() -> (r: Self)
        ensures
            call_ensures(WD::default, (), r.window.held()),
            call_ensures(VD::default, (), r.vulkan.held()),
    {
        App { window: Window::default(), vulkan: Vulkan::default() }
    }
}

impl App<Uninitialized, Uninitialized, (), ()> {
    /// The application once its window and its Vulkan context are
    /// initialized with the data `window` and `vulkan`.
    pub fn initialized<WD, VD>(self, window: WD, vulkan: VD) -> (r: App<
        Initialized,
        Initialized,
        WD,
        VD,
    >)
        ensures
            r.window.held() == window,
            r.vulkan.held() == vulkan,
    {
        App { window: Window::with_data(window), vulkan: Vulkan::with_data(vulkan) }
    }
}

} // verus!
