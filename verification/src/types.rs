use vstd::prelude::*;

verus! {

/// An identifier of a window chosen at this layer's API boundary.
///
/// Often corresponds to the native window handle, but does not have the same
/// meaning: shell messages frequently carry handles that do not belong to any
/// window created through this library (the root window, the hidden window,
/// or no window at all).
pub type WindowId = usize;

/// The shell's native identifier for a window resource.
pub type WindowHandle = u32;

/// An interned protocol identifier understood by the shell.
pub type AtomId = u32;

/// Translates a native window handle into the window identifier used at the
/// API boundary.
pub fn window_handle_to_id(handle: WindowHandle) -> (r: WindowId)
    ensures
        r == handle as usize,
{
    handle as usize
}

/// A window size in pixels.
#[derive(Clone, Copy, PartialEq, Eq, Structural, Debug)]
pub struct PixelSize {
    pub width: u32,
    pub height: u32,
}

impl PixelSize {
    pub fn new(width: u32, height: u32) -> (r: Self)
        ensures
            r.width == width,
            r.height == height,
    {
        Self { width, height }
    }
}

/// An optional, toggleable windowing capability.
#[derive(Clone, Copy, PartialEq, Eq, Structural, Debug)]
pub enum ShellSubsystem {
    MouseInput,
    KeyboardInput,
    TextInput,
    SysRedraw,
}

impl ShellSubsystem {
    /// True for the subsystems whose enabled state can never be changed:
    /// pointer and keyboard input are always forced-enabled.
    pub open spec fn spec_forced(self) -> bool {
        self == ShellSubsystem::MouseInput || self == ShellSubsystem::KeyboardInput
    }

    /// Every subsystem, each exactly once.
    pub fn all() -> (r: Vec<ShellSubsystem>)
        ensures
            r@ == seq![
                ShellSubsystem::KeyboardInput,
                ShellSubsystem::MouseInput,
                ShellSubsystem::SysRedraw,
                ShellSubsystem::TextInput,
            ],
    {
        let r = vec![
            ShellSubsystem::KeyboardInput,
            ShellSubsystem::MouseInput,
            ShellSubsystem::SysRedraw,
            ShellSubsystem::TextInput,
        ];
        proof {
            assert(r@ =~= seq![
                ShellSubsystem::KeyboardInput,
                ShellSubsystem::MouseInput,
                ShellSubsystem::SysRedraw,
                ShellSubsystem::TextInput,
            ]);
        }
        r
    }
}

/// What the caller declares when connecting to the shell.
#[derive(Clone)]
pub struct ShellClientInfo<'a> {
    /// ASCII identifier of the program, often called "window class".
    pub id: &'a str,
    /// The shell protocols the client is going to use.
    pub subsystems: &'a [ShellSubsystem],
}

/// What the caller declares when creating a window.
#[derive(Clone)]
pub struct WindowInfo {
    pub size: PixelSize,
}

/// True when `list` names `subsystem` at least once.
pub fn subsystems_contain(list: &[ShellSubsystem], subsystem: ShellSubsystem) -> (r: bool)
    ensures
        r == list@.contains(subsystem),
{
    let mut i: usize = 0;
    while i < list.len()
        invariant
            i <= list@.len(),
            forall|j: int| 0 <= j < i ==> list@[j] != subsystem,
        decreases list@.len() - i,
    {
        if list[i] == subsystem {
            return true;
        }
        i += 1;
    }
    false
}

} // verus!
