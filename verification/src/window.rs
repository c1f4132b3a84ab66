use vstd::prelude::*;

use crate::errors::Error;
use crate::sync_counter::{SyncValue, SysRedrawSubsystem};
use crate::text_input::TextInputSubsystem;
use crate::types::{PixelSize, WindowHandle, WindowId, WindowInfo};

verus! {

/// A caller-created window: the native handle, the cached size, and the
/// optional per-window subsystem drivers.
///
/// A driver instance exists if and only if the corresponding subsystem is
/// currently enabled for this window.
#[derive(Clone, Debug)]
pub struct Window {
    /// The shell's native identifier of this window.
    pub handle: WindowHandle,
    /// Cached window state: the size last requested or reported.
    pub size: PixelSize,
    /// Present exactly while text input is enabled.
    pub text_input: Option<TextInputSubsystem>,
    /// Present exactly while synchronized redraw is enabled.
    pub sys_redraw: Option<SysRedrawSubsystem>,
}

impl Window {
    /// The window state right after the native resource was created: the
    /// cached size equals the request and no driver is present.
    pub fn new(handle: WindowHandle, info: &WindowInfo) -> (r: Self)
        ensures
            r.handle == handle,
            r.size == info.size,
            r.text_input.is_none(),
            r.sys_redraw.is_none(),
    {
        Window { handle, size: info.size, text_input: None, sys_redraw: None }
    }

    /// The identifier this window answers to at the API boundary.
    pub fn get_id(&self) -> (r: WindowId)
        ensures
            r == self.handle as usize,
    {
        self.handle as usize
    }

    /// The cached size; updated by message dispatch when the shell reports a
    /// changed geometry.
    pub fn get_size(&self) -> (r: PixelSize)
        ensures
            r == self.size,
    {
        self.size
    }

    /// True unless the window's redraw counter, if present, has exhausted
    /// its 64-bit range.
    pub open spec fn spec_sync_ticks_have_room(self) -> bool {
        match self.sys_redraw {
            Some(driver) => driver.sync_value.spec_ticks() < 0xFFFF_FFFF_FFFF_FFFF,
            None => true,
        }
    }

    /// Forbids the shell to present the surface: advances the redraw counter
    /// by exactly one tick and hands back the wire value the caller must
    /// push to the native counter. Fails `InternalFailure` when synchronized
    /// redraw is not enabled.
    pub fn lock_surface(&mut self) -> (r: Result<SyncValue, Error>)
        requires
            old(self).spec_sync_ticks_have_room(),
        ensures
            match old(self).sys_redraw {
                Some(driver) => {
                    &&& r matches Ok(wire) && final(self).sys_redraw matches Some(after)
                        && after.sync_counter == driver.sync_counter
                        && after.sync_value.spec_ticks() == driver.sync_value.spec_ticks() + 1
                        && wire == after.sync_value
                    &&& final(self).handle == old(self).handle
                    &&& final(self).size == old(self).size
                    &&& final(self).text_input == old(self).text_input
                },
                None => r == Err::<SyncValue, Error>(Error::InternalFailure) && *final(self)
                    == *old(self),
            },
    {
        match &mut self.sys_redraw {
            Some(driver) => Ok(driver.lock_surface()),
            None => Err(Error::InternalFailure),
        }
    }

    /// Allows the shell to present the surface again; on the wire this is
    /// the same single tick as locking.
    pub fn unlock_surface(&mut self) -> (r: Result<SyncValue, Error>)
        requires
            old(self).spec_sync_ticks_have_room(),
        ensures
            match old(self).sys_redraw {
                Some(driver) => {
                    &&& r matches Ok(wire) && final(self).sys_redraw matches Some(after)
                        && after.sync_counter == driver.sync_counter
                        && after.sync_value.spec_ticks() == driver.sync_value.spec_ticks() + 1
                        && wire == after.sync_value
                    &&& final(self).handle == old(self).handle
                    &&& final(self).size == old(self).size
                    &&& final(self).text_input == old(self).text_input
                },
                None => r == Err::<SyncValue, Error>(Error::InternalFailure) && *final(self)
                    == *old(self),
            },
    {
        match &mut self.sys_redraw {
            Some(driver) => Ok(driver.unlock_surface()),
            None => Err(Error::InternalFailure),
        }
    }

    /// Accepts a counter value requested by the shell, taking it as is: it
    /// is a target, not an increment. Fails `InternalFailure` when
    /// synchronized redraw is not enabled.
    pub fn update_sync_value(&mut self, value: u64) -> (r: Result<(), Error>)
        ensures
            match old(self).sys_redraw {
                Some(driver) => {
                    &&& r matches Ok(u) && final(self).sys_redraw matches Some(after)
                        && after.sync_counter == driver.sync_counter
                        && after.sync_value.spec_ticks() == value
                    &&& final(self).handle == old(self).handle
                    &&& final(self).size == old(self).size
                    &&& final(self).text_input == old(self).text_input
                },
                None => r == Err::<(), Error>(Error::InternalFailure) && *final(self) == *old(
                    self,
                ),
            },
    {
        match &mut self.sys_redraw {
            Some(driver) => {
                driver.set_sync_value(value);
                Ok(())
            },
            None => Err(Error::InternalFailure),
        }
    }

    /// The redraw counter's current logical value, when the driver is
    /// present.
    pub fn get_sync_value(&self) -> (r: Result<u64, Error>)
        ensures
            match self.sys_redraw {
                Some(driver) => r == Ok::<u64, Error>(driver.sync_value.spec_ticks() as u64),
                None => r == Err::<u64, Error>(Error::InternalFailure),
            },
    {
        match &self.sys_redraw {
            Some(driver) => Ok(driver.get_sync_value()),
            None => Err(Error::InternalFailure),
        }
    }
}

/// The index of the first window in `windows` carrying `handle`, if any.
pub open spec fn spec_find_window(windows: Seq<Window>, handle: WindowHandle) -> Option<int>
    decreases windows.len(),
{
    if windows.len() == 0 {
        None
    } else if windows[0].handle == handle {
        Some(0)
    } else {
        match spec_find_window(windows.skip(1), handle) {
            Some(i) => Some(i + 1),
            None => None,
        }
    }
}

/// What the index found by [`spec_find_window`] guarantees.
pub proof fn lemma_find_window(windows: Seq<Window>, handle: WindowHandle)
    ensures
        match spec_find_window(windows, handle) {
            Some(i) => {
                &&& 0 <= i < windows.len()
                &&& windows[i].handle == handle
                &&& forall|j: int| 0 <= j < i ==> windows[j].handle != handle
            },
            None => forall|j: int| 0 <= j < windows.len() ==> windows[j].handle != handle,
        },
    decreases windows.len(),
{
    if windows.len() > 0 && windows[0].handle != handle {
        lemma_find_window(windows.skip(1), handle);
        assert forall|j: int| 1 <= j < windows.len() implies windows.skip(1)[j - 1]
            == windows[j] by {}
    }
}

/// Replacing a window with one carrying the same handle moves no lookup:
/// every handle still resolves to the same index.
pub proof fn lemma_find_window_update(
    windows: Seq<Window>,
    i: int,
    replacement: Window,
    handle: WindowHandle,
)
    requires
        0 <= i < windows.len(),
        replacement.handle == windows[i].handle,
    ensures
        spec_find_window(windows.update(i, replacement), handle) == spec_find_window(
            windows,
            handle,
        ),
    decreases windows.len(),
{
    let updated = windows.update(i, replacement);
    assert(updated.len() == windows.len());
    if i == 0 {
        if windows[0].handle != handle {
            assert(updated.skip(1) =~= windows.skip(1));
        }
    } else {
        assert(updated[0] == windows[0]);
        if windows[0].handle != handle {
            assert(updated.skip(1) =~= windows.skip(1).update(i - 1, replacement));
            lemma_find_window_update(windows.skip(1), i - 1, replacement, handle);
        }
    }
}

/// Finds the first window carrying `handle` and hands back its index.
pub fn find_window(windows: &Vec<Window>, handle: WindowHandle) -> (r: Option<usize>)
    ensures
        match r {
            Some(i) => spec_find_window(windows@, handle) == Some(i as int),
            None => spec_find_window(windows@, handle).is_none(),
        },
{
    proof {
        lemma_find_window(windows@, handle);
    }
    let mut i: usize = 0;
    while i < windows.len()
        invariant
            i <= windows@.len(),
            forall|j: int| 0 <= j < i ==> windows@[j].handle != handle,
            match spec_find_window(windows@, handle) {
                Some(k) => {
                    &&& 0 <= k < windows@.len()
                    &&& windows@[k].handle == handle
                    &&& forall|j: int| 0 <= j < k ==> windows@[j].handle != handle
                },
                None => forall|j: int|
                    0 <= j < windows@.len() ==> windows@[j].handle != handle,
            },
        decreases windows@.len() - i,
    {
        if windows[i].handle == handle {
            proof {
                if let Some(k) = spec_find_window(windows@, handle) {
                    if k < i {
                        assert(false);
                    } else if k > i {
                        assert(windows@[i as int].handle != handle);
                    }
                }
            }
            return Some(i);
        }
        i += 1;
    }
    None
}

/// Looks a window up by the identifier used at the API boundary. An
/// identifier that matches no live window yields `InvalidArgument`.
pub fn lookup_window(windows: &Vec<Window>, id: WindowId) -> (r: Result<usize, Error>)
    ensures
        match r {
            Ok(i) => id as int <= 0xFFFF_FFFF && spec_find_window(windows@, id as u32) == Some(
                i as int,
            ),
            Err(e) => e == Error::InvalidArgument && (id as int > 0xFFFF_FFFF
                || spec_find_window(windows@, id as u32) is None),
        },
{
    if id as u64 > 0xFFFF_FFFFu64 {
        return Err(Error::InvalidArgument);
    }
    match find_window(windows, id as u32) {
        Some(i) => Ok(i),
        None => Err(Error::InvalidArgument),
    }
}

} // verus!
