use vstd::prelude::*;

verus! {

/// The per-window driver of the text-input subsystem: an input context bound
/// to the window, plus the buffer that assembles multi-event composed text.
///
/// A value of this type exists exactly while text input is enabled for its
/// window; the native context handle itself stays with the platform layer.
#[derive(Clone, Debug)]
pub struct TextInputSubsystem {
    /// Composed text accumulated so far.
    pub input: Vec<u8>,
    /// Whether the current composition is complete.
    pub input_finished: bool,
}

impl TextInputSubsystem {
    /// The driver state right after an input context was opened: the
    /// accumulation buffer is reset.
    pub fn new() -> (r: Self)
        ensures
            r.input@ == Seq::<u8>::empty(),
            r.input_finished == false,
    {
        TextInputSubsystem { input: Vec::new(), input_finished: false }
    }

    /// Clears the accumulation state, as done whenever a context is
    /// (re)created.
    pub fn reset(&mut self)
        ensures
            final(self).input@ == Seq::<u8>::empty(),
            final(self).input_finished == false,
    {
        self.input = Vec::new();
        self.input_finished = false;
    }
}

} // verus!
