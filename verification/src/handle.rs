//! Mid-stream control of a running session.

use vstd::prelude::*;

verus! {

/// The switches that the audio engine reads on every tick.
#[derive(Debug, Clone, Copy, PartialEq, Eq, Structural)]
pub struct Controls {
    pub mic_muted: bool,
    pub sys_muted: bool,
    pub echo_cancellation: bool,
}

impl Controls {
    pub fn new(mic_muted: bool, sys_muted: bool, echo_cancellation: bool) -> (controls: Self)
        ensures
            controls.mic_muted == mic_muted,
            controls.sys_muted == sys_muted,
            controls.echo_cancellation == echo_cancellation,
    {
        Controls { mic_muted, sys_muted, echo_cancellation }
    }
}

/// What the engine sees of the handle of its session: the switches, and whether it
/// was asked to end.
#[derive(Debug, Clone, Copy, PartialEq, Eq, Structural)]
pub struct Panel {
    pub controls: Controls,
    pub shutdown_requested: bool,
}

impl Panel {
    /// The panel with other switches.
    pub open spec fn with_controls(self, controls: Controls) -> Panel {
        Panel { controls, ..self }
    }

    /// The panel of a session that was asked to end.
    pub open spec fn shut_down(self) -> Panel {
        Panel { shutdown_requested: true, ..self }
    }
}

/// A handle for mid-stream control and clean shutdown of a session. Its owner
/// publishes the panel to the engine after each change.
#[derive(Debug)]
pub struct SplitStreamHandle {
    pub panel: Panel,
}

impl SplitStreamHandle {
    /// The handle of a session that is about to run.
    pub fn new(controls: Controls) -> (handle: Self)
        ensures
            handle.panel == (Panel { controls, shutdown_requested: false }),
    {
        SplitStreamHandle { panel: Panel { controls, shutdown_requested: false } }
    }

    /// Mute or unmute the microphone channel. Takes effect on the next 20ms tick.
    pub fn set_mic_muted(&mut self, muted: bool)
        ensures
            final(self).panel == old(self).panel.with_controls(
                Controls { mic_muted: muted, ..old(self).panel.controls },
            ),
    {
        self.panel.controls.mic_muted = muted;
    }

    /// Mute or unmute the system audio channel. Takes effect on the next 20ms tick.
    pub fn set_sys_muted(&mut self, muted: bool)
        ensures
            final(self).panel == old(self).panel.with_controls(
                Controls { sys_muted: muted, ..old(self).panel.controls },
            ),
    {
        self.panel.controls.sys_muted = muted;
    }

    /// Enable or disable acoustic echo cancellation. Takes effect on the next 20ms
    /// tick.
    pub fn set_echo_cancellation(&mut self, enabled: bool)
        ensures
            final(self).panel == old(self).panel.with_controls(
                Controls { echo_cancellation: enabled, ..old(self).panel.controls },
            ),
    {
        self.panel.controls.echo_cancellation = enabled;
    }

    /// Shut down the audio engine. The handle is used up; what remains is the panel
    /// that ends the run.
    pub fn shutdown(self) -> (panel: Panel)
        ensures
            panel == self.panel.shut_down(),
    {
        Panel { controls: self.panel.controls, shutdown_requested: true }
    }
}

} // verus!
