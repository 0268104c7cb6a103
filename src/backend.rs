//! The backend facade: the state the compositor keeps for its hosted window,
//! and what each host window event asks of the compositor.

use vstd::prelude::*;
use crate::config::{InputConfig, ModKey};
use crate::events::CanonicalInputEvent;
use crate::modifiers::ModifierMask;
use crate::normalize::{HostInputEvent, InputNormalizer, NormalizerModel, spec_normalize};
use crate::output::{
    IdCounter, IpcOutput, IpcOutputView, LogicalOutput, OutputId, OutputMode, ipc_mode,
    output_mode, spec_ipc_mode, spec_output_mode,
};

verus! {

/// calloop's `Ping`, the handle that wakes a ping source; only carried and
/// passed to `send_ping`.
#[verifier::external_type_specification]
#[verifier::external_body]
pub struct ExPing(calloop::ping::Ping);

/// Relies on calloop's `Ping::ping`: marks the paired ping source ready, so
/// that the reactor dispatches it at least once; pings sent before one
/// dispatch coalesce. A failed write is only logged, never a panic.
#[verifier::external_body]
fn send_ping(ping: &calloop::ping::Ping) {
    ping.ping()
}

/// A host window event, reduced to plain values.
#[derive(Debug, Clone, Copy, PartialEq, Eq, Structural)]
pub enum WindowEvent {
    Resized { width: u32, height: u32 },
    CloseRequested,
    RedrawRequested,
    Focused(bool),
    Input(HostInputEvent),
}

/// What handling a window event asks of the compositor, in order.
#[derive(Debug, Clone, Copy, PartialEq, Eq, Structural)]
pub enum CoreRequest {
    /// Tell the swap surface about the new window size.
    ResizeSurface { width: u32, height: u32 },
    /// The IPC snapshot changed.
    IpcOutputsChanged,
    /// The output changed size.
    OutputResized,
    /// Schedule a redraw of the output.
    QueueRedraw,
    /// Stop the event loop.
    Stop,
    /// Forward an input event to the input stack.
    Input(CanonicalInputEvent),
}

/// Wraps canonical events as input requests.
pub open spec fn as_input_requests(s: Seq<CanonicalInputEvent>) -> Seq<CoreRequest> {
    s.map_values(|e: CanonicalInputEvent| CoreRequest::Input(e))
}

/// The IPC output after a resize: its first mode and its logical size follow
/// the window.
pub open spec fn spec_ipc_resized(o: IpcOutputView, width: u32, height: u32) -> IpcOutputView {
    IpcOutputView {
        modes: o.modes.update(0, spec_ipc_mode(width, height)),
        logical: match o.logical {
            Some(l) => Some(LogicalOutput { width, height, ..l }),
            None => None,
        },
        ..o
    }
}

/// Observable state of the facade.
pub struct WinitView {
    pub output_mode: OutputMode,
    pub ipc_id: OutputId,
    pub ipc_output: IpcOutputView,
    pub normalizer: NormalizerModel,
}

/// The state after a window event, and the requests it makes.
pub open spec fn spec_handle(s: WinitView, event: WindowEvent, now: u64) -> (WinitView, Seq<CoreRequest>) {
    match event {
        WindowEvent::Resized { width, height } => (
            WinitView {
                output_mode: spec_output_mode(width, height),
                ipc_output: spec_ipc_resized(s.ipc_output, width, height),
                ..s
            },
            seq![
                CoreRequest::ResizeSurface { width, height },
                CoreRequest::IpcOutputsChanged,
                CoreRequest::OutputResized,
            ],
        ),
        WindowEvent::CloseRequested => (s, seq![CoreRequest::Stop]),
        WindowEvent::RedrawRequested => (s, seq![CoreRequest::QueueRedraw]),
        WindowEvent::Focused(_) => (s, seq![]),
        WindowEvent::Input(e) => {
            let (n, out) = spec_normalize(s.normalizer, e, now);
            (WinitView { normalizer: n, ..s }, as_input_requests(out))
        },
    }
}

/// The compositor's state for its hosted window.
pub struct Winit {
    output_mode: OutputMode,
    ipc_id: OutputId,
    ipc_output: IpcOutput,
    normalizer: InputNormalizer,
    ping: calloop::ping::Ping,
}

impl View for Winit {
    type V = WinitView;

    closed spec fn view(&self) -> WinitView {
        WinitView {
            output_mode: self.output_mode,
            ipc_id: self.ipc_id,
            ipc_output: self.ipc_output@,
            normalizer: self.normalizer@,
        }
    }
}

impl Winit {
    /// The IPC output always lists at least one mode.
    pub closed spec fn wf(&self) -> bool {
        self.ipc_output.modes@.len() > 0
    }

    /// The state for a host window of the given size. `ping` wakes the
    /// reactor source that drains the host's event queue.
    pub fn new(width: u32, height: u32, ping: calloop::ping::Ping, ids: &mut IdCounter) -> (r: Winit)
        requires
            old(ids)@ < u64::MAX,
        ensures
            r.wf(),
            r@.output_mode == spec_output_mode(width, height),
            r@.ipc_id.0 == old(ids)@,
            final(ids)@ == old(ids)@ + 1,
            r@.ipc_output.modes == seq![spec_ipc_mode(width, height)],
            r@.ipc_output.current_mode == Some(0usize),
            r@.ipc_output.logical == Some(LogicalOutput { x: 0, y: 0, width, height }),
            r@.ipc_output.name == "winit"@,
            r@.normalizer.0 == (ModifierMask {
                shift: false,
                control: false,
                alt: false,
                super_key: false,
            }),
            r@.normalizer.1 == Map::<u32, u64>::empty(),
    {
        let ipc_id = OutputId::next(ids);
        Winit {
            output_mode: output_mode(width, height),
            ipc_id,
            ipc_output: IpcOutput::for_window(width, height),
            normalizer: InputNormalizer::new(),
            ping,
        }
    }

    /// Wakes the reactor source so that the host's queued events are drained
    /// at the next dispatch.
    pub fn pump(&self) {
        send_ping(&self.ping);
    }

    pub fn seat_name(&self) -> (r: String)
        ensures
            r@ == "winit"@,
    {
        "winit".to_string()
    }

    /// Dmabuf import is not supported on a hosted window.
    pub fn import_dmabuf(&mut self) -> (r: bool)
        ensures
            !r,
            final(self)@ == old(self)@,
    {
        false
    }

    pub fn toggle_debug_tint(&mut self)
        ensures
            final(self)@ == old(self)@,
    {
    }

    /// The output's current mode.
    pub fn output_mode(&self) -> (r: OutputMode)
        ensures
            r == self@.output_mode,
    {
        self.output_mode
    }

    /// The last modifier mask the host reported.
    pub fn modifiers(&self) -> (r: ModifierMask)
        ensures
            r == self@.normalizer.0,
    {
        self.normalizer.modifiers()
    }

    /// A snapshot of the IPC outputs: the one hosted output under its id.
    pub fn ipc_outputs(&self) -> (r: Vec<(OutputId, IpcOutput)>)
        ensures
            r@.len() == 1,
            r@[0].0 == self@.ipc_id,
            r@[0].1@ == self@.ipc_output,
    {
        let mut r: Vec<(OutputId, IpcOutput)> = Vec::new();
        r.push((self.ipc_id, self.ipc_output.snapshot()));
        r
    }

    /// Handles one host window event observed at time `now` (microseconds)
    /// and returns what it asks of the compositor, in order.
    pub fn handle_window_event(&mut self, event: WindowEvent, now: u64) -> (r: Vec<CoreRequest>)
        requires
            old(self).wf(),
        ensures
            final(self).wf(),
            (final(self)@, r@) == spec_handle(old(self)@, event, now),
    {
        match event {
            WindowEvent::Resized { width, height } => {
                self.output_mode = output_mode(width, height);
                self.ipc_output.modes.set(0, ipc_mode(width, height));
                match self.ipc_output.logical {
                    Some(l) => {
                        self.ipc_output.logical = Some(LogicalOutput { width, height, ..l });
                    },
                    None => {},
                }
                let mut out: Vec<CoreRequest> = Vec::new();
                out.push(CoreRequest::ResizeSurface { width, height });
                out.push(CoreRequest::IpcOutputsChanged);
                out.push(CoreRequest::OutputResized);
                proof {
                    assert(self@.ipc_output == spec_ipc_resized(old(self)@.ipc_output, width, height));
                    assert(out@ =~= spec_handle(old(self)@, event, now).1);
                }
                out
            },
            WindowEvent::CloseRequested => {
                let mut out: Vec<CoreRequest> = Vec::new();
                out.push(CoreRequest::Stop);
                proof {
                    assert(out@ =~= spec_handle(old(self)@, event, now).1);
                }
                out
            },
            WindowEvent::RedrawRequested => {
                let mut out: Vec<CoreRequest> = Vec::new();
                out.push(CoreRequest::QueueRedraw);
                proof {
                    assert(out@ =~= spec_handle(old(self)@, event, now).1);
                }
                out
            },
            WindowEvent::Focused(_) => {
                let out: Vec<CoreRequest> = Vec::new();
                proof {
                    assert(out@ =~= spec_handle(old(self)@, event, now).1);
                }
                out
            },
            WindowEvent::Input(e) => {
                let events = self.normalizer.normalize(e, now);
                let mut out: Vec<CoreRequest> = Vec::new();
                let mut i: usize = 0;
                while i < events.len()
                    invariant
                        0 <= i <= events@.len(),
                        out@ =~= as_input_requests(events@.take(i as int)),
                    decreases events@.len() - i,
                {
                    out.push(CoreRequest::Input(events[i]));
                    proof {
                        assert(events@.take(i as int + 1) =~= events@.take(i as int).push(
                            events@[i as int],
                        ));
                    }
                    i = i + 1;
                }
                proof {
                    assert(events@.take(i as int) =~= events@);
                }
                out
            },
        }
    }
}

/// A backend without a host window.
#[derive(Debug, Clone, Copy, PartialEq, Eq, Structural)]
pub struct Headless;

/// The backends the compositor can run on.
pub enum Backend {
    Winit(Winit),
    Headless(Headless),
}

/// The main modifier a backend uses: nested in a host window, the nested
/// setting, or else Super when the host's own main key is Alt and Alt
/// otherwise; headless, the configured key or else Super.
pub open spec fn spec_mod_key(is_winit: bool, config: InputConfig) -> ModKey {
    if is_winit {
        match config.mod_key_nested {
            Some(k) => k,
            None => if config.mod_key == Some(ModKey::Alt) {
                ModKey::Super
            } else {
                ModKey::Alt
            },
        }
    } else {
        match config.mod_key {
            Some(k) => k,
            None => ModKey::Super,
        }
    }
}

impl Backend {
    pub fn seat_name(&self) -> (r: String)
        ensures
            self is Winit ==> r@ == "winit"@,
            self is Headless ==> r@ == "headless"@,
    {
        match self {
            Backend::Winit(winit) => winit.seat_name(),
            Backend::Headless(_) => "headless".to_string(),
        }
    }

    /// The main modifier for the compositor's bindings on this backend.
    pub fn mod_key(&self, config: &InputConfig) -> (r: ModKey)
        ensures
            r == spec_mod_key(self is Winit, *config),
    {
        match self {
            Backend::Winit(_) => match config.mod_key_nested {
                Some(k) => k,
                None => match config.mod_key {
                    Some(ModKey::Alt) => ModKey::Super,
                    _ => ModKey::Alt,
                },
            },
            Backend::Headless(_) => match config.mod_key {
                Some(k) => k,
                None => ModKey::Super,
            },
        }
    }

    pub fn change_vt(&mut self, _vt: i32)
        ensures
            *final(self) == *old(self),
    {
    }

    pub fn suspend(&mut self)
        ensures
            *final(self) == *old(self),
    {
    }

    pub fn toggle_debug_tint(&mut self)
        ensures
            *final(self) == *old(self),
    {
    }

    pub fn set_monitors_active(&mut self, _active: bool)
        ensures
            *final(self) == *old(self),
    {
    }

    /// Dmabuf import is not supported on a hosted window.
    pub fn import_dmabuf(&mut self) -> (r: bool)
        ensures
            !r,
            *final(self) == *old(self),
    {
        false
    }

    /// The hosted-window state; the backend must be the window backend.
    pub fn winit(&mut self) -> (r: &mut Winit)
        requires
            *old(self) is Winit,
        ensures
            *r == old(self)->Winit_0,
            *final(self) == Backend::Winit(*final(r)),
    {
        match self {
            Backend::Winit(v) => v,
            Backend::Headless(_) => vstd::pervasive::unreached(),
        }
    }

    /// The headless state; the backend must be the headless backend.
    pub fn headless(&mut self) -> (r: &mut Headless)
        requires
            *old(self) is Headless,
        ensures
            *r == old(self)->Headless_0,
            *final(self) == Backend::Headless(*final(r)),
    {
        match self {
            Backend::Headless(v) => v,
            Backend::Winit(_) => vstd::pervasive::unreached(),
        }
    }
}

} // verus!
