//! The logical output that the hosted window stands for, and the snapshot of
//! it that the IPC query path reads.

use vstd::prelude::*;

verus! {

/// Refresh rate of the hosted output, in millihertz.
pub const REFRESH_MHZ: u32 = 60_000;

/// Next value of the output id counter.
pub struct IdCounter {
    value: u64,
}

impl View for IdCounter {
    type V = u64;

    closed spec fn view(&self) -> u64 {
        self.value
    }
}

impl IdCounter {
    /// A counter whose first id is 1.
    pub fn new() -> (r: IdCounter)
        ensures
            r@ == 1,
    {
        IdCounter { value: 1 }
    }

    /// Whether the counter can hand out another id.
    pub fn can_advance(&self) -> (r: bool)
        ensures
            r == (self@ < u64::MAX),
    {
        self.value < u64::MAX
    }

    /// Hands out the current value and advances the counter.
    pub fn next(&mut self) -> (r: u64)
        requires
            old(self)@ < u64::MAX,
        ensures
            r == old(self)@,
            final(self)@ == old(self)@ + 1,
    {
        let r = self.value;
        self.value = self.value + 1;
        r
    }
}

/// Identifier of an output in the IPC snapshot.
#[derive(Debug, Clone, Copy, PartialEq, Eq, Hash, Structural)]
pub struct OutputId(pub u64);

impl OutputId {
    /// A fresh id from `counter`.
    pub fn next(counter: &mut IdCounter) -> (r: OutputId)
        requires
            old(counter)@ < u64::MAX,
        ensures
            r.0 == old(counter)@,
            final(counter)@ == old(counter)@ + 1,
    {
        OutputId(counter.next())
    }

    pub fn get(self) -> (r: u64)
        ensures
            r == self.0,
    {
        self.0
    }
}

/// The current mode of the compositor's output: size in physical pixels and
/// refresh in millihertz.
#[derive(Debug, Clone, Copy, PartialEq, Eq, Structural)]
pub struct OutputMode {
    pub width: i32,
    pub height: i32,
    pub refresh: i32,
}

/// A mode as the IPC snapshot lists it.
#[derive(Debug, Clone, Copy, PartialEq, Eq, Structural)]
pub struct IpcMode {
    pub width: u16,
    pub height: u16,
    pub refresh_rate: u32,
    pub is_preferred: bool,
}

/// Logical placement of an output in the IPC snapshot.
#[derive(Debug, Clone, Copy, PartialEq, Eq, Structural)]
pub struct LogicalOutput {
    pub x: i32,
    pub y: i32,
    pub width: u32,
    pub height: u32,
}

/// An output as the IPC query path sees it.
pub struct IpcOutput {
    pub name: String,
    pub make: String,
    pub model: String,
    pub serial: Option<String>,
    pub physical_size: Option<(u32, u32)>,
    pub modes: Vec<IpcMode>,
    pub current_mode: Option<usize>,
    pub is_custom_mode: bool,
    pub vrr_supported: bool,
    pub vrr_enabled: bool,
    pub logical: Option<LogicalOutput>,
}

/// Plain-value view of an IPC output.
pub struct IpcOutputView {
    pub name: Seq<char>,
    pub make: Seq<char>,
    pub model: Seq<char>,
    pub serial: Option<Seq<char>>,
    pub physical_size: Option<(u32, u32)>,
    pub modes: Seq<IpcMode>,
    pub current_mode: Option<usize>,
    pub is_custom_mode: bool,
    pub vrr_supported: bool,
    pub vrr_enabled: bool,
    pub logical: Option<LogicalOutput>,
}

impl View for IpcOutput {
    type V = IpcOutputView;

    open spec fn view(&self) -> IpcOutputView {
        IpcOutputView {
            name: self.name@,
            make: self.make@,
            model: self.model@,
            serial: match self.serial {
                Some(s) => Some(s@),
                None => None,
            },
            physical_size: self.physical_size,
            modes: self.modes@,
            current_mode: self.current_mode,
            is_custom_mode: self.is_custom_mode,
            vrr_supported: self.vrr_supported,
            vrr_enabled: self.vrr_enabled,
            logical: self.logical,
        }
    }
}

/// The IPC mode of a window size: dimensions are narrowed to 16 bits.
pub open spec fn spec_ipc_mode(width: u32, height: u32) -> IpcMode {
    IpcMode {
        width: (width % 0x1_0000) as u16,
        height: (height % 0x1_0000) as u16,
        refresh_rate: REFRESH_MHZ,
        is_preferred: true,
    }
}

/// The output mode of a window size: dimensions are reinterpreted as `i32`.
pub open spec fn spec_output_mode(width: u32, height: u32) -> OutputMode {
    OutputMode {
        width: (if width <= i32::MAX { width as int } else { width - 0x1_0000_0000 }) as i32,
        height: (if height <= i32::MAX { height as int } else { height - 0x1_0000_0000 }) as i32,
        refresh: REFRESH_MHZ as i32,
    }
}

fn narrow_u16(x: u32) -> (r: u16)
    ensures
        r == (x % 0x1_0000) as u16,
{
    (x % 0x1_0000) as u16
}

fn reinterpret_i32(x: u32) -> (r: i32)
    ensures
        r == (if x <= i32::MAX { x as int } else { x - 0x1_0000_0000 }) as i32,
{
    if x <= i32::MAX as u32 {
        x as i32
    } else {
        (x as i64 - 0x1_0000_0000i64) as i32
    }
}

/// The IPC mode of a window size.
pub fn ipc_mode(width: u32, height: u32) -> (r: IpcMode)
    ensures
        r == spec_ipc_mode(width, height),
{
    IpcMode {
        width: narrow_u16(width),
        height: narrow_u16(height),
        refresh_rate: REFRESH_MHZ,
        is_preferred: true,
    }
}

/// The output mode of a window size.
pub fn output_mode(width: u32, height: u32) -> (r: OutputMode)
    ensures
        r == spec_output_mode(width, height),
{
    OutputMode {
        width: reinterpret_i32(width),
        height: reinterpret_i32(height),
        refresh: REFRESH_MHZ as i32,
    }
}

impl IpcOutput {
    /// The IPC description of the hosted window's output at a given size.
    pub fn for_window(width: u32, height: u32) -> (r: IpcOutput)
        ensures
            r@.name == "winit"@,
            r@.make == "Smithay"@,
            r@.model == "Winit"@,
            r@.serial is None,
            r@.physical_size is None,
            r@.modes == seq![spec_ipc_mode(width, height)],
            r@.current_mode == Some(0usize),
            r@.is_custom_mode,
            !r@.vrr_supported,
            !r@.vrr_enabled,
            r@.logical == Some(LogicalOutput { x: 0, y: 0, width, height }),
    {
        let mut modes: Vec<IpcMode> = Vec::new();
        modes.push(ipc_mode(width, height));
        IpcOutput {
            name: "winit".to_string(),
            make: "Smithay".to_string(),
            model: "Winit".to_string(),
            serial: None,
            physical_size: None,
            modes,
            current_mode: Some(0),
            is_custom_mode: true,
            vrr_supported: false,
            vrr_enabled: false,
            logical: Some(LogicalOutput { x: 0, y: 0, width, height }),
        }
    }

    /// A copy of the output, taken for the IPC snapshot.
    pub fn snapshot(&self) -> (r: IpcOutput)
        ensures
            r@ == self@,
    {
        let serial = match &self.serial {
            Some(s) => Some(s.clone()),
            None => None,
        };
        let mut modes: Vec<IpcMode> = Vec::new();
        let mut i: usize = 0;
        while i < self.modes.len()
            invariant
                0 <= i <= self.modes@.len(),
                modes@ =~= self.modes@.take(i as int),
            decreases self.modes@.len() - i,
        {
            modes.push(self.modes[i]);
            proof {
                assert(self.modes@.take(i as int + 1) =~= self.modes@.take(i as int).push(
                    self.modes@[i as int],
                ));
            }
            i = i + 1;
        }
        proof {
            assert(self.modes@.take(i as int) =~= self.modes@);
        }
        IpcOutput {
            name: self.name.clone(),
            make: self.make.clone(),
            model: self.model.clone(),
            serial,
            physical_size: self.physical_size,
            modes,
            current_mode: self.current_mode,
            is_custom_mode: self.is_custom_mode,
            vrr_supported: self.vrr_supported,
            vrr_enabled: self.vrr_enabled,
            logical: self.logical,
        }
    }
}

} // verus!
