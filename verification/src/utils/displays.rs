//! The display probe.

use crate::snapshot::Snapshot;
use crate::text::{decimal, push_char, push_decimal, push_signed_decimal, signed_decimal};
use crate::types::{CoreError, CoreErrorKind, CoreErrorModel};
use vstd::prelude::*;

verus! {

/// The size of a display in pixels.
#[derive(Clone, Copy, Debug, PartialEq, Eq, Structural)]
pub struct Dimensions {
    /// Display width.
    pub width: u32,
    /// Display height.
    pub height: u32,
}

impl Dimensions {
    /// The text shown for the size: `width x height`, without spaces.
    pub open spec fn label(self) -> Seq<char> {
        decimal(self.width as nat) + seq!['x'] + decimal(self.height as nat)
    }

    /// The label as a string.
    pub fn to_string(&self) -> (s: String)
        ensures
            s@ == self.label(),
    {
        let mut s = String::new();
        push_decimal(&mut s, self.width as u64);
        push_char(&mut s, 'x');
        push_decimal(&mut s, self.height as u64);
        s
    }
}

/// The position of the top-left corner of a display within the area of
/// all displays.
#[derive(Clone, Copy, Debug, PartialEq, Eq, Structural)]
pub struct Position {
    /// The x coordinate.
    pub x: i32,
    /// The y coordinate.
    pub y: i32,
}

impl Position {
    /// The text shown for the position: `(x, y)`.
    pub open spec fn label(self) -> Seq<char> {
        seq!['('] + signed_decimal(self.x as int) + seq![',', ' '] + signed_decimal(self.y as int)
            + seq![')']
    }

    /// The label as a string.
    pub fn to_string(&self) -> (s: String)
        ensures
            s@ == self.label(),
    {
        let mut s = String::new();
        push_char(&mut s, '(');
        push_signed_decimal(&mut s, self.x as i64);
        push_char(&mut s, ',');
        push_char(&mut s, ' ');
        push_signed_decimal(&mut s, self.y as i64);
        push_char(&mut s, ')');
        assert(s@ =~= self.label());
        s
    }
}

/// One monitor as the windowing system reports it.
#[derive(Debug, PartialEq, Eq)]
pub struct MonitorRecord {
    /// The name of the monitor, where it has one.
    pub name: Option<String>,
    pub width: u32,
    pub height: u32,
    /// The scale factor, as the bits of a 64-bit float.
    pub scale_factor_bits: u64,
    pub x: i32,
    pub y: i32,
    pub refresh_rate_millihertz: Option<u32>,
}

/// One display of the machine.
#[derive(Debug, PartialEq, Eq)]
pub struct Display {
    /// The name of the display.
    pub name: String,
    /// The size of the display.
    pub dimensions: Dimensions,
    /// The scale factor of the display, as the bits of a 64-bit float.
    pub scale_factor_bits: u64,
    /// The position of the display.
    pub position: Position,
    /// The refresh rate of the display in mHz.
    pub refresh_rate: Option<u32>,
}

/// The displays of the machine.
#[derive(Debug, PartialEq, Eq)]
pub struct DisplaysInfo {
    /// The number of displays.
    pub total_displays: usize,
    /// The displays, in enumeration order.
    pub displays: Vec<Display>,
}

/// What a `Display` says: its fields, with texts and lists as sequences.
pub ghost struct DisplayModel {
    pub name: Seq<char>,
    pub dimensions: Dimensions,
    pub scale_factor_bits: u64,
    pub position: Position,
    pub refresh_rate: Option<u32>,
}

/// What a `DisplaysInfo` says: its fields, with texts and lists as sequences.
pub ghost struct DisplaysInfoModel {
    pub total_displays: usize,
    pub displays: Seq<DisplayModel>,
}

impl DeepView for Display {
    type V = DisplayModel;

    open spec fn deep_view(&self) -> DisplayModel {
        DisplayModel {
            name: self.name@,
            dimensions: self.dimensions,
            scale_factor_bits: self.scale_factor_bits,
            position: self.position,
            refresh_rate: self.refresh_rate,
        }
    }
}

impl DeepView for DisplaysInfo {
    type V = DisplaysInfoModel;

    open spec fn deep_view(&self) -> DisplaysInfoModel {
        DisplaysInfoModel {
            total_displays: self.total_displays,
            displays: self.displays.deep_view(),
        }
    }
}

impl Snapshot for Display {
    fn duplicate(&self) -> (copy: Display) {
        Display {
            name: self.name.clone(),
            dimensions: self.dimensions,
            scale_factor_bits: self.scale_factor_bits,
            position: self.position,
            refresh_rate: self.refresh_rate,
        }
    }
}

impl Snapshot for DisplaysInfo {
    fn duplicate(&self) -> (copy: DisplaysInfo) {
        DisplaysInfo {
            total_displays: self.total_displays,
            displays: self.displays.duplicate(),
        }
    }
}

/// What a monitor record says; a monitor without a name has an empty one.
pub open spec fn display_model(monitor: MonitorRecord) -> DisplayModel {
    DisplayModel {
        name: match monitor.name {
            Some(name) => name@,
            None => Seq::empty(),
        },
        dimensions: Dimensions { width: monitor.width, height: monitor.height },
        scale_factor_bits: monitor.scale_factor_bits,
        position: Position { x: monitor.x, y: monitor.y },
        refresh_rate: monitor.refresh_rate_millihertz,
    }
}

impl Display {
    /// The display that a monitor record describes.
    pub fn from_monitor(monitor: &MonitorRecord) -> (display: Display)
        ensures
            display.deep_view() == display_model(*monitor),
    {
        let name = match &monitor.name {
            Some(name) => name.clone(),
            None => String::new(),
        };
        Display {
            name,
            dimensions: Dimensions { width: monitor.width, height: monitor.height },
            scale_factor_bits: monitor.scale_factor_bits,
            position: Position { x: monitor.x, y: monitor.y },
            refresh_rate: monitor.refresh_rate_millihertz,
        }
    }
}

impl DisplaysInfo {
    /// Whether the count is the number of displays.
    pub open spec fn wf(&self) -> bool {
        self.total_displays == self.displays@.len()
    }

    /// The outcome of the probe from the monitors that the windowing
    /// system listed, or from its message where it failed: then the probe
    /// fails with the catch-all error kind.
    pub fn get(monitors: Result<Vec<MonitorRecord>, String>) -> (r: Result<DisplaysInfo, CoreError>)
        ensures
            match monitors {
                Ok(listed) => r matches Ok(info) && {
                    &&& info.wf()
                    &&& info.displays@.len() == listed@.len()
                    &&& forall|i: int|
                        0 <= i < listed@.len() ==> (#[trigger] info.displays@[i]).deep_view()
                            == display_model(listed@[i])
                },
                Err(message) => r matches Err(e) && e.deep_view() == (CoreErrorModel {
                    kind: CoreErrorKind::Error,
                    detail: message@,
                }),
            },
    {
        let listed = match monitors {
            Ok(listed) => listed,
            Err(message) => {
                return Err(CoreError::new(CoreErrorKind::Error, message));
            },
        };
        let mut displays: Vec<Display> = Vec::new();
        let mut i: usize = 0;
        while i < listed.len()
            invariant
                0 <= i <= listed.len(),
                displays@.len() == i,
                forall|j: int|
                    0 <= j < i ==> (#[trigger] displays@[j]).deep_view() == display_model(
                        listed@[j],
                    ),
            decreases listed.len() - i,
        {
            displays.push(Display::from_monitor(&listed[i]));
            i += 1;
        }
        Ok(DisplaysInfo { total_displays: displays.len(), displays })
    }
}

} // verus!
