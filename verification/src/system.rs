//! The system-information command: the displays that the capture provider
//! enumerated, numbered in the order given, with the platform's name and a
//! fresh timestamp.

use vstd::prelude::*;
use crate::error::{CommandError, CommandErrorView};
use crate::host::utc_now_rfc3339;

verus! {

/// A display as the capture provider reports it.
#[derive(Clone, Copy, Debug, PartialEq, Eq, Structural)]
pub struct Display {
    pub width: u32,
    pub height: u32,
    pub x: i32,
    pub y: i32,
    pub is_primary: bool,
}

/// A display as it is reported to the caller: its position in the
/// provider's enumeration, and its geometry.
#[derive(Clone, Copy, Debug, PartialEq, Eq, Structural)]
pub struct DisplayInfo {
    pub id: usize,
    pub width: u32,
    pub height: u32,
    pub x: i32,
    pub y: i32,
    pub is_primary: bool,
}

/// What the system-information command returns.
#[derive(Debug, PartialEq, Eq)]
pub struct SystemInfo {
    pub screens: Vec<DisplayInfo>,
    /// When the information was gathered, as an RFC 3339 string.
    pub timestamp: String,
    pub platform: String,
}

/// The display `display` reported under the number `id`.
pub open spec fn numbered(id: int, display: Display) -> DisplayInfo {
    DisplayInfo {
        id: id as usize,
        width: display.width,
        height: display.height,
        x: display.x,
        y: display.y,
        is_primary: display.is_primary,
    }
}

/// The displays `displays`, each under its position as its number.
pub open spec fn enumerated(displays: Seq<Display>) -> Seq<DisplayInfo> {
    Seq::new(displays.len(), |i: int| numbered(i, displays[i]))
}

/// The mathematical content of a [`SystemInfo`].
pub struct SystemInfoView {
    pub screens: Seq<DisplayInfo>,
    pub timestamp: Seq<char>,
    pub platform: Seq<char>,
}

impl View for SystemInfo {
    type V = SystemInfoView;

    open spec fn view(&self) -> SystemInfoView {
        SystemInfoView {
            screens: self.screens@,
            timestamp: self.timestamp@,
            platform: self.platform@,
        }
    }
}

/// The system information for what the capture provider enumerated, or
/// failed with, gathered at `timestamp` on `platform`.
pub open spec fn gathered(
    displays: Result<Seq<Display>, Seq<char>>,
    platform: Seq<char>,
    timestamp: Seq<char>,
) -> Result<SystemInfoView, CommandErrorView> {
    match displays {
        Ok(displays) => Ok(
            SystemInfoView { screens: enumerated(displays), timestamp, platform },
        ),
        Err(detail) => Err(CommandErrorView::DisplayEnumerationFailed { detail }),
    }
}

/// Gathers the system information from what the capture provider
/// enumerated, the platform's name and the time of the request.
///
/// A failed enumeration fails with `DisplayEnumerationFailed` and the
/// provider's words. Otherwise every display is reported, in order, under
/// its position, with the platform's name and the time exactly as given.
pub fn system_info(displays: Result<Vec<Display>, String>, platform: String, timestamp: String) -> (outcome:
    Result<SystemInfo, CommandError>)
    ensures
        (match outcome {
            Ok(info) => Ok::<SystemInfoView, CommandErrorView>(info@),
            Err(error) => Err::<SystemInfoView, CommandErrorView>(error@),
        }) == gathered(
            match displays {
                Ok(displays) => Ok(displays@),
                Err(detail) => Err(detail@),
            },
            platform@,
            timestamp@,
        ),
{
    let displays = match displays {
        Ok(displays) => displays,
        Err(detail) => {
            return Err(CommandError::DisplayEnumerationFailed { detail });
        },
    };
    let mut screens: Vec<DisplayInfo> = Vec::new();
    let mut i: usize = 0;
    while i < displays.len()
        invariant
            i <= displays.len(),
            screens@.len() == i,
            forall|j: int| 0 <= j < i ==> screens@[j] == numbered(j, displays@[j]),
        decreases displays.len() - i,
    {
        let display = displays[i];
        screens.push(
            DisplayInfo {
                id: i,
                width: display.width,
                height: display.height,
                x: display.x,
                y: display.y,
                is_primary: display.is_primary,
            },
        );
        i += 1;
    }
    assert(screens@ =~= enumerated(displays@));
    Ok(SystemInfo { screens, timestamp, platform })
}

/// The system-information command. `displays` is what the capture provider
/// enumerated, or its words on why it could not; `platform` names the
/// operating system.
///
/// This is [`system_info`] at the current time: a failed enumeration fails
/// the command with `DisplayEnumerationFailed` and the provider's words,
/// and otherwise every display is reported, in order, under its position,
/// with the platform's name as given.
pub fn get_system_info(displays: Result<Vec<Display>, String>, platform: String) -> (outcome:
    Result<SystemInfo, CommandError>)
    ensures
        match displays {
            Ok(displays) => outcome matches Ok(info) && info.screens@ == enumerated(displays@)
                && info.platform@ == platform@,
            Err(detail) => outcome matches Err(error) && error@
                == (CommandErrorView::DisplayEnumerationFailed { detail: detail@ }),
        },
{
    system_info(displays, platform, utc_now_rfc3339())
}

} // verus!
