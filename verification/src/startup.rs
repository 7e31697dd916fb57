//! Starting the control loop for the controller that the user selected, and
//! the status that the host shows for it.

use crate::config::Config;
use crate::controller::{ControllerView, GamepadController};
use crate::device::DeviceScan;
use crate::text::join;
use vstd::prelude::*;

verus! {

/// How an attempt to start the control loop ended.
#[derive(Clone, Copy, Debug, PartialEq, Eq, Structural)]
pub enum StartStatus {
    /// The loop is running for a connected controller.
    Running,
    /// The loop was set up but its worker is not running.
    NotRunning,
    /// The worker of the loop could not be set up.
    InitializationFailed,
    /// The selected controller is not connected.
    Disconnected,
    /// The device system could not be opened.
    DeviceSystemUnavailable,
    /// No controller is selected.
    NoSelection,
}

/// The colour in which the host shows a status.
#[derive(Clone, Copy, Debug, PartialEq, Eq, Structural)]
pub enum StatusColor {
    Green,
    Red,
}

/// What an attempt to start the control loop left behind.
#[derive(Debug)]
pub struct StartOutcome {
    /// The loop, where it was started.
    pub controller: Option<GamepadController>,
    /// How the attempt ended.
    pub status: StartStatus,
}

impl StartStatus {
    /// Green for a running loop, red for everything else.
    pub open spec fn color_of(self) -> StatusColor {
        if self == StartStatus::Running {
            StatusColor::Green
        } else {
            StatusColor::Red
        }
    }

    /// Whether the host counts as active after the attempt. An attempt without
    /// a selection leaves that as it was.
    pub open spec fn active_of(self) -> Option<bool> {
        match self {
            StartStatus::Running => Some(true),
            StartStatus::NoSelection => None,
            _ => Some(false),
        }
    }

    /// The status line. `detail` is the controller's name for a controller that
    /// is not connected and the reason for a device system that could not be
    /// opened; the other lines do not use it.
    pub open spec fn message_of(self, detail: Seq<char>) -> Seq<char> {
        match self {
            StartStatus::Running => "已连接，控制器运行中"@,
            StartStatus::NotRunning => "控制器初始化失败，未能启动"@,
            StartStatus::InitializationFailed => "控制器初始化失败"@,
            StartStatus::Disconnected => "手柄已断开连接: "@ + detail,
            StartStatus::DeviceSystemUnavailable => "无法初始化手柄系统: "@ + detail,
            StartStatus::NoSelection => "未选择手柄"@,
        }
    }

    /// The colour in which the host shows the status.
    pub fn color(&self) -> (color: StatusColor)
        ensures
            color == self.color_of(),
    {
        match self {
            StartStatus::Running => StatusColor::Green,
            _ => StatusColor::Red,
        }
    }

    /// Whether the host counts as active after the attempt, where the attempt
    /// decides it.
    pub fn active(&self) -> (active: Option<bool>)
        ensures
            active == self.active_of(),
    {
        match self {
            StartStatus::Running => Some(true),
            StartStatus::NoSelection => None,
            _ => Some(false),
        }
    }

    /// The status line for the host to show.
    pub fn message(&self, detail: &str) -> (text: String)
        ensures
            text@ == self.message_of(detail@),
    {
        match self {
            StartStatus::Running => "已连接，控制器运行中".to_owned(),
            StartStatus::NotRunning => "控制器初始化失败，未能启动".to_owned(),
            StartStatus::InitializationFailed => "控制器初始化失败".to_owned(),
            StartStatus::Disconnected => join("手柄已断开连接: ", detail),
            StartStatus::DeviceSystemUnavailable => join("无法初始化手柄系统: ", detail),
            StartStatus::NoSelection => "未选择手柄".to_owned(),
        }
    }
}

/// How an attempt to start the loop for `selected` ends, given the enumeration
/// `scan`. The enumeration is looked at only where a controller is selected.
pub open spec fn start_status_of(selected: Option<u64>, scan: DeviceScan) -> StartStatus {
    match selected {
        None => StartStatus::NoSelection,
        Some(id) => match scan {
            DeviceScan::Unavailable => StartStatus::DeviceSystemUnavailable,
            DeviceScan::Devices(_) => if scan.confirms(id) {
                StartStatus::Running
            } else {
                StartStatus::Disconnected
            },
        },
    }
}

/// Starts the control loop for the selected controller at `now`, with the
/// settings `config`. The loop is started if and only if a controller is
/// selected, the device system could be opened and the enumeration lists that
/// controller as connected; the status says which of these failed.
pub fn start_selected_controller(
    selected: Option<u64>,
    scan: &DeviceScan,
    config: Config,
    now: u64,
) -> (outcome: StartOutcome)
    ensures
        outcome.status == start_status_of(selected, *scan),
        outcome.controller is Some <==> outcome.status == StartStatus::Running,
        outcome.controller matches Some(controller) ==> selected matches Some(id)
            && controller@ == ControllerView::started(id, config@, now),
{
    match selected {
        None => StartOutcome { controller: None, status: StartStatus::NoSelection },
        Some(id) => match scan {
            DeviceScan::Unavailable => StartOutcome {
                controller: None,
                status: StartStatus::DeviceSystemUnavailable,
            },
            DeviceScan::Devices(_) => {
                if scan.confirms_device(id) {
                    StartOutcome {
                        controller: Some(GamepadController::new(id, config, now)),
                        status: StartStatus::Running,
                    }
                } else {
                    StartOutcome { controller: None, status: StartStatus::Disconnected }
                }
            },
        },
    }
}

} // verus!
