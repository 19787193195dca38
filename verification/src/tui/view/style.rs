//! Colours and markers the dashboard uses for statuses.
use vstd::prelude::*;

use crate::model::state::TaskStatus;
use crate::tui::state::task_detail::StepItemStatus;

verus! {

/// A terminal colour.
#[derive(Debug, Clone, Copy, PartialEq, Eq, Structural)]
pub enum ThemeColor {
    Gray,
    DarkGray,
    Blue,
    Cyan,
    Yellow,
    Green,
    Red,
    Magenta,
    White,
}

/// The dashboard's colour scheme.
pub struct Theme;

pub open spec fn status_color_of(status: TaskStatus) -> ThemeColor {
    match status {
        TaskStatus::Pending => ThemeColor::Gray,
        TaskStatus::Running => ThemeColor::Blue,
        TaskStatus::Waiting => ThemeColor::Yellow,
        TaskStatus::Completed => ThemeColor::Green,
        TaskStatus::Failed => ThemeColor::Red,
        TaskStatus::Stopped => ThemeColor::Magenta,
    }
}

pub open spec fn step_status_color_of(status: StepItemStatus) -> ThemeColor {
    match status {
        StepItemStatus::Pending => ThemeColor::Gray,
        StepItemStatus::Current => ThemeColor::Cyan,
        StepItemStatus::Success => ThemeColor::Green,
        StepItemStatus::Failed => ThemeColor::Red,
        StepItemStatus::Skipped => ThemeColor::DarkGray,
    }
}

impl Theme {
    pub fn status_color(status: TaskStatus) -> (c: ThemeColor)
        ensures
            c == status_color_of(status),
    {
        match status {
            TaskStatus::Pending => ThemeColor::Gray,
            TaskStatus::Running => ThemeColor::Blue,
            TaskStatus::Waiting => ThemeColor::Yellow,
            TaskStatus::Completed => ThemeColor::Green,
            TaskStatus::Failed => ThemeColor::Red,
            TaskStatus::Stopped => ThemeColor::Magenta,
        }
    }

    pub fn step_status_color(status: StepItemStatus) -> (c: ThemeColor)
        ensures
            c == step_status_color_of(status),
    {
        match status {
            StepItemStatus::Pending => ThemeColor::Gray,
            StepItemStatus::Current => ThemeColor::Cyan,
            StepItemStatus::Success => ThemeColor::Green,
            StepItemStatus::Failed => ThemeColor::Red,
            StepItemStatus::Skipped => ThemeColor::DarkGray,
        }
    }
}

pub open spec fn status_marker_of(status: StepItemStatus) -> Seq<char> {
    match status {
        StepItemStatus::Pending => " "@,
        StepItemStatus::Current => ">"@,
        StepItemStatus::Success => "o"@,
        StepItemStatus::Failed => "x"@,
        StepItemStatus::Skipped => "-"@,
    }
}

/// Marker character shown before a step.
pub fn status_marker(status: StepItemStatus) -> (r: &'static str)
    ensures
        r@ == status_marker_of(status),
{
    match status {
        StepItemStatus::Pending => " ",
        StepItemStatus::Current => ">",
        StepItemStatus::Success => "o",
        StepItemStatus::Failed => "x",
        StepItemStatus::Skipped => "-",
    }
}

} // verus!
