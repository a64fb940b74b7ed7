//! What the chart shows: which part of the series, between which bounds, and
//! what a key does to it. Drawing itself is not done here.

use vstd::prelude::*;
use crate::data::DataPoint;

verus! {

/// What the user can ask of the chart.
#[derive(Debug, Copy, Clone, PartialEq, Eq, Structural)]
pub enum Event {
    Quit,
    /// Leave out that many more of the oldest days.
    ZoomIn(usize),
    /// Bring back that many of the days left out.
    ZoomOut(usize),
    /// Show that many of the latest weeks.
    LastWeek(usize),
    AllData,
}

/// What the terminal reports of keyboard and mouse, as far as the chart cares.
#[derive(Debug, Copy, Clone, PartialEq, Eq, Structural)]
pub enum Input {
    Char(char),
    Up,
    Down,
    Left,
    Right,
    PageUp,
    PageDown,
    Home,
    End,
    Esc,
    ScrollUp,
    ScrollDown,
    Other,
}

/// What an input asks of the chart, if anything.
pub open spec fn event_of(input: Input) -> Option<Event> {
    match input {
        Input::Char(c) => if c == 'q' {
            Some(Event::Quit)
        } else if c == 'k' || c == 'l' {
            Some(Event::ZoomIn(1))
        } else if c == 'j' || c == 'h' {
            Some(Event::ZoomOut(1))
        } else if c == '0' {
            Some(Event::AllData)
        } else if '1' <= c <= '9' {
            Some(Event::LastWeek((c as int - '0' as int) as usize))
        } else {
            None
        },
        Input::Up => Some(Event::ZoomIn(1)),
        Input::Right => Some(Event::ZoomIn(1)),
        Input::Down => Some(Event::ZoomOut(1)),
        Input::Left => Some(Event::ZoomOut(1)),
        Input::PageUp => Some(Event::ZoomIn(10)),
        Input::PageDown => Some(Event::ZoomOut(10)),
        Input::End => Some(Event::LastWeek(1)),
        Input::Esc => Some(Event::AllData),
        Input::Home => Some(Event::AllData),
        Input::ScrollUp => Some(Event::ZoomIn(1)),
        Input::ScrollDown => Some(Event::ZoomOut(1)),
        Input::Other => None,
    }
}

/// Reads an input of the terminal as a request to the chart; inputs that ask
/// for nothing are passed over.
pub fn event_for(input: Input) -> (event: Option<Event>)
    ensures
        event == event_of(input),
{
    match input {
        Input::Char(c) => {
            if c == 'q' {
                Some(Event::Quit)
            } else if c == 'k' || c == 'l' {
                Some(Event::ZoomIn(1))
            } else if c == 'j' || c == 'h' {
                Some(Event::ZoomOut(1))
            } else if c == '0' {
                Some(Event::AllData)
            } else if c == '1' {
                Some(Event::LastWeek(1))
            } else if c == '2' {
                Some(Event::LastWeek(2))
            } else if c == '3' {
                Some(Event::LastWeek(3))
            } else if c == '4' {
                Some(Event::LastWeek(4))
            } else if c == '5' {
                Some(Event::LastWeek(5))
            } else if c == '6' {
                Some(Event::LastWeek(6))
            } else if c == '7' {
                Some(Event::LastWeek(7))
            } else if c == '8' {
                Some(Event::LastWeek(8))
            } else if c == '9' {
                Some(Event::LastWeek(9))
            } else {
                None
            }
        },
        Input::Up | Input::Right | Input::ScrollUp => Some(Event::ZoomIn(1)),
        Input::Down | Input::Left | Input::ScrollDown => Some(Event::ZoomOut(1)),
        Input::PageUp => Some(Event::ZoomIn(10)),
        Input::PageDown => Some(Event::ZoomOut(10)),
        Input::End => Some(Event::LastWeek(1)),
        Input::Esc | Input::Home => Some(Event::AllData),
        Input::Other => None,
    }
}

/// The first day that the chart shows after an event, where it showed the
/// days from `index` on of a series of `len` days; `None` where the event ends
/// the chart. Zooming in stops at the last day, zooming out at the first, and
/// the latest weeks of a series shorter than they are the whole series.
pub open spec fn index_after(index: usize, event: Event, len: usize) -> Option<usize> {
    match event {
        Event::Quit => None,
        Event::ZoomIn(diff) => {
            let last = if len == 0 {
                0
            } else {
                len - 1
            };
            if index + diff < last {
                Some((index + diff) as usize)
            } else {
                Some(last as usize)
            }
        },
        Event::ZoomOut(diff) => if diff <= index {
            Some((index - diff) as usize)
        } else {
            Some(0)
        },
        Event::LastWeek(week) => if 7 * week <= len {
            Some((len - 7 * week) as usize)
        } else {
            Some(0)
        },
        Event::AllData => Some(0),
    }
}

pub fn next_index(index: usize, event: Event, len: usize) -> (next: Option<usize>)
    ensures
        next == index_after(index, event, len),
{
    match event {
        Event::Quit => None,
        Event::ZoomIn(diff) => {
            let last = len.saturating_sub(1);
            let sum = index.saturating_add(diff);
            if sum < last {
                Some(sum)
            } else {
                Some(last)
            }
        },
        Event::ZoomOut(diff) => Some(index.saturating_sub(diff)),
        Event::LastWeek(week) => {
            if week <= len / 7 {
                Some(len - 7 * week)
            } else {
                Some(0)
            }
        },
        Event::AllData => Some(0),
    }
}

/// The smallest of the four totals of a record.
pub open spec fn least_total(point: DataPoint) -> u32 {
    let a = if point.cases.total <= point.deaths.total {
        point.cases.total
    } else {
        point.deaths.total
    };
    let b = if point.recoveries.total <= point.hospitalisations.total {
        point.recoveries.total
    } else {
        point.hospitalisations.total
    };
    if a <= b {
        a
    } else {
        b
    }
}

/// The largest of the four totals of a record.
pub open spec fn greatest_total(point: DataPoint) -> u32 {
    let a = if point.cases.total >= point.deaths.total {
        point.cases.total
    } else {
        point.deaths.total
    };
    let b = if point.recoveries.total >= point.hospitalisations.total {
        point.recoveries.total
    } else {
        point.hospitalisations.total
    };
    if a >= b {
        a
    } else {
        b
    }
}

/// That `low` and `high` bound the totals of the series, and that each is a
/// total of it; of an empty series both are zero.
pub open spec fn bounds_of(data_points: Seq<DataPoint>, low: u32, high: u32) -> bool {
    if data_points.len() == 0 {
        low == 0 && high == 0
    } else {
        &&& forall|i: int|
            0 <= i < data_points.len() ==> low <= least_total(#[trigger] data_points[i])
        &&& exists|i: int|
            0 <= i < data_points.len() && low == least_total(#[trigger] data_points[i])
        &&& forall|i: int|
            0 <= i < data_points.len() ==> greatest_total(#[trigger] data_points[i]) <= high
        &&& exists|i: int|
            0 <= i < data_points.len() && high == greatest_total(#[trigger] data_points[i])
    }
}

fn least(point: &DataPoint) -> (least: u32)
    ensures
        least == least_total(*point),
{
    let a = if point.cases.total <= point.deaths.total {
        point.cases.total
    } else {
        point.deaths.total
    };
    let b = if point.recoveries.total <= point.hospitalisations.total {
        point.recoveries.total
    } else {
        point.hospitalisations.total
    };
    if a <= b {
        a
    } else {
        b
    }
}

fn greatest(point: &DataPoint) -> (greatest: u32)
    ensures
        greatest == greatest_total(*point),
{
    let a = if point.cases.total >= point.deaths.total {
        point.cases.total
    } else {
        point.deaths.total
    };
    let b = if point.recoveries.total >= point.hospitalisations.total {
        point.recoveries.total
    } else {
        point.hospitalisations.total
    };
    if a >= b {
        a
    } else {
        b
    }
}

/// The bounds of the chart's vertical axis: the smallest and the largest total
/// that the shown days hold.
pub fn total_bounds(data_points: &[DataPoint]) -> (bounds: (u32, u32))
    ensures
        bounds_of(data_points@, bounds.0, bounds.1),
{
    if data_points.len() == 0 {
        return (0, 0);
    }
    let mut low = least(&data_points[0]);
    let mut high = greatest(&data_points[0]);
    let ghost mut low_at: int = 0;
    let ghost mut high_at: int = 0;
    let mut i: usize = 1;
    while i < data_points.len()
        invariant
            1 <= i <= data_points.len(),
            0 <= low_at < i,
            0 <= high_at < i,
            low == least_total(data_points@[low_at]),
            high == greatest_total(data_points@[high_at]),
            forall|k: int| 0 <= k < i ==> low <= least_total(#[trigger] data_points@[k]),
            forall|k: int| 0 <= k < i ==> greatest_total(#[trigger] data_points@[k]) <= high,
        decreases data_points.len() - i,
    {
        let l = least(&data_points[i]);
        let g = greatest(&data_points[i]);
        if l < low {
            low = l;
            proof {
                low_at = i as int;
            }
        }
        if g > high {
            high = g;
            proof {
                high_at = i as int;
            }
        }
        i += 1;
    }
    (low, high)
}

/// The days from one label of the horizontal axis to the next, for a chart
/// `width` columns wide that shows `len` days: a label takes seven columns,
/// six columns are taken by the frame, and the labels are spread over the
/// days, rounding up.
pub open spec fn label_steps(width: u16, len: usize) -> int {
    let columns = if width >= 6 {
        width - 6
    } else {
        0
    };
    let labels = if columns / 7 >= 1 {
        columns / 7
    } else {
        1
    };
    let steps = (len + labels - 1) / labels;
    if steps >= 1 {
        steps
    } else {
        1
    }
}

pub fn x_label_steps(width: u16, len: usize) -> (steps: usize)
    ensures
        steps == label_steps(width, len),
{
    let columns: u16 = width.saturating_sub(6);
    let mut labels: usize = (columns / 7) as usize;
    if labels < 1 {
        labels = 1;
    }
    let whole = len / labels;
    assert(len % labels != 0 ==> whole < len) by (nonlinear_arith)
        requires
            labels >= 1,
            whole == len / labels,
    ;
    let steps = if len % labels == 0 {
        whole
    } else {
        whole + 1
    };
    assert(steps == (len + labels - 1) / (labels as int)) by (nonlinear_arith)
        requires
            labels >= 1,
            whole == len / labels,
            steps == if len % labels == 0 {
                whole as int
            } else {
                whole + 1
            },
    ;
    if steps < 1 {
        1
    } else {
        steps
    }
}

} // verus!
