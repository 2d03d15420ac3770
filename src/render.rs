//! The draw commands of one frame, and a model of what the screen shows after
//! they have run.

use vstd::prelude::*;

use crate::status::{
    charge_label_text, connection_label_text, StatusFrame,
};
use crate::text::{format_percentage, format_time, percentage_text, text_of, time_text, Text};

verus! {

/// The text fields of the status screen.
#[derive(Clone, Copy, Debug, PartialEq, Eq, Structural)]
pub enum Field {
    Charge,
    Connection,
    Percentage,
    Time,
}

pub open spec fn field_position(f: Field) -> (i32, i32) {
    match f {
        Field::Charge => (10, 20),
        Field::Connection => (10, 60),
        Field::Percentage => (10, 100),
        Field::Time => (10, 140),
    }
}

impl Field {
    /// Top-left pixel at which the field is drawn.
    pub fn position(&self) -> (r: (i32, i32))
        ensures
            r == field_position(*self),
    {
        match self {
            Field::Charge => (10, 20),
            Field::Connection => (10, 60),
            Field::Percentage => (10, 100),
            Field::Time => (10, 140),
        }
    }
}

/// One step of drawing a frame.
#[derive(Debug)]
pub enum DrawCommand {
    /// Fill the whole screen with the background colour.
    Clear,
    /// Draw a fixed label into a field.
    Label { field: Field, label: &'static str },
    /// Draw formatted digits into a field.
    Digits { field: Field, digits: Text },
    /// Draw nothing.
    Skip,
}

/// What the screen shows: the text of each field that has been drawn since
/// it was last cleared.
pub type Screen = Map<Field, Seq<char>>;

pub open spec fn apply_command(screen: Screen, cmd: DrawCommand) -> Screen {
    match cmd {
        DrawCommand::Clear => Map::empty(),
        DrawCommand::Label { field, label } => screen.insert(field, label@),
        DrawCommand::Digits { field, digits } => screen.insert(field, text_of(digits)),
        DrawCommand::Skip => screen,
    }
}

/// The screen after running `plan` in order on `screen`.
pub open spec fn apply_plan(screen: Screen, plan: Seq<DrawCommand>) -> Screen
    decreases plan.len(),
{
    if plan.len() == 0 {
        screen
    } else {
        apply_command(apply_plan(screen, plan.drop_last()), plan.last())
    }
}

/// The screen that shows exactly `frame`.
pub open spec fn frame_screen(frame: StatusFrame) -> Screen {
    let base = map![
        Field::Charge => charge_label_text(frame.charge),
        Field::Connection => connection_label_text(frame.connection),
        Field::Percentage => percentage_text(frame.percentage as nat),
    ];
    match frame.time {
        Some(t) => base.insert(Field::Time, time_text(t)),
        None => base,
    }
}

/// The commands that draw `frame`: the screen is cleared first, then each
/// field is drawn at its place.
pub fn render_plan(frame: &StatusFrame) -> (r: [DrawCommand; 5])
    ensures
        r@[0] is Clear,
        apply_plan(Map::empty(), r@) == frame_screen(*frame),
{
    let percentage = format_percentage(frame.percentage);
    let time = match &frame.time {
        Some(t) => DrawCommand::Digits { field: Field::Time, digits: format_time(t) },
        None => DrawCommand::Skip,
    };
    let r = [
        DrawCommand::Clear,
        DrawCommand::Label { field: Field::Charge, label: frame.charge.as_str() },
        DrawCommand::Label { field: Field::Connection, label: frame.connection.as_str() },
        DrawCommand::Digits { field: Field::Percentage, digits: percentage },
        time,
    ];
    proof {
        reveal_with_fuel(apply_plan, 6);
        let p = r@;
        assert(p.drop_last().drop_last().drop_last().drop_last().drop_last().len() == 0);
        assert(apply_plan(Map::empty(), r@) =~= frame_screen(*frame));
    }
    r
}

/// A plan that starts by clearing the screen shows the same whatever the
/// screen showed before.
pub proof fn lemma_cleared_plan_forgets(s: Screen, t: Screen, plan: Seq<DrawCommand>)
    requires
        plan.len() > 0,
        plan[0] is Clear,
    ensures
        apply_plan(s, plan) == apply_plan(t, plan),
    decreases plan.len(),
{
    if plan.len() > 1 {
        lemma_cleared_plan_forgets(s, t, plan.drop_last());
    } else {
        assert(plan.drop_last().len() == 0);
    }
}

/// Drawing three frames in a row, each plan clearing the screen first, leaves
/// the screen as one fresh draw of the last frame: nothing of an earlier frame
/// remains.
pub proof fn lemma_redraw_leaves_no_trace(
    s: Screen,
    p1: Seq<DrawCommand>,
    p2: Seq<DrawCommand>,
    p3: Seq<DrawCommand>,
)
    requires
        p1.len() > 0 && p1[0] is Clear,
        p2.len() > 0 && p2[0] is Clear,
        p3.len() > 0 && p3[0] is Clear,
    ensures
        apply_plan(apply_plan(apply_plan(s, p1), p2), p3) == apply_plan(Map::empty(), p3),
{
    lemma_cleared_plan_forgets(apply_plan(apply_plan(s, p1), p2), Map::empty(), p3);
}

/// Three consecutive frames, each drawn by its plan from `render_plan`, leave
/// the screen showing exactly the last frame, as if it had been drawn alone.
pub proof fn lemma_three_frames_show_the_last(
    s: Screen,
    frames: (StatusFrame, StatusFrame, StatusFrame),
    p1: Seq<DrawCommand>,
    p2: Seq<DrawCommand>,
    p3: Seq<DrawCommand>,
)
    requires
        p1.len() > 0 && p1[0] is Clear && apply_plan(Map::empty(), p1) == frame_screen(frames.0),
        p2.len() > 0 && p2[0] is Clear && apply_plan(Map::empty(), p2) == frame_screen(frames.1),
        p3.len() > 0 && p3[0] is Clear && apply_plan(Map::empty(), p3) == frame_screen(frames.2),
    ensures
        apply_plan(apply_plan(apply_plan(s, p1), p2), p3) == frame_screen(frames.2),
{
    lemma_redraw_leaves_no_trace(s, p1, p2, p3);
}

} // verus!
