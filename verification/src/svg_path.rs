//! Assembly of SVG path-data (`d` attribute) strings.
//!
//! A path command here carries its coordinates already formatted as text:
//! coordinate formatting rounds floating-point values and is done by the
//! backend before the command reaches the verified core.  The core owns the
//! command grammar: the one-letter opcodes, the argument counts, and the
//! spacing of the `d` string.

use vstd::prelude::*;

verus! {

/// One SVG path command, with each coordinate already formatted as text.
#[derive(Debug, Clone)]
pub enum SvgPathCommand {
    /// Move the pen to a position without drawing.
    MoveTo { x: String, y: String },
    /// Draw a straight line to a position.
    LineTo { x: String, y: String },
    /// Draw a quadratic Bézier curve.
    QuadraticTo { control_x: String, control_y: String, x: String, y: String },
    /// Draw a cubic Bézier curve.
    CubicTo {
        control1_x: String,
        control1_y: String,
        control2_x: String,
        control2_y: String,
        x: String,
        y: String,
    },
    /// Close the current subpath.
    Close,
}

/// The SVG syntax of a single path command.
pub open spec fn command_svg_spec(cmd: SvgPathCommand) -> Seq<char> {
    match cmd {
        SvgPathCommand::MoveTo { x, y } => "M "@ + x@ + " "@ + y@,
        SvgPathCommand::LineTo { x, y } => "L "@ + x@ + " "@ + y@,
        SvgPathCommand::QuadraticTo { control_x, control_y, x, y } => "Q "@ + control_x@ + " "@
            + control_y@ + " "@ + x@ + " "@ + y@,
        SvgPathCommand::CubicTo { control1_x, control1_y, control2_x, control2_y, x, y } => "C "@
            + control1_x@ + " "@ + control1_y@ + " "@ + control2_x@ + " "@ + control2_y@ + " "@
            + x@ + " "@ + y@,
        SvgPathCommand::Close => "Z"@,
    }
}

/// The `d` attribute string of a command sequence: the commands' SVG syntax
/// joined by single spaces; empty for an empty sequence.
pub open spec fn path_svg_d_spec(cmds: Seq<SvgPathCommand>) -> Seq<char>
    decreases cmds.len(),
{
    if cmds.len() == 0 {
        Seq::empty()
    } else if cmds.len() == 1 {
        command_svg_spec(cmds[0])
    } else {
        path_svg_d_spec(cmds.drop_last()) + seq![' '] + command_svg_spec(cmds.last())
    }
}

/// Converts a single path command to SVG syntax.
pub fn path_command_to_svg(cmd: &SvgPathCommand) -> (r: String)
    ensures
        r@ == command_svg_spec(*cmd),
{
    let mut s = String::new();
    match cmd {
        SvgPathCommand::MoveTo { x, y } => {
            s.append("M ");
            s.append(x.as_str());
            s.append(" ");
            s.append(y.as_str());
        },
        SvgPathCommand::LineTo { x, y } => {
            s.append("L ");
            s.append(x.as_str());
            s.append(" ");
            s.append(y.as_str());
        },
        SvgPathCommand::QuadraticTo { control_x, control_y, x, y } => {
            s.append("Q ");
            s.append(control_x.as_str());
            s.append(" ");
            s.append(control_y.as_str());
            s.append(" ");
            s.append(x.as_str());
            s.append(" ");
            s.append(y.as_str());
        },
        SvgPathCommand::CubicTo { control1_x, control1_y, control2_x, control2_y, x, y } => {
            s.append("C ");
            s.append(control1_x.as_str());
            s.append(" ");
            s.append(control1_y.as_str());
            s.append(" ");
            s.append(control2_x.as_str());
            s.append(" ");
            s.append(control2_y.as_str());
            s.append(" ");
            s.append(x.as_str());
            s.append(" ");
            s.append(y.as_str());
        },
        SvgPathCommand::Close => {
            s.append("Z");
        },
    }
    assert(s@ =~= command_svg_spec(*cmd));
    s
}

/// Converts a command sequence to an SVG path `d` attribute string.
pub fn path_to_svg_d(cmds: &Vec<SvgPathCommand>) -> (r: String)
    ensures
        r@ == path_svg_d_spec(cmds@),
{
    let mut result = String::new();
    let mut i: usize = 0;
    while i < cmds.len()
        invariant
            i <= cmds@.len(),
            result@ == path_svg_d_spec(cmds@.take(i as int)),
        decreases cmds@.len() - i,
    {
        if i > 0 {
            result.push(' ');
        }
        let piece = path_command_to_svg(&cmds[i]);
        result.append(piece.as_str());
        proof {
            let t = cmds@.take(i as int + 1);
            assert(t.drop_last() =~= cmds@.take(i as int));
            assert(t.last() == cmds@[i as int]);
            assert(result@ =~= path_svg_d_spec(t));
        }
        i = i + 1;
    }
    proof {
        assert(cmds@.take(cmds@.len() as int) =~= cmds@);
    }
    result
}

} // verus!
