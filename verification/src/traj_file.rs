use vstd::prelude::*;

use crate::traj::TrajCommand;

verus! {

/// The first word of a line of a path file.
#[derive(Clone, Copy, Debug, PartialEq, Eq, Structural)]
pub enum CommandWord {
    Pos,
    Speed,
    Angle,
    VAngle,
    Delay,
    DestAngle,
    WaitYG,
    AddPos,
    CopyFormationX,
    /// Any other word.
    Other,
}

/// What a line of a path file gives.
#[derive(Clone, Copy, Debug, PartialEq, Eq, Structural)]
pub enum LineOutcome {
    /// A comment or an empty line.
    Skip,
    Command(TrajCommand),
    /// A command word with too few numbers after it, or a word that names no command.
    Unhandled,
    /// A command whose numbers do not read as numbers.
    NumberExpected,
}

/// The outcome of a line whose first word is `word`, followed by `nargs` words; `fixed` gives
/// the first two of them read as decimals in fixed point (`None` where one does not read as a
/// number), and `delay` the first read as a whole count.
pub open spec fn line_outcome(word: CommandWord, nargs: nat, fixed: Seq<Option<i32>>, delay: Option<u32>) -> LineOutcome {
    let one = |f: Option<i32>, c: spec_fn(i32) -> TrajCommand| match f {
        Some(v) => LineOutcome::Command(c(v)),
        None => LineOutcome::NumberExpected,
    };
    let two = |f: Option<i32>, g: Option<i32>, c: spec_fn(i32, i32) -> TrajCommand| match (f, g) {
        (Some(a), Some(b)) => LineOutcome::Command(c(a, b)),
        _ => LineOutcome::NumberExpected,
    };
    match word {
        CommandWord::Pos => if nargs >= 2 { two(fixed[0], fixed[1], |a: i32, b: i32| TrajCommand::Pos(a, b)) } else { LineOutcome::Unhandled },
        CommandWord::Speed => if nargs >= 1 { one(fixed[0], |a: i32| TrajCommand::Speed(a)) } else { LineOutcome::Unhandled },
        CommandWord::Angle => if nargs >= 1 { one(fixed[0], |a: i32| TrajCommand::Angle(a)) } else { LineOutcome::Unhandled },
        CommandWord::VAngle => if nargs >= 1 { one(fixed[0], |a: i32| TrajCommand::VAngle(a)) } else { LineOutcome::Unhandled },
        CommandWord::Delay => if nargs >= 1 {
            match delay { Some(d) => LineOutcome::Command(TrajCommand::Delay(d)), None => LineOutcome::NumberExpected }
        } else {
            LineOutcome::Unhandled
        },
        CommandWord::DestAngle => if nargs >= 2 { two(fixed[0], fixed[1], |a: i32, b: i32| TrajCommand::DestAngle(a, b)) } else { LineOutcome::Unhandled },
        CommandWord::WaitYG => if nargs >= 1 { one(fixed[0], |a: i32| TrajCommand::WaitYG(a)) } else { LineOutcome::Unhandled },
        CommandWord::AddPos => if nargs >= 2 { two(fixed[0], fixed[1], |a: i32, b: i32| TrajCommand::AddPos(a, b)) } else { LineOutcome::Unhandled },
        CommandWord::CopyFormationX => LineOutcome::Command(TrajCommand::CopyFormationX),
        CommandWord::Other => LineOutcome::Unhandled,
    }
}

/// The outcome of a line of a path file, from its words as the caller read them.
pub fn line_command(word: CommandWord, nargs: usize, fixed: &Vec<Option<i32>>, delay: Option<u32>) -> (r: LineOutcome)
    requires
        fixed@.len() >= 2,
    ensures
        r == line_outcome(word, nargs as nat, fixed@, delay),
{
    match word {
        CommandWord::Pos | CommandWord::DestAngle | CommandWord::AddPos => {
            if nargs < 2 {
                return LineOutcome::Unhandled;
            }
            match (fixed[0], fixed[1]) {
                (Some(a), Some(b)) => LineOutcome::Command(match word {
                    CommandWord::Pos => TrajCommand::Pos(a, b),
                    CommandWord::DestAngle => TrajCommand::DestAngle(a, b),
                    _ => TrajCommand::AddPos(a, b),
                }),
                _ => LineOutcome::NumberExpected,
            }
        },
        CommandWord::Speed | CommandWord::Angle | CommandWord::VAngle | CommandWord::WaitYG => {
            if nargs < 1 {
                return LineOutcome::Unhandled;
            }
            match fixed[0] {
                Some(a) => LineOutcome::Command(match word {
                    CommandWord::Speed => TrajCommand::Speed(a),
                    CommandWord::Angle => TrajCommand::Angle(a),
                    CommandWord::VAngle => TrajCommand::VAngle(a),
                    _ => TrajCommand::WaitYG(a),
                }),
                None => LineOutcome::NumberExpected,
            }
        },
        CommandWord::Delay => {
            if nargs < 1 {
                return LineOutcome::Unhandled;
            }
            match delay {
                Some(d) => LineOutcome::Command(TrajCommand::Delay(d)),
                None => LineOutcome::NumberExpected,
            }
        },
        CommandWord::CopyFormationX => LineOutcome::Command(TrajCommand::CopyFormationX),
        CommandWord::Other => LineOutcome::Unhandled,
    }
}

/// Whether a line is wrong.
pub open spec fn is_error(o: LineOutcome) -> bool {
    o is Unhandled || o is NumberExpected
}

/// The commands of the lines, in order.
pub open spec fn commands_of(lines: Seq<LineOutcome>) -> Seq<TrajCommand>
    decreases lines.len(),
{
    if lines.len() == 0 {
        Seq::empty()
    } else {
        commands_of(lines.drop_last()) + match lines.last() {
            LineOutcome::Command(c) => seq![c],
            _ => Seq::empty(),
        }
    }
}

/// The path of a file from the outcomes of its lines: its commands in order, or `None` when
/// any line is wrong.
pub fn commands_of_lines(lines: &Vec<LineOutcome>) -> (r: Option<Vec<TrajCommand>>)
    ensures
        match r {
            Some(v) => v@ == commands_of(lines@) && forall|i: int| 0 <= i < lines@.len() ==> !is_error(#[trigger] lines@[i]),
            None => exists|i: int| 0 <= i < lines@.len() && is_error(#[trigger] lines@[i]),
        },
{
    let mut v: Vec<TrajCommand> = Vec::new();
    let mut err = false;
    let mut i: usize = 0;
    assert(lines@.take(0) =~= Seq::<LineOutcome>::empty());
    while i < lines.len()
        invariant
            i <= lines@.len(),
            v@ == commands_of(lines@.take(i as int)),
            err == exists|k: int| 0 <= k < i && is_error(#[trigger] lines@[k]),
        decreases lines@.len() - i,
    {
        proof {
            assert(lines@.take(i + 1).drop_last() =~= lines@.take(i as int));
        }
        match lines[i] {
            LineOutcome::Command(c) => {
                v.push(c);
            },
            LineOutcome::Skip => {},
            _ => {
                err = true;
            },
        }
        proof {
            if is_error(lines@[i as int]) {
                assert(exists|k: int| 0 <= k < i + 1 && is_error(#[trigger] lines@[k]));
            } else if err {
                let k = choose|k: int| 0 <= k < i && is_error(#[trigger] lines@[k]);
                assert(0 <= k < i + 1 && is_error(lines@[k]));
            }
            if !err {
                assert forall|k: int| 0 <= k < i + 1 implies !is_error(#[trigger] lines@[k]) by {}
            }
        }
        i += 1;
    }
    assert(lines@.take(lines@.len() as int) =~= lines@);
    if err { None } else { Some(v) }
}

} // verus!
