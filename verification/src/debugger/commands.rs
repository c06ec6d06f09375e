//! The commands that count: cycle and step. Each acts as often as its
//! argument says, and stops early where the session is interrupted or
//! the processor is at fault.

use vstd::prelude::*;
use crate::cpu::machine::CpuError;
use crate::debugger::{arg_views, repetitions, repetitions_of, Arg, ArgView, CommandRunError};
use crate::debugger::session::{Debugger, STEP_LIMIT};

verus! {

/// Whether a command that was to act `wanted` times has ended as it
/// may: `done` times it acted without fault, and it either ended in
/// peace or stopped at the fault of the tick that came next. A command
/// that ended in peace has acted as often as it was to, or it was
/// interrupted, which is looked for only after it has acted.
pub open spec fn ended(
    wanted: u32,
    done: nat,
    clean: bool,
    fault: Option<CpuError>,
    r: Result<(), CommandRunError>,
) -> bool {
    &&& done <= wanted
    &&& clean
    &&& match r {
        Ok(()) => done == wanted || done >= 1,
        Err(CommandRunError::Fault(e)) => done < wanted && fault == Some(e),
        Err(_) => false,
    }
}

/// The cycle command: as many ticks as the first argument says, one
/// without an argument. The interrupt flag is lowered first and looked
/// at after every tick; once it is raised no further tick is made. A
/// fault ends the command with the ticks before it made.
pub fn cycle(d: &mut Debugger, args: &Vec<Arg>) -> (r: Result<(), CommandRunError>)
    ensures
        match repetitions_of(arg_views(args@)) {
            None => final(d)@ == old(d)@ && (r matches Err(
                CommandRunError::InvalidArgumentType(index, expected, got),
            ) && index == 0 && expected@ == ArgView::UInt(0) && got@ == args@[0]@),
            Some(cycles) => exists|done: nat|
                final(d)@ == #[trigger] old(d)@.cycled_times(done) && ended(
                    cycles,
                    done,
                    old(d)@.cycles_cleanly(done),
                    old(d)@.cycled_times(done).fault(),
                    r,
                ),
        },
{
    let cycles = match repetitions(args) {
        Ok(cycles) => cycles,
        Err(e) => {
            return Err(e);
        },
    };
    d.clear_interrupt();
    let mut done: u32 = 0;
    while done < cycles
        invariant
            done <= cycles,
            repetitions_of(arg_views(args@)) == Some(cycles),
            d@ == old(d)@.cycled_times(done as nat),
            old(d)@.cycles_cleanly(done as nat),
        ensures
            done == cycles || done >= 1,
        decreases cycles - done,
    {
        match d.cycle() {
            Ok(()) => {},
            Err(e) => {
                let r = Err(CommandRunError::Fault(e));
                assert(ended(
                    cycles,
                    done as nat,
                    old(d)@.cycles_cleanly(done as nat),
                    old(d)@.cycled_times(done as nat).fault(),
                    r,
                ));
                return r;
            },
        }
        done = done + 1;
        if d.is_interrupted() {
            break ;
        }
    }
    assert(ended(
        cycles,
        done as nat,
        old(d)@.cycles_cleanly(done as nat),
        old(d)@.cycled_times(done as nat).fault(),
        Ok(()),
    ));
    Ok(())
}

/// The step command: as many instructions as the first argument says,
/// one without an argument. The interrupt flag is lowered first and
/// looked at after every instruction; once it is raised no further
/// instruction is started. A fault ends the command with the ticks
/// before it made.
pub fn step(d: &mut Debugger, args: &Vec<Arg>) -> (r: Result<(), CommandRunError>)
    ensures
        match repetitions_of(arg_views(args@)) {
            None => final(d)@ == old(d)@ && (r matches Err(
                CommandRunError::InvalidArgumentType(index, expected, got),
            ) && index == 0 && expected@ == ArgView::UInt(0) && got@ == args@[0]@),
            Some(steps) => exists|done: nat|
                ended(
                    steps,
                    done,
                    old(d)@.steps_cleanly(done),
                    #[trigger] old(d)@.stepped_times(done).stepped(STEP_LIMIT as nat).1,
                    r,
                ) && final(d)@ == (if r is Ok {
                    old(d)@.stepped_times(done)
                } else {
                    old(d)@.stepped_times(done).stepped(STEP_LIMIT as nat).0
                }),
        },
{
    let steps = match repetitions(args) {
        Ok(steps) => steps,
        Err(e) => {
            return Err(e);
        },
    };
    d.clear_interrupt();
    let mut done: u32 = 0;
    while done < steps
        invariant
            done <= steps,
            repetitions_of(arg_views(args@)) == Some(steps),
            d@ == old(d)@.stepped_times(done as nat),
            old(d)@.steps_cleanly(done as nat),
        ensures
            done == steps || done >= 1,
        decreases steps - done,
    {
        match d.step() {
            Ok(()) => {},
            Err(e) => {
                let r = Err(CommandRunError::Fault(e));
                assert(ended(
                    steps,
                    done as nat,
                    old(d)@.steps_cleanly(done as nat),
                    old(d)@.stepped_times(done as nat).stepped(STEP_LIMIT as nat).1,
                    r,
                ));
                return r;
            },
        }
        done = done + 1;
        if d.is_interrupted() {
            break ;
        }
    }
    assert(ended(
        steps,
        done as nat,
        old(d)@.steps_cleanly(done as nat),
        old(d)@.stepped_times(done as nat).stepped(STEP_LIMIT as nat).1,
        Ok(()),
    ));
    Ok(())
}

} // verus!
