//! The arithmetic unit: the ACC/ONE/X/Y/Z registers and the ALU with its
//! cycle-countdown model of latency.

use vstd::prelude::*;
use crate::types::Word;

verus! {

// How many microcycles does the ALU need to complete work?
pub const MICROCYCLES_PER_OP: u8 = 1;

// All the operations that can be performed by the ALU:
#[derive(Copy, Clone, PartialEq, Eq, Structural, Debug)]
pub enum Operation {
    Add,
    And,
    Or,
    Xor,
    Equals,
    Not,
    RotateRight,
}

// A pending ALU calculation.
// Each microcycle decrements the number of remaining cycles.
// As soon as it falls to 0, the ALU result is available in Z.
// Work is executed on copies of X and Y. Changing them during its progress
// won't change the outcome.
#[derive(Copy, Clone, PartialEq, Eq, Structural, Debug)]
pub struct Work {
    pub op: Operation,
    pub x: Word,
    pub y: Word,
    pub remaining_cycles: u8,
}

pub struct Unit {
    // "Accumulator" (ACC)
    // General purpose register (calculations, memory, ...)
    pub acc: Word,
    // "Einsregister" (ONE)
    // Holds a constant value of 1
    pub one: Word,
    // "X", "Y", "Z"
    // Input and output for the ALU
    pub x: Word,
    pub y: Word,
    pub z: Word,
    // Pending work:
    pub work: Option<Work>,
}

/// The value the ALU computes for an operation on the captured operands.
/// Rotation is a true rotate right by the low five bits of the count.
pub open spec fn spec_finalize(op: Operation, x: Word, y: Word) -> Word {
    match op {
        Operation::Add => Word(((x.0 + y.0) % 0x100000000) as u32),
        Operation::And => Word(x.0 & y.0),
        Operation::Or => Word(x.0 | y.0),
        Operation::Xor => Word(x.0 ^ y.0),
        Operation::Equals => Word(
            if x.0 == y.0 {
                0xFFFFFFFFu32
            } else {
                0u32
            },
        ),
        Operation::Not => Word(!x.0),
        Operation::RotateRight => {
            let rot = y.0 % 32;
            if rot == 0 {
                x
            } else {
                Word((x.0 >> rot) | (x.0 << (32 - rot)))
            }
        },
    }
}

/// One poll of the ALU: pending work counts down; work whose counter
/// already reached zero commits its result into Z and is dropped.
pub open spec fn spec_poll(u: Unit) -> Unit {
    match u.work {
        None => u,
        Some(w) => {
            if w.remaining_cycles > 0 {
                Unit {
                    work: Some(
                        Work { remaining_cycles: (w.remaining_cycles - 1) as u8, ..w },
                    ),
                    ..u
                }
            } else {
                Unit { z: spec_finalize(w.op, w.x, w.y), work: None, ..u }
            }
        },
    }
}

impl Unit {
    pub fn new() -> (u: Unit)
        ensures
            u == (Unit {
                acc: Word(0),
                one: Word(1),
                x: Word(0),
                y: Word(0),
                z: Word(0),
                work: None::<Work>,
            }),
    {
        Unit { acc: Word(0), one: Word(1), x: Word(0), y: Word(0), z: Word(0), work: None }
    }

    /// The pending ALU work, if any.
    pub fn work(&self) -> (w: Option<Work>)
        ensures
            w == self.work,
    {
        self.work
    }

    pub fn poll_work(&mut self)
        ensures
            *final(self) == spec_poll(*old(self)),
    {
        match self.work {
            Some(work) => {
                if work.remaining_cycles > 0 {
                    self.work = Some(
                        Work { remaining_cycles: work.remaining_cycles - 1, ..work },
                    );
                } else {
                    self.work = None;
                    self.finalize_work(work);
                }
            },
            None => {},
        }
    }

    /// Start an ALU operation on snapshots of X and Y. The ALU must be
    /// idle.
    pub fn signal_alu(&mut self, op: Operation)
        requires
            old(self).work matches None,
        ensures
            *final(self) == (Unit {
                work: Some(
                    Work {
                        op,
                        x: old(self).x,
                        y: old(self).y,
                        remaining_cycles: MICROCYCLES_PER_OP,
                    },
                ),
                ..*old(self)
            }),
    {
        self.work = Some(
            Work { op, x: self.x, y: self.y, remaining_cycles: MICROCYCLES_PER_OP },
        );
    }

    fn finalize_work(&mut self, work: Work)
        ensures
            *final(self) == (Unit {
                z: spec_finalize(work.op, work.x, work.y),
                ..*old(self)
            }),
    {
        self.z = match work.op {
            Operation::Add => Word(work.x.0.wrapping_add(work.y.0)),
            Operation::And => Word(work.x.0 & work.y.0),
            Operation::Or => Word(work.x.0 | work.y.0),
            Operation::Xor => Word(work.x.0 ^ work.y.0),
            Operation::Equals => Word(
                if work.x.0 == work.y.0 {
                    0xFFFFFFFFu32
                } else {
                    0u32
                },
            ),
            Operation::Not => Word(!work.x.0),
            Operation::RotateRight => {
                let rot = work.y.0 % 32;
                if rot == 0 {
                    work.x
                } else {
                    Word((work.x.0 >> rot) | (work.x.0 << (32 - rot)))
                }
            },
        };
    }
}

} // verus!
