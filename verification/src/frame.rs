//! The native-model stack frame.
//!
//! A frame carries the program counter and two name-to-number tables: the
//! registers, and the results the expression evaluator would produce. Reading
//! either yields a value handle; a miss, or an invalid frame, yields an
//! invalid one.

use vstd::prelude::*;

use crate::table::{table_find_exec, table_lookup, table_view};
use crate::value::{SBValue, ValueV};

verus! {

/// Specification-level content of an [`SBFrame`].
pub struct FrameV {
    pub valid: bool,
    pub pc: u64,
    pub registers: Seq<(Seq<char>, u64)>,
    pub expressions: Seq<(Seq<char>, u64)>,
}

impl FrameV {
    /// The value handle a register lookup yields.
    pub open spec fn register_value(self, name: Seq<char>) -> ValueV {
        ValueV {
            unsigned: if self.valid {
                table_lookup(self.registers, name)
            } else {
                None
            },
            summary: None,
        }
    }

    /// The value handle an expression evaluation yields.
    pub open spec fn expression_value(self, expr: Seq<char>) -> ValueV {
        ValueV {
            unsigned: if self.valid {
                table_lookup(self.expressions, expr)
            } else {
                None
            },
            summary: None,
        }
    }
}

/// A native-model stack frame.
#[derive(Debug)]
pub struct SBFrame {
    pub valid: bool,
    pub pc: u64,
    pub registers: Vec<(String, u64)>,
    pub expressions: Vec<(String, u64)>,
}

impl View for SBFrame {
    type V = FrameV;

    open spec fn view(&self) -> FrameV {
        FrameV {
            valid: self.valid,
            pc: self.pc,
            registers: table_view(self.registers@),
            expressions: table_view(self.expressions@),
        }
    }
}

impl SBFrame {
    /// An invalid frame: what an invalid thread hands out.
    pub fn invalid() -> (r: SBFrame)
        ensures
            r@ == (FrameV {
                valid: false,
                pc: 0,
                registers: Seq::<(Seq<char>, u64)>::empty(),
                expressions: Seq::<(Seq<char>, u64)>::empty(),
            }),
    {
        let r = SBFrame { valid: false, pc: 0, registers: Vec::new(), expressions: Vec::new() };
        proof {
            assert(r@.registers =~= Seq::<(Seq<char>, u64)>::empty());
            assert(r@.expressions =~= Seq::<(Seq<char>, u64)>::empty());
        }
        r
    }

    /// A valid frame stopped at the given program counter, with empty tables.
    pub fn stopped_at(pc: u64) -> (r: SBFrame)
        ensures
            r@ == (FrameV {
                valid: true,
                pc,
                registers: Seq::<(Seq<char>, u64)>::empty(),
                expressions: Seq::<(Seq<char>, u64)>::empty(),
            }),
    {
        let r = SBFrame { valid: true, pc, registers: Vec::new(), expressions: Vec::new() };
        proof {
            assert(r@.registers =~= Seq::<(Seq<char>, u64)>::empty());
            assert(r@.expressions =~= Seq::<(Seq<char>, u64)>::empty());
        }
        r
    }

    /// Records a register and its content.
    pub fn add_register(&mut self, name: &str, value: u64)
        ensures
            final(self)@ == (FrameV {
                registers: old(self)@.registers.push((name@, value)),
                ..old(self)@
            }),
    {
        let ghost before = self@;
        self.registers.push((name.to_owned(), value));
        proof {
            assert(self@.registers =~= before.registers.push((name@, value)));
        }
    }

    /// Records an expression and the result its evaluation yields.
    pub fn add_expression(&mut self, expr: &str, value: u64)
        ensures
            final(self)@ == (FrameV {
                expressions: old(self)@.expressions.push((expr@, value)),
                ..old(self)@
            }),
    {
        let ghost before = self@;
        self.expressions.push((expr.to_owned(), value));
        proof {
            assert(self@.expressions =~= before.expressions.push((expr@, value)));
        }
    }

    /// The program counter.
    pub fn get_pc(&self) -> (r: u64)
        ensures
            r == self@.pc,
    {
        self.pc
    }

    /// Looks a register up by name.
    pub fn find_register_model(&self, name: &str) -> (r: SBValue)
        ensures
            r@ == self@.register_value(name@),
    {
        if !self.valid {
            return SBValue::invalid();
        }
        match table_find_exec(&self.registers, name) {
            Some(i) => SBValue::from_unsigned(self.registers[i].1),
            None => SBValue::invalid(),
        }
    }

    /// Evaluates an expression by looking its scripted result up.
    pub fn evaluate_expression_model(&self, expr: &str) -> (r: SBValue)
        ensures
            r@ == self@.expression_value(expr@),
    {
        if !self.valid {
            return SBValue::invalid();
        }
        match table_find_exec(&self.expressions, expr) {
            Some(i) => SBValue::from_unsigned(self.expressions[i].1),
            None => SBValue::invalid(),
        }
    }

    /// A content-equal copy of the frame.
    pub fn duplicate(&self) -> (r: SBFrame)
        ensures
            r@ == self@,
    {
        let r = SBFrame {
            valid: self.valid,
            pc: self.pc,
            registers: copy_table(&self.registers),
            expressions: copy_table(&self.expressions),
        };
        r
    }
}

/// A content-equal copy of a name-to-number table.
fn copy_table(t: &Vec<(String, u64)>) -> (r: Vec<(String, u64)>)
    ensures
        table_view(r@) == table_view(t@),
{
    let mut r: Vec<(String, u64)> = Vec::new();
    let mut i: usize = 0;
    while i < t.len()
        invariant
            i <= t.len(),
            r@.len() == i,
            table_view(r@) =~= table_view(t@).take(i as int),
        decreases t.len() - i,
    {
        let name_copy = t[i].0.clone();
        assert(name_copy@ == t@[i as int].0@);
        r.push((name_copy, t[i].1));
        proof {
            assert(r@.len() == i + 1);
            assert forall|k: int| 0 <= k < i + 1 implies #[trigger] table_view(r@)[k]
                == table_view(t@).take(i + 1)[k] by {
                assert(table_view(r@)[k] == (r@[k].0@, r@[k].1));
                assert(table_view(t@)[k] == (t@[k].0@, t@[k].1));
                if k < i {
                    assert(table_view(r@)[k] == table_view(t@).take(i as int)[k]);
                }
            }
            assert(table_view(r@) =~= table_view(t@).take(i + 1));
        }
        i += 1;
    }
    proof {
        assert(table_view(r@) =~= table_view(t@));
    }
    r
}

} // verus!
