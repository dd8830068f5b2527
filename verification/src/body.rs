//! The description of a function body: one block of instructions whose values
//! are numbered in the order in which they are computed, and the value that
//! the function returns.
use vstd::prelude::*;
use crate::llvm::is_decimal_literal;
use crate::llvm::is_symbol_name;
use crate::llvm::literal_digits;
use crate::llvm::MAX_INT_BITS;
use crate::llvm::MIN_INT_BITS;

verus! {

/// What an instruction works on.
#[derive(Debug, Clone, Copy, PartialEq, Eq, Structural)]
pub enum Operand {
    /// The parameter of the function at this position.
    Param(usize),
    /// The value of the instruction at this position of the body.
    Value(usize),
}

impl Operand {
    /// Whether the operand names something that exists in a function of
    /// `params` parameters once `values` instructions have been computed.
    pub open spec fn defined(self, params: nat, values: nat) -> bool {
        match self {
            Operand::Param(i) => i < params,
            Operand::Value(j) => j < values,
        }
    }

    /// What the operand stands for among the parameters `params` of a
    /// function and the values `values` of the instructions computed so far.
    pub open spec fn among<T>(self, params: Seq<T>, values: Seq<T>) -> T {
        match self {
            Operand::Param(i) => params[i as int],
            Operand::Value(j) => values[j as int],
        }
    }

    /// Whether the operand names something that exists in a function of
    /// `params` parameters once `values` instructions have been computed.
    pub fn is_defined(&self, params: usize, values: usize) -> (defined: bool)
        ensures
            defined == self.defined(params as nat, values as nat),
    {
        match self {
            Operand::Param(i) => *i < params,
            Operand::Value(j) => *j < values,
        }
    }
}

/// One instruction of a body.
#[derive(Debug)]
pub enum Inst {
    /// The integer of `bits` bits that the decimal `literal` denotes.
    Const { bits: u32, literal: String },
    /// The sum of two integers of one width, at that width.
    Add { lhs: Operand, rhs: Operand },
    /// The difference of two integers of one width, at that width.
    Sub { lhs: Operand, rhs: Operand },
    /// The sign extension of an integer to `bits` bits.
    SignExtend { value: Operand, bits: u32 },
    /// What the function `callee` of the module returns on `arg`.
    Call { callee: String, arg: Operand },
}

/// An instruction as contracts see it: with sequences of characters in place
/// of strings.
pub enum InstView {
    Const { bits: u32, literal: Seq<char> },
    Add { lhs: Operand, rhs: Operand },
    Sub { lhs: Operand, rhs: Operand },
    SignExtend { value: Operand, bits: u32 },
    Call { callee: Seq<char>, arg: Operand },
}

impl View for Inst {
    type V = InstView;

    open spec fn view(&self) -> InstView {
        match *self {
            Inst::Const { bits, literal } => InstView::Const { bits, literal: literal@ },
            Inst::Add { lhs, rhs } => InstView::Add { lhs, rhs },
            Inst::Sub { lhs, rhs } => InstView::Sub { lhs, rhs },
            Inst::SignExtend { value, bits } => InstView::SignExtend { value, bits },
            Inst::Call { callee, arg } => InstView::Call { callee: callee@, arg },
        }
    }
}

impl InstView {
    /// Whether the instruction is a call of the function `name`.
    pub open spec fn calls(self, name: Seq<char>) -> bool {
        match self {
            InstView::Call { callee, .. } => callee == name,
            _ => false,
        }
    }

    /// Whether the instruction can stand at position `index` of the body of
    /// a function of `params` parameters: its operands are parameters or
    /// earlier values, its width is one that LLVM has, its literal is
    /// decimal, its callee has a name that a function can be filed under.
    pub open spec fn well_formed(self, params: nat, index: nat) -> bool {
        match self {
            InstView::Const { bits, literal } => {
                &&& MIN_INT_BITS <= bits <= MAX_INT_BITS
                &&& is_decimal_literal(literal)
            },
            InstView::Add { lhs, rhs } => lhs.defined(params, index) && rhs.defined(params, index),
            InstView::Sub { lhs, rhs } => lhs.defined(params, index) && rhs.defined(params, index),
            InstView::SignExtend { value, bits } => {
                &&& value.defined(params, index)
                &&& MIN_INT_BITS <= bits <= MAX_INT_BITS
            },
            InstView::Call { callee, arg } => is_symbol_name(callee) && arg.defined(params, index),
        }
    }
}

/// The body of a function: its instructions and the value it returns.
#[derive(Debug)]
pub struct Body {
    pub insts: Vec<Inst>,
    pub result: Operand,
}

/// A body as contracts see it.
pub struct BodyView {
    pub insts: Seq<InstView>,
    pub result: Operand,
}

impl View for Body {
    type V = BodyView;

    open spec fn view(&self) -> BodyView {
        BodyView { insts: self.insts@.map_values(|inst: Inst| inst@), result: self.result }
    }
}

impl BodyView {
    /// Whether the body can be emitted into a function of `params`
    /// parameters: each instruction is well formed at its position and the
    /// returned value exists.
    pub open spec fn well_formed(self, params: nat) -> bool {
        &&& forall|i: int|
            0 <= i < self.insts.len() ==> (#[trigger] self.insts[i]).well_formed(params, i as nat)
        &&& self.result.defined(params, self.insts.len())
    }

    /// The names of the functions that the body calls.
    pub open spec fn callees(self) -> Set<Seq<char>> {
        Set::new(
            |name: Seq<char>|
                exists|i: int| 0 <= i < self.insts.len() && (#[trigger] self.insts[i]).calls(name),
        )
    }

    /// Whether the body calls no function.
    pub open spec fn calls_nothing(self) -> bool {
        forall|name: Seq<char>| !self.callees().contains(name)
    }

    /// Whether every function that the body calls has a name that a function
    /// can be filed under.
    pub open spec fn callees_named(self) -> bool {
        forall|i: int, name: Seq<char>|
            0 <= i < self.insts.len() && #[trigger] self.insts[i].calls(name) ==> is_symbol_name(
                name,
            )
    }

    /// The body that returns the constant `literal` of `bits` bits.
    pub open spec fn constant(bits: u32, literal: Seq<char>) -> BodyView {
        BodyView { insts: seq![InstView::Const { bits, literal }], result: Operand::Value(0) }
    }

    /// The body that adds the first and the last of `params` parameters.
    pub open spec fn sum_of_ends(params: nat) -> BodyView {
        BodyView {
            insts: seq![
                InstView::Add {
                    lhs: Operand::Param(0),
                    rhs: Operand::Param((params - 1) as usize),
                },
            ],
            result: Operand::Value(0),
        }
    }

    /// The body that subtracts the second parameter from the first, extends
    /// the sign of the difference to `wide_bits` bits and returns what the
    /// function `reduce` makes of that.
    pub open spec fn difference_reduced(wide_bits: u32, reduce: Seq<char>) -> BodyView {
        BodyView {
            insts: seq![
                InstView::Sub { lhs: Operand::Param(0), rhs: Operand::Param(1) },
                InstView::SignExtend { value: Operand::Value(0), bits: wide_bits },
                InstView::Call { callee: reduce, arg: Operand::Value(1) },
            ],
            result: Operand::Value(2),
        }
    }
}

/// Whether `name` is a name under which LLVM files a function: not empty,
/// and without the character that ends a C string.
pub fn name_is_symbol(name: &str) -> (symbol: bool)
    ensures
        symbol == is_symbol_name(name@),
{
    let len = name.unicode_len();
    if len == 0 {
        return false;
    }
    let mut i: usize = 0;
    while i < len
        invariant
            i <= len,
            len == name@.len(),
            forall|k: int| 0 <= k < i ==> name@[k] != '\0',
        decreases len - i,
    {
        if name.get_char(i) == '\0' {
            return false;
        }
        i = i + 1;
    }
    true
}

/// Whether `literal` is a decimal literal: an optional sign, then one or more
/// of the digits `0` to `9`.
pub fn literal_is_decimal(literal: &str) -> (decimal: bool)
    ensures
        decimal == is_decimal_literal(literal@),
{
    let len = literal.unicode_len();
    if len == 0 {
        return false;
    }
    let first = literal.get_char(0);
    let start: usize = if first == '+' || first == '-' {
        1
    } else {
        0
    };
    if start == len {
        return false;
    }
    let ghost digits = literal_digits(literal@);
    let mut i: usize = start;
    while i < len
        invariant
            start <= i <= len,
            len == literal@.len(),
            digits == literal_digits(literal@),
            digits.len() == len - start,
            forall|k: int| 0 <= k < digits.len() ==> digits[k] == literal@[k + start],
            forall|k: int| 0 <= k < i - start ==> '0' <= #[trigger] digits[k] <= '9',
        decreases len - i,
    {
        let c = literal.get_char(i);
        if !('0' <= c && c <= '9') {
            assert(digits[i - start] == c);
            return false;
        }
        i = i + 1;
    }
    true
}

impl Inst {
    /// Whether the instruction can stand at position `index` of the body of
    /// a function of `params` parameters.
    pub fn is_well_formed(&self, params: usize, index: usize) -> (ok: bool)
        ensures
            ok == self@.well_formed(params as nat, index as nat),
    {
        match self {
            Inst::Const { bits, literal } => {
                MIN_INT_BITS <= *bits && *bits <= MAX_INT_BITS && literal_is_decimal(
                    literal.as_str(),
                )
            },
            Inst::Add { lhs, rhs } => lhs.is_defined(params, index) && rhs.is_defined(params, index),
            Inst::Sub { lhs, rhs } => lhs.is_defined(params, index) && rhs.is_defined(params, index),
            Inst::SignExtend { value, bits } => {
                value.is_defined(params, index) && MIN_INT_BITS <= *bits && *bits <= MAX_INT_BITS
            },
            Inst::Call { callee, arg } => {
                name_is_symbol(callee.as_str()) && arg.is_defined(params, index)
            },
        }
    }
}

impl Body {
    /// Whether the body can be emitted into a function of `params`
    /// parameters.
    pub fn is_well_formed(&self, params: usize) -> (ok: bool)
        ensures
            ok == self@.well_formed(params as nat),
    {
        let mut i: usize = 0;
        while i < self.insts.len()
            invariant
                i <= self.insts@.len(),
                forall|k: int|
                    0 <= k < i ==> (#[trigger] self@.insts[k]).well_formed(params as nat, k as nat),
            decreases self.insts@.len() - i,
        {
            assert(self@.insts[i as int] == self.insts@[i as int]@);
            if !self.insts[i].is_well_formed(params, i) {
                return false;
            }
            i = i + 1;
        }
        self.result.is_defined(params, self.insts.len())
    }

    /// The body that returns the constant `literal` of `bits` bits.
    pub fn constant(bits: u32, literal: &str) -> (body: Body)
        ensures
            body@ == BodyView::constant(bits, literal@),
    {
        let mut insts: Vec<Inst> = Vec::new();
        insts.push(Inst::Const { bits, literal: literal.to_owned() });
        let body = Body { insts, result: Operand::Value(0) };
        assert(body@.insts =~= BodyView::constant(bits, literal@).insts);
        body
    }

    /// The body that adds the first and the last of `params` parameters.
    pub fn sum_of_ends(params: usize) -> (body: Body)
        requires
            params >= 1,
        ensures
            body@ == BodyView::sum_of_ends(params as nat),
    {
        let mut insts: Vec<Inst> = Vec::new();
        insts.push(Inst::Add { lhs: Operand::Param(0), rhs: Operand::Param(params - 1) });
        let body = Body { insts, result: Operand::Value(0) };
        assert(body@.insts =~= BodyView::sum_of_ends(params as nat).insts);
        body
    }

    /// The body that subtracts the second parameter from the first, extends
    /// the sign of the difference to `wide_bits` bits and returns what the
    /// function `reduce` makes of that.
    pub fn difference_reduced(wide_bits: u32, reduce: &str) -> (body: Body)
        ensures
            body@ == BodyView::difference_reduced(wide_bits, reduce@),
    {
        let mut insts: Vec<Inst> = Vec::new();
        insts.push(Inst::Sub { lhs: Operand::Param(0), rhs: Operand::Param(1) });
        insts.push(Inst::SignExtend { value: Operand::Value(0), bits: wide_bits });
        insts.push(Inst::Call { callee: reduce.to_owned(), arg: Operand::Value(1) });
        let body = Body { insts, result: Operand::Value(2) };
        assert(body@.insts =~= BodyView::difference_reduced(wide_bits, reduce@).insts);
        body
    }
}

} // verus!
