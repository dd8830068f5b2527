//! What a body computes: the meaning of its instructions on integers of
//! fixed width, and what follows for the bodies that this library emits.
//!
//! An integer of `bits` bits is known by its value as an unsigned number,
//! below `2^bits`. Sums and differences wrap around at the width of their
//! first operand, as the instructions `add` and `sub` of LLVM do; a sign
//! extension keeps the value that the operand has when it is read in two's
//! complement, as `sext` does. What a call returns is up to the function
//! that is called: the meaning of a body is stated for every way in which
//! the functions of the module may behave.
use vstd::prelude::*;
use vstd::arithmetic::div_mod::lemma_fundamental_div_mod_converse;
use vstd::arithmetic::power2::lemma2_to64;
use vstd::arithmetic::power2::lemma_pow2_adds;
use vstd::arithmetic::power2::lemma_pow2_pos;
use vstd::arithmetic::power2::lemma_pow2_strictly_increases;
use vstd::arithmetic::power2::lemma_pow2_unfold;
use vstd::arithmetic::power2::pow2;
use crate::body::BodyView;
use crate::body::InstView;
use crate::body::Operand;
use crate::llvm::literal_digits;
use crate::math::modulo_name;
use crate::math::WIDE_BITS;
use crate::types::FELT_BITS;

verus! {

/// An integer of a fixed width: the width, and the value read as an unsigned
/// number.
pub struct Word {
    pub bits: nat,
    pub value: nat,
}

/// How the functions of a module behave: what the function of a given name
/// returns on a given argument.
pub type Helpers = spec_fn(Seq<char>, Word) -> Word;

/// The unsigned value of `bits` bits that stands for the integer `value`.
pub open spec fn wrap(value: int, bits: nat) -> nat {
    (value % (pow2(bits) as int)) as nat
}

/// The integer that an unsigned value of `bits` bits stands for in two's
/// complement.
pub open spec fn signed(value: nat, bits: nat) -> int {
    if bits > 0 && value >= pow2((bits - 1) as nat) {
        value - pow2(bits)
    } else {
        value as int
    }
}

/// The number that a sequence of decimal digits denotes.
pub open spec fn digits_value(digits: Seq<char>) -> int
    decreases digits.len(),
{
    if digits.len() == 0 {
        0
    } else {
        digits_value(digits.drop_last()) * 10 + (digits.last() as int - '0' as int)
    }
}

/// The integer that a decimal literal denotes.
pub open spec fn literal_value(literal: Seq<char>) -> int {
    if literal.len() > 0 && literal[0] == '-' {
        -digits_value(literal_digits(literal))
    } else {
        digits_value(literal_digits(literal))
    }
}

impl BodyView {
    /// The integer that `operand` stands for when it is read by the
    /// instruction at position `before`.
    pub open spec fn operand(
        self,
        params: Seq<Word>,
        helpers: Helpers,
        operand: Operand,
        before: nat,
    ) -> Word
        decreases before, 0nat,
    {
        match operand {
            Operand::Param(i) => params[i as int],
            Operand::Value(j) => if j < before {
                self.value(params, helpers, j as nat)
            } else {
                Word { bits: 0, value: 0 }
            },
        }
    }

    /// The integer that the instruction at position `index` computes.
    pub open spec fn value(self, params: Seq<Word>, helpers: Helpers, index: nat) -> Word
        decreases index, 1nat,
    {
        match self.insts[index as int] {
            InstView::Const { bits, literal } => Word {
                bits: bits as nat,
                value: wrap(literal_value(literal), bits as nat),
            },
            InstView::Add { lhs, rhs } => {
                let lhs = self.operand(params, helpers, lhs, index);
                let rhs = self.operand(params, helpers, rhs, index);
                Word { bits: lhs.bits, value: wrap((lhs.value + rhs.value) as int, lhs.bits) }
            },
            InstView::Sub { lhs, rhs } => {
                let lhs = self.operand(params, helpers, lhs, index);
                let rhs = self.operand(params, helpers, rhs, index);
                Word { bits: lhs.bits, value: wrap(lhs.value - rhs.value, lhs.bits) }
            },
            InstView::SignExtend { value, bits } => {
                let value = self.operand(params, helpers, value, index);
                Word { bits: bits as nat, value: wrap(signed(value.value, value.bits), bits as nat) }
            },
            InstView::Call { callee, arg } => helpers(
                callee,
                self.operand(params, helpers, arg, index),
            ),
        }
    }

    /// The integer that a function with this body returns on `params`.
    pub open spec fn returned(self, params: Seq<Word>, helpers: Helpers) -> Word {
        self.operand(params, helpers, self.result, self.insts.len())
    }
}

/// Whether the function `name` reduces modulo `prime`: on an integer of
/// `wide_bits` bits it returns, as an integer of `felt_bits` bits, the
/// remainder of the argument, read in two's complement, by `prime`.
pub open spec fn reduces_modulo(
    helpers: Helpers,
    name: Seq<char>,
    wide_bits: nat,
    felt_bits: nat,
    prime: nat,
) -> bool {
    forall|value: nat|
        value < pow2(wide_bits) ==> #[trigger] helpers(name, Word { bits: wide_bits, value })
            == (Word { bits: felt_bits, value: (signed(value, wide_bits) % (prime as int)) as nat })
}

/// The prime of the field of Cairo: `2^251 + 17 * 2^192 + 1`.
pub open spec fn stark_prime() -> nat {
    pow2(251) + 17 * pow2(192) + 1
}

/// The prime of Cairo fits in 253 bits, and in any greater width, with room
/// for a sign. In 252 bits it does not.
pub proof fn lemma_stark_prime_fits(felt_bits: u32)
    ensures
        0 < stark_prime(),
        felt_bits >= 253 ==> stark_prime() <= pow2((felt_bits - 1) as nat),
        felt_bits == 252 ==> stark_prime() > pow2((felt_bits - 1) as nat),
{
    lemma2_to64();
    lemma_pow2_adds(5, 192);
    lemma_pow2_pos(192);
    lemma_pow2_strictly_increases(197, 251);
    lemma_pow2_unfold(252);
    if felt_bits > 253 {
        lemma_pow2_strictly_increases(252, (felt_bits - 1) as nat);
    }
}

/// An integer that fits in `bits` bits in two's complement is the integer
/// that its unsigned value of `bits` bits stands for.
pub proof fn lemma_signed_wrap(value: int, bits: nat)
    requires
        bits >= 1,
        -pow2((bits - 1) as nat) <= value < pow2((bits - 1) as nat),
    ensures
        wrap(value, bits) < pow2(bits),
        signed(wrap(value, bits), bits) == value,
{
    lemma_pow2_unfold(bits);
    lemma_pow2_pos((bits - 1) as nat);
    let modulus = pow2(bits) as int;
    if value >= 0 {
        lemma_fundamental_div_mod_converse(value, modulus, 0, value);
    } else {
        lemma_fundamental_div_mod_converse(value, modulus, -1, value + modulus);
    }
}

/// An integer that fits in `bits` bits in two's complement fits in any
/// greater width.
pub proof fn lemma_signed_range_widens(value: int, bits: nat, wide_bits: nat)
    requires
        1 <= bits <= wide_bits,
        -pow2((bits - 1) as nat) <= value < pow2((bits - 1) as nat),
    ensures
        -pow2((wide_bits - 1) as nat) <= value < pow2((wide_bits - 1) as nat),
{
    if bits < wide_bits {
        lemma_pow2_strictly_increases((bits - 1) as nat, (wide_bits - 1) as nat);
    }
}

/// A constant returns the value of its literal, wrapped to its width.
pub proof fn lemma_constant_returns_literal(bits: u32, literal: Seq<char>, helpers: Helpers)
    ensures
        BodyView::constant(bits, literal).returned(Seq::empty(), helpers) == (Word {
            bits: bits as nat,
            value: wrap(literal_value(literal), bits as nat),
        }),
{
    let body = BodyView::constant(bits, literal);
}

/// A literal without a sign whose value is below `2^bits` is returned as it
/// is: a constant of the field written as `42` is the integer 42.
pub proof fn lemma_constant_of_small_literal(bits: u32, literal: Seq<char>, helpers: Helpers)
    requires
        0 <= literal_value(literal) < pow2(bits as nat),
    ensures
        BodyView::constant(bits, literal).returned(Seq::empty(), helpers).value == literal_value(
            literal,
        ),
{
    lemma_constant_returns_literal(bits, literal, helpers);
    lemma_fundamental_div_mod_converse(
        literal_value(literal),
        pow2(bits as nat) as int,
        0,
        literal_value(literal),
    );
}

/// The sum of the ends of a list of parameters is the sum of the first and
/// the last, wrapped to the width of the first.
pub proof fn lemma_sum_of_ends_adds(params: Seq<Word>, helpers: Helpers)
    requires
        params.len() >= 1,
        params.len() <= usize::MAX,
    ensures
        BodyView::sum_of_ends(params.len()).returned(params, helpers) == (Word {
            bits: params[0].bits,
            value: wrap((params[0].value + params.last().value) as int, params[0].bits),
        }),
{
    let body = BodyView::sum_of_ends(params.len());
    assert(body.returned(params, helpers) == body.value(params, helpers, 0));
    assert(body.operand(params, helpers, Operand::Param((params.len() - 1) as usize), 0)
        == params.last());
}

/// Subtraction in the field. Let `prime` fit in `felt_bits` bits with room
/// for a sign, let the wide width be no smaller than that of the field
/// element, and let the function `reduce` of the module reduce modulo
/// `prime`. Then on two elements `a` and `b` of the field, the body of a
/// reduced difference returns the element `(a - b) mod prime`: never a
/// negative number, nor one that wrapped around.
pub proof fn lemma_difference_reduced_is_field_subtraction(
    felt_bits: u32,
    wide_bits: u32,
    prime: nat,
    reduce: Seq<char>,
    helpers: Helpers,
    a: nat,
    b: nat,
)
    requires
        1 <= felt_bits <= wide_bits,
        0 < prime <= pow2((felt_bits - 1) as nat),
        reduces_modulo(helpers, reduce, wide_bits as nat, felt_bits as nat, prime),
        a < prime,
        b < prime,
    ensures
        BodyView::difference_reduced(wide_bits, reduce).returned(
            seq![
                Word { bits: felt_bits as nat, value: a },
                Word { bits: felt_bits as nat, value: b },
            ],
            helpers,
        ) == (Word { bits: felt_bits as nat, value: ((a - b) % (prime as int)) as nat }),
{
    let body = BodyView::difference_reduced(wide_bits, reduce);
    let params = seq![
        Word { bits: felt_bits as nat, value: a },
        Word { bits: felt_bits as nat, value: b },
    ];
    let narrow = felt_bits as nat;
    let wide = wide_bits as nat;
    let difference = body.value(params, helpers, 0);
    assert(difference == Word { bits: narrow, value: wrap(a - b, narrow) });
    lemma_signed_wrap(a - b, narrow);
    let extended = body.value(params, helpers, 1);
    assert(extended == Word { bits: wide, value: wrap(a - b, wide) });
    lemma_signed_range_widens(a - b, narrow, wide);
    lemma_signed_wrap(a - b, wide);
    let reduced = body.value(params, helpers, 2);
    assert(reduced == helpers(reduce, extended));
}

/// Subtraction in the field of Cairo. Let the function `modulo` of the
/// module reduce modulo the prime of Cairo. Then on two elements `a` and `b`
/// of the field, each an integer of `FELT_BITS` bits, the function that
/// `felt_sub` emits returns the element `(a - b) mod prime`.
pub proof fn lemma_felt_sub_subtracts_in_the_field(helpers: Helpers, a: nat, b: nat)
    requires
        reduces_modulo(helpers, modulo_name(), WIDE_BITS as nat, FELT_BITS as nat, stark_prime()),
        a < stark_prime(),
        b < stark_prime(),
    ensures
        BodyView::difference_reduced(WIDE_BITS, modulo_name()).returned(
            seq![
                Word { bits: FELT_BITS as nat, value: a },
                Word { bits: FELT_BITS as nat, value: b },
            ],
            helpers,
        ) == (Word { bits: FELT_BITS as nat, value: ((a - b) % (stark_prime() as int)) as nat }),
{
    lemma_stark_prime_fits(FELT_BITS);
    lemma_difference_reduced_is_field_subtraction(
        FELT_BITS,
        WIDE_BITS,
        stark_prime(),
        modulo_name(),
        helpers,
        a,
        b,
    );
}

} // verus!
