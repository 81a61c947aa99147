use super::Type;
use crate::command::{template, Command, Op, Operation};
use crate::eval::{Eval, WithCore};
use crate::numeral::{
    immediate_value, int_text, int_to_text, lemma_immediate_round_trip, parse_immediate,
};
use crate::processor::{anonymous_step, auto_name, named_step, Processor, VariableIdx};
use crate::reference::Ref;
use crate::string::String;
use vstd::prelude::*;

verus! {

/// A number operand: an immediate known while the program is built, or a variable.
#[derive(Debug)]
pub enum Number {
    Immediate(i64),
    Variable(String),
}

impl View for Number {
    type V = Seq<char>;

    open spec fn view(&self) -> Seq<char> {
        match self {
            Number::Immediate(n) => int_text(*n as int),
            Number::Variable(s) => s@,
        }
    }
}

impl Type for Number {
    fn from_name(name: String) -> (r: Self) {
        Number::read(name)
    }

    fn into_name(self) -> (r: String) {
        match self {
            Number::Immediate(n) => String::Owned(int_to_text(n)),
            Number::Variable(s) => s,
        }
    }
}

impl WithCore for Number {
    open spec fn core_spec(&self) -> Option<u64> {
        None
    }

    fn core_id(&self) -> (r: Option<u64>) {
        None
    }
}

impl Eval<Number> for Number {
    open spec fn ready(&self, p: &Processor) -> bool {
        true
    }

    open spec fn text(&self, p: &Processor) -> Seq<char> {
        self@
    }

    fn eval(self, p: &Processor) -> (r: Number) {
        self
    }
}

impl Eval<String> for Number {
    open spec fn ready(&self, p: &Processor) -> bool {
        true
    }

    open spec fn text(&self, p: &Processor) -> Seq<char> {
        self@
    }

    fn eval(self, p: &Processor) -> (r: String) {
        self.into_name()
    }
}

impl WithCore for i64 {
    open spec fn core_spec(&self) -> Option<u64> {
        None
    }

    fn core_id(&self) -> (r: Option<u64>) {
        None
    }
}

impl Eval<Number> for i64 {
    open spec fn ready(&self, p: &Processor) -> bool {
        true
    }

    open spec fn text(&self, p: &Processor) -> Seq<char> {
        int_text(*self as int)
    }

    fn eval(self, p: &Processor) -> (r: Number) {
        Number::Immediate(self)
    }
}

impl WithCore for i32 {
    open spec fn core_spec(&self) -> Option<u64> {
        None
    }

    fn core_id(&self) -> (r: Option<u64>) {
        None
    }
}

impl Eval<Number> for i32 {
    open spec fn ready(&self, p: &Processor) -> bool {
        true
    }

    open spec fn text(&self, p: &Processor) -> Seq<char> {
        int_text(*self as int)
    }

    fn eval(self, p: &Processor) -> (r: Number) {
        Number::Immediate(self as i64)
    }
}

impl WithCore for u32 {
    open spec fn core_spec(&self) -> Option<u64> {
        None
    }

    fn core_id(&self) -> (r: Option<u64>) {
        None
    }
}

impl Eval<Number> for u32 {
    open spec fn ready(&self, p: &Processor) -> bool {
        true
    }

    open spec fn text(&self, p: &Processor) -> Seq<char> {
        int_text(*self as int)
    }

    fn eval(self, p: &Processor) -> (r: Number) {
        Number::Immediate(self as i64)
    }
}

impl WithCore for bool {
    open spec fn core_spec(&self) -> Option<u64> {
        None
    }

    fn core_id(&self) -> (r: Option<u64>) {
        None
    }
}

/// `false` is 0 and `true` is 1.
impl Eval<Number> for bool {
    open spec fn ready(&self, p: &Processor) -> bool {
        true
    }

    open spec fn text(&self, p: &Processor) -> Seq<char> {
        int_text(if *self { 1 } else { 0 })
    }

    fn eval(self, p: &Processor) -> (r: Number) {
        Number::Immediate(if self { 1 } else { 0 })
    }
}

/// `|a|`
pub open spec fn magnitude(a: int) -> int {
    if a < 0 {
        -a
    } else {
        a
    }
}

/// The quotient of `a` by `b` (`b != 0`) rounded toward zero.
pub open spec fn trunc_div(a: int, b: int) -> int {
    if (a < 0) == (b < 0) {
        magnitude(a) / magnitude(b)
    } else {
        -(magnitude(a) / magnitude(b))
    }
}

/// The remainder of `a` by `b` (`b != 0`) that has the sign of `a`: `a - b * trunc_div(a, b)`.
pub open spec fn trunc_rem(a: int, b: int) -> int {
    if a < 0 {
        -(magnitude(a) % magnitude(b))
    } else {
        magnitude(a) % magnitude(b)
    }
}

/// The value of `a op b` when it is an integer that fits in `i64`, as host arithmetic gives
/// it: a quotient exists when the divisor is not zero and the division is exact, a remainder
/// when the divisor is not zero.
pub open spec fn fold(op: Op, a: int, b: int) -> Option<int> {
    let v = match op {
        Op::Add => Some(a + b),
        Op::Sub => Some(a - b),
        Op::Mul => Some(a * b),
        Op::Div | Op::IDiv => if b != 0 && trunc_rem(a, b) == 0 {
            Some(trunc_div(a, b))
        } else {
            None
        },
        Op::Rem => if b != 0 {
            Some(trunc_rem(a, b))
        } else {
            None
        },
    };
    match v {
        Some(x) => if i64::MIN <= x <= i64::MAX {
            Some(x)
        } else {
            None
        },
        None => None,
    }
}

/// The operand text after normalisation: a numeric literal is written canonically.
pub open spec fn operand_text(s: Seq<char>) -> Seq<char> {
    match immediate_value(s) {
        Some(v) => int_text(v),
        None => s,
    }
}

/// The value of `lhs op rhs` when both operands are immediates and the result folds.
pub open spec fn folded(op: Op, lhs: Seq<char>, rhs: Seq<char>) -> Option<int> {
    match (immediate_value(lhs), immediate_value(rhs)) {
        (Some(a), Some(b)) => fold(op, a, b),
        _ => None,
    }
}

/// What applying `op` to operands with texts `lhs` and `rhs` does to a processor, going
/// from `prev` to `next`, with `r` the reference returned: a folded result is declared as a
/// variable named by its value and no instruction is added; otherwise a fresh variable
/// receives the result of one `op` instruction.
pub open spec fn arithmetic_step(
    prev: Processor,
    next: Processor,
    op: Op,
    lhs: Seq<char>,
    rhs: Seq<char>,
    r: Ref<Number>,
) -> bool {
    &&& next.id() == prev.id()
    &&& r.core == prev.id()
    &&& r.idx == VariableIdx::Allocated(prev.names().len() as usize)
    &&& next.owns(r)
    &&& next.lines().len() >= prev.lines().len()
    &&& match folded(op, lhs, rhs) {
        Some(v) => {
            &&& named_step(prev, next, int_text(v))
            &&& next.names() == prev.names().push(int_text(v))
            &&& next.name_of(r.idx) == int_text(v)
            &&& next.lines() == prev.lines()
            &&& next.counter_value() == prev.counter_value()
        },
        None => {
            let result = auto_name(prev.counter_value());
            &&& anonymous_step(prev, next)
            &&& next.names() == prev.names().push(result)
            &&& next.name_of(r.idx) == result
            &&& next.lines() == prev.lines().push(
                template(
                    seq!["op"@, op.name(), result, operand_text(lhs), operand_text(rhs)],
                    0,
                ),
            )
            &&& next.counter_value() == prev.counter_value() + 1
        },
    }
}

fn fold_immediates(op: Op, a: i64, b: i64) -> (r: Option<i64>)
    ensures
        r matches Some(v) ==> fold(op, a as int, b as int) == Some(v as int),
        r is None ==> fold(op, a as int, b as int) is None,
{
    proof {
        if b != 0 {
            let m = magnitude(b as int);
            assert(0int % m == 0 && 0int / m == 0) by (nonlinear_arith)
                requires
                    m > 0,
            ;
            assert(magnitude(a as int) % 1 == 0 && magnitude(a as int) / 1 == magnitude(a as int));
        }
    }
    match op {
        Op::Add => a.checked_add(b),
        Op::Sub => a.checked_sub(b),
        Op::Mul => a.checked_mul(b),
        Op::Div | Op::IDiv => {
            if b == 0 {
                None
            } else if b == -1 {
                if a == i64::MIN {
                    None
                } else {
                    Some(-a)
                }
            } else if a.checked_rem(b) == Some(0i64) {
                a.checked_div(b)
            } else {
                None
            }
        },
        Op::Rem => {
            if b == 0 {
                None
            } else if b == -1 {
                Some(0)
            } else {
                a.checked_rem(b)
            }
        },
    }
}

/// The immediate that `s` spells in canonical form (no leading zeros, no `-0`, no `+`).
pub open spec fn canonical_immediate(s: Seq<char>) -> Option<int> {
    match immediate_value(s) {
        Some(v) => if int_text(v) == s {
            Some(v)
        } else {
            None
        },
        None => None,
    }
}

/// The canonical spelling of an `i64` reads back as that integer.
pub proof fn lemma_canonical_round_trip(v: i64)
    ensures
        canonical_immediate(int_text(v as int)) == Some(v as int),
{
    lemma_immediate_round_trip(v);
}

impl Number {
    /// The number held by a variable called `name`: an immediate when `name` is the canonical
    /// spelling of one, the variable itself otherwise. The text is kept either way.
    pub fn read(name: String) -> (r: Number)
        ensures
            r@ == name@,
            r is Immediate <==> canonical_immediate(name@) is Some,
            r matches Number::Immediate(v) ==> canonical_immediate(name@) == Some(v as int),
    {
        match parse_immediate(name.as_str()) {
            Some(v) => {
                let text = int_to_text(v);
                if text == name.to_string() {
                    Number::Immediate(v)
                } else {
                    Number::Variable(name)
                }
            },
            None => Number::Variable(name),
        }
    }

    /// Reclassifies a variable whose name is a numeric literal as an immediate.
    pub fn normalize(self) -> (r: Number)
        ensures
            r@ == operand_text(self@),
            r is Immediate <==> immediate_value(self@) is Some,
            r matches Number::Immediate(v) ==> immediate_value(self@) == Some(v as int),
    {
        match self {
            Number::Immediate(v) => {
                proof { lemma_immediate_round_trip(v); }
                Number::Immediate(v)
            },
            Number::Variable(s) => match parse_immediate(s.as_str()) {
                Some(v) => {
                    proof { lemma_immediate_round_trip(v); }
                    Number::Immediate(v)
                },
                None => Number::Variable(s),
            },
        }
    }
}

proof fn lemma_folded_name(
    prev: Processor,
    next: Processor,
    op: Op,
    lhs: Seq<char>,
    rhs: Seq<char>,
    r: Ref<Number>,
    v: int,
)
    requires
        arithmetic_step(prev, next, op, lhs, rhs, r),
        folded(op, lhs, rhs) == Some(v),
    ensures
        next.name_of(r.idx) == int_text(v),
        immediate_value(next.name_of(r.idx)) == Some(v),
        next.lines() == prev.lines(),
{
    lemma_immediate_round_trip(v as i64);
}

/// Adding two immediates in turn to a variable whose name is an immediate adds no
/// instruction, and the variable declared last is named by the sum.
pub proof fn lemma_constant_folding(
    before: Processor,
    between: Processor,
    after: Processor,
    x: Ref<Number>,
    r1: Ref<Number>,
    r2: Ref<Number>,
    a: int,
    b: i64,
    c: i64,
)
    requires
        immediate_value(before.name_of(x.idx)) == Some(a),
        i64::MIN <= a + b <= i64::MAX,
        i64::MIN <= a + b + c <= i64::MAX,
        arithmetic_step(before, between, Op::Add, before.name_of(x.idx), int_text(b as int), r1),
        arithmetic_step(between, after, Op::Add, between.name_of(r1.idx), int_text(c as int), r2),
    ensures
        after.lines() == before.lines(),
        immediate_value(after.name_of(r2.idx)) == Some(a + b + c),
        canonical_immediate(after.name_of(r2.idx)) == Some(a + b + c),
        after.name_of(r2.idx) == int_text(a + b + c),
{
    lemma_immediate_round_trip(b);
    lemma_immediate_round_trip(c);
    let (lhs0, rhs0) = (before.name_of(x.idx), int_text(b as int));
    lemma_folded_name(before, between, Op::Add, lhs0, rhs0, r1, a + b);
    let (lhs1, rhs1) = (between.name_of(r1.idx), int_text(c as int));
    lemma_folded_name(between, after, Op::Add, lhs1, rhs1, r2, a + b + c);
    lemma_canonical_round_trip((a + b + c) as i64);
}

/// When an operand is not an immediate, the operation adds exactly one instruction.
pub proof fn lemma_symbolic_operation(
    prev: Processor,
    next: Processor,
    op: Op,
    lhs: Seq<char>,
    rhs: Seq<char>,
    r: Ref<Number>,
)
    requires
        arithmetic_step(prev, next, op, lhs, rhs, r),
        immediate_value(lhs) is None || immediate_value(rhs) is None,
    ensures
        next.lines().len() == prev.lines().len() + 1,
        next.lines().drop_last() == prev.lines(),
{
    assert(next.lines().drop_last() =~= prev.lines());
}

impl Ref<Number> {
    /// The number the variable holds, read as `Number::read` reads its name.
    pub fn read(&self, p: &Processor) -> (r: Number)
        requires
            p.owns(*self),
        ensures
            r@ == p.name_of(self.idx),
            r is Immediate <==> canonical_immediate(p.name_of(self.idx)) is Some,
            r matches Number::Immediate(v) ==> canonical_immediate(p.name_of(self.idx)) == Some(
                v as int,
            ),
    {
        Number::read(p.get_variable(self.idx))
    }

    fn operate<N: Eval<Number>>(self, p: &mut Processor, op: Op, rhs: N) -> (r: Ref<Number>)
        requires
            old(p).owns(self),
            rhs.ready(old(p)),
            old(p).counter_value() < usize::MAX,
        ensures
            arithmetic_step(*old(p), *final(p), op, old(p).name_of(self.idx), rhs.text(old(p)), r),
    {
        let lhs: Number = self.eval(p);
        let lhs = lhs.normalize();
        let rhs = rhs.eval(p).normalize();
        if let Number::Immediate(a) = lhs {
            if let Number::Immediate(b) = rhs {
                if let Some(v) = fold_immediates(op, a, b) {
                    let idx = p.new_variable(String::Owned(int_to_text(v)));
                    return p.make_ref(idx);
                }
            }
        }
        let result = p.new_unnamed::<Number>();
        let name = p.get_variable(result.idx);
        let command = Operation::Binary {
            op,
            result: name,
            lhs: lhs.into_name(),
            rhs: rhs.into_name(),
        };
        p.push_command(Command::Operation(command));
        result
    }

    fn operate_assign<N: Eval<Number>>(&self, p: &mut Processor, op: Op, rhs: N)
        requires
            old(p).owns(*self),
            rhs.ready(old(p)),
        ensures
            final(p).appended(
                *old(p),
                template(
                    seq![
                        "op"@,
                        op.name(),
                        old(p).name_of(self.idx),
                        old(p).name_of(self.idx),
                        rhs.text(old(p)),
                    ],
                    0,
                ),
            ),
    {
        let lhs = p.get_variable(self.idx);
        let rhs = rhs.eval(p).into_name();
        let command = Operation::Binary { op, result: lhs.clone(), lhs, rhs };
        p.push_command(Command::Operation(command));
    }

    /// The sum of this number and `rhs`, folded when both are immediates.
    pub fn add<N: Eval<Number>>(self, p: &mut Processor, rhs: N) -> (r: Ref<Number>)
        requires
            old(p).owns(self),
            rhs.ready(old(p)),
            old(p).counter_value() < usize::MAX,
        ensures
            arithmetic_step(
                *old(p),
                *final(p),
                Op::Add,
                old(p).name_of(self.idx),
                rhs.text(old(p)),
                r,
            ),
    {
        self.operate(p, Op::Add, rhs)
    }

    /// The difference of this number and `rhs`, folded when both are immediates.
    pub fn sub<N: Eval<Number>>(self, p: &mut Processor, rhs: N) -> (r: Ref<Number>)
        requires
            old(p).owns(self),
            rhs.ready(old(p)),
            old(p).counter_value() < usize::MAX,
        ensures
            arithmetic_step(
                *old(p),
                *final(p),
                Op::Sub,
                old(p).name_of(self.idx),
                rhs.text(old(p)),
                r,
            ),
    {
        self.operate(p, Op::Sub, rhs)
    }

    /// The product of this number and `rhs`, folded when both are immediates.
    pub fn mul<N: Eval<Number>>(self, p: &mut Processor, rhs: N) -> (r: Ref<Number>)
        requires
            old(p).owns(self),
            rhs.ready(old(p)),
            old(p).counter_value() < usize::MAX,
        ensures
            arithmetic_step(
                *old(p),
                *final(p),
                Op::Mul,
                old(p).name_of(self.idx),
                rhs.text(old(p)),
                r,
            ),
    {
        self.operate(p, Op::Mul, rhs)
    }

    /// The quotient of this number and `rhs`, folded when both are immediates.
    pub fn div<N: Eval<Number>>(self, p: &mut Processor, rhs: N) -> (r: Ref<Number>)
        requires
            old(p).owns(self),
            rhs.ready(old(p)),
            old(p).counter_value() < usize::MAX,
        ensures
            arithmetic_step(
                *old(p),
                *final(p),
                Op::Div,
                old(p).name_of(self.idx),
                rhs.text(old(p)),
                r,
            ),
    {
        self.operate(p, Op::Div, rhs)
    }

    /// The remainder of this number and `rhs`, folded when both are immediates.
    pub fn rem<N: Eval<Number>>(self, p: &mut Processor, rhs: N) -> (r: Ref<Number>)
        requires
            old(p).owns(self),
            rhs.ready(old(p)),
            old(p).counter_value() < usize::MAX,
        ensures
            arithmetic_step(
                *old(p),
                *final(p),
                Op::Rem,
                old(p).name_of(self.idx),
                rhs.text(old(p)),
                r,
            ),
    {
        self.operate(p, Op::Rem, rhs)
    }

    /// Replaces this variable by the sum of it and `rhs`; never folded.
    pub fn add_assign<N: Eval<Number>>(&self, p: &mut Processor, rhs: N)
        requires
            old(p).owns(*self),
            rhs.ready(old(p)),
        ensures
            final(p).appended(
                *old(p),
                template(
                    seq![
                        "op"@,
                        "add"@,
                        old(p).name_of(self.idx),
                        old(p).name_of(self.idx),
                        rhs.text(old(p)),
                    ],
                    0,
                ),
            ),
    {
        self.operate_assign(p, Op::Add, rhs)
    }

    /// Replaces this variable by the difference of it and `rhs`; never folded.
    pub fn sub_assign<N: Eval<Number>>(&self, p: &mut Processor, rhs: N)
        requires
            old(p).owns(*self),
            rhs.ready(old(p)),
        ensures
            final(p).appended(
                *old(p),
                template(
                    seq![
                        "op"@,
                        "sub"@,
                        old(p).name_of(self.idx),
                        old(p).name_of(self.idx),
                        rhs.text(old(p)),
                    ],
                    0,
                ),
            ),
    {
        self.operate_assign(p, Op::Sub, rhs)
    }

    /// Replaces this variable by the product of it and `rhs`; never folded.
    pub fn mul_assign<N: Eval<Number>>(&self, p: &mut Processor, rhs: N)
        requires
            old(p).owns(*self),
            rhs.ready(old(p)),
        ensures
            final(p).appended(
                *old(p),
                template(
                    seq![
                        "op"@,
                        "mul"@,
                        old(p).name_of(self.idx),
                        old(p).name_of(self.idx),
                        rhs.text(old(p)),
                    ],
                    0,
                ),
            ),
    {
        self.operate_assign(p, Op::Mul, rhs)
    }

    /// Replaces this variable by the quotient of it and `rhs`; never folded.
    pub fn div_assign<N: Eval<Number>>(&self, p: &mut Processor, rhs: N)
        requires
            old(p).owns(*self),
            rhs.ready(old(p)),
        ensures
            final(p).appended(
                *old(p),
                template(
                    seq![
                        "op"@,
                        "div"@,
                        old(p).name_of(self.idx),
                        old(p).name_of(self.idx),
                        rhs.text(old(p)),
                    ],
                    0,
                ),
            ),
    {
        self.operate_assign(p, Op::Div, rhs)
    }

    /// Replaces this variable by the remainder of it and `rhs`; never folded.
    pub fn rem_assign<N: Eval<Number>>(&self, p: &mut Processor, rhs: N)
        requires
            old(p).owns(*self),
            rhs.ready(old(p)),
        ensures
            final(p).appended(
                *old(p),
                template(
                    seq![
                        "op"@,
                        "rem"@,
                        old(p).name_of(self.idx),
                        old(p).name_of(self.idx),
                        rhs.text(old(p)),
                    ],
                    0,
                ),
            ),
    {
        self.operate_assign(p, Op::Rem, rhs)
    }
}

} // verus!
