use crate::command::{template, Command, UnitBind};
use crate::eval::{Eval, WithCore};
use crate::numeral::{nat_text, push_nat};
use crate::reference::Ref;
use crate::string::String;
use crate::types::number::Number;
use crate::types::unit::{Unit, Units};
use crate::types::Type;
use std::marker::PhantomData;
use vstd::prelude::*;

verus! {

/// A built-in register of the processor, with its fixed spelling.
#[derive(Debug, Clone, Copy, PartialEq, Eq, Structural, Hash)]
pub enum Register {
    Unit,
    Count,
    ThisX,
    ThisY,
    Counter,
    Links,
    Ipt,
    Tick,
    Time,
    MapW,
    MapH,
}

impl Register {
    pub open spec fn spelling(&self) -> Seq<char> {
        match self {
            Register::Unit => "@unit"@,
            Register::Count => "@count"@,
            Register::ThisX => "@thisx"@,
            Register::ThisY => "@thisy"@,
            Register::Counter => "@counter"@,
            Register::Links => "@links"@,
            Register::Ipt => "@ipt"@,
            Register::Tick => "@tick"@,
            Register::Time => "@time"@,
            Register::MapW => "@mapw"@,
            Register::MapH => "@maph"@,
        }
    }

    pub fn name(&self) -> (r: &'static str)
        ensures
            r@ == self.spelling(),
    {
        match self {
            Register::Unit => "@unit",
            Register::Count => "@count",
            Register::ThisX => "@thisx",
            Register::ThisY => "@thisy",
            Register::Counter => "@counter",
            Register::Links => "@links",
            Register::Ipt => "@ipt",
            Register::Tick => "@tick",
            Register::Time => "@time",
            Register::MapW => "@mapw",
            Register::MapH => "@maph",
        }
    }
}

/// Identifies a variable: a built-in register, or the position of a declared variable in
/// the symbol table. The two kinds never coincide.
#[derive(Debug, Clone, Copy, PartialEq, Eq, Structural, Hash)]
pub enum VariableIdx {
    Reserved(Register),
    Allocated(usize),
}

/// A position in the symbol table.
impl From<usize> for VariableIdx {
    fn from(idx: usize) -> VariableIdx {
        VariableIdx::Allocated(idx)
    }
}

impl vstd::std_specs::convert::FromSpecImpl<usize> for VariableIdx {
    open spec fn obeys_from_spec() -> bool {
        true
    }

    open spec fn from_spec(idx: usize) -> VariableIdx {
        VariableIdx::Allocated(idx)
    }
}

/// The name generated for the `n`th anonymous variable: `v` and `n` in decimal.
pub open spec fn auto_name(n: nat) -> Seq<char> {
    seq!['v'] + nat_text(n)
}

/// The program text: each line followed by a line break, in order.
pub open spec fn program_text(lines: Seq<Seq<char>>) -> Seq<char>
    decreases lines.len(),
{
    if lines.len() == 0 {
        seq![]
    } else {
        program_text(lines.drop_last()) + lines.last() + seq!['\n']
    }
}

/// A straight sequence of instructions.
#[derive(Debug)]
pub struct Block {
    pub commands: Vec<Command>,
}

impl Block {
    pub open spec fn lines(&self) -> Seq<Seq<char>> {
        self.commands@.map_values(|c: Command| c.line())
    }
}

/// The state of a program under construction: the instructions and the symbol table.
#[derive(Debug)]
pub struct RawProcessor {
    pub main: Block,
    pub appends: Vec<Block>,
    pub variables: Vec<String>,
    pub alloc: usize,
}

impl RawProcessor {
    /// The declared names, in order of declaration.
    pub open spec fn names(&self) -> Seq<Seq<char>> {
        self.variables@.map_values(|s: String| s@)
    }

    pub open spec fn lines(&self) -> Seq<Seq<char>> {
        self.main.lines()
    }

    pub open spec fn valid(&self, idx: VariableIdx) -> bool {
        match idx {
            VariableIdx::Reserved(_) => true,
            VariableIdx::Allocated(i) => i < self.names().len(),
        }
    }

    /// The name `idx` stands for.
    pub open spec fn name_of(&self, idx: VariableIdx) -> Seq<char> {
        match idx {
            VariableIdx::Reserved(r) => r.spelling(),
            VariableIdx::Allocated(i) => self.names()[i as int],
        }
    }

    pub fn new() -> (r: RawProcessor)
        ensures
            r.lines().len() == 0,
            r.names().len() == 0,
            r.alloc == 0,
            r.appends@.len() == 0,
    {
        RawProcessor {
            main: Block { commands: Vec::new() },
            appends: Vec::new(),
            variables: Vec::new(),
            alloc: 0,
        }
    }

    /// Generates the next anonymous name, `v` followed by the counter, and advances the counter.
    pub fn alloc_name(&mut self) -> (r: String)
        requires
            old(self).alloc < usize::MAX,
        ensures
            r@ == auto_name(old(self).alloc as nat),
            final(self).alloc == old(self).alloc + 1,
            final(self).variables == old(self).variables,
            final(self).main == old(self).main,
            final(self).appends == old(self).appends,
    {
        let idx = self.alloc;
        self.alloc = self.alloc + 1;
        let mut name = std::string::String::new();
        proof { reveal_strlit("v"); }
        name.append("v");
        push_nat(&mut name, idx as u64);
        assert(name@ =~= auto_name(idx as nat));
        String::Owned(name)
    }

    /// Declares a variable called `name`.
    pub fn new_variable(&mut self, name: String) -> (r: VariableIdx)
        ensures
            r == VariableIdx::Allocated(old(self).variables@.len() as usize),
            final(self).variables@ == old(self).variables@.push(name),
            final(self).names() == old(self).names().push(name@),
            final(self).alloc == old(self).alloc,
            final(self).main == old(self).main,
            final(self).appends == old(self).appends,
    {
        let idx = self.variables.len();
        self.variables.push(name);
        assert(self.names() =~= old(self).names().push(name@));
        VariableIdx::Allocated(idx)
    }

    /// Appends an instruction to the main block.
    pub fn push_command(&mut self, command: Command)
        ensures
            final(self).main.commands@ == old(self).main.commands@.push(command),
            final(self).lines() == old(self).lines().push(command.line()),
            final(self).variables == old(self).variables,
            final(self).alloc == old(self).alloc,
            final(self).appends == old(self).appends,
    {
        self.main.commands.push(command);
        assert(self.lines() =~= old(self).lines().push(command.line()));
    }

    /// The program text of the main block.
    pub fn generate(&self) -> (r: std::string::String)
        ensures
            r@ == program_text(self.lines()),
    {
        let mut out = std::string::String::new();
        let ghost lines = self.lines();
        let mut i: usize = 0;
        while i < self.main.commands.len()
            invariant
                0 <= i <= self.main.commands@.len(),
                lines == self.lines(),
                out@ == program_text(lines.take(i as int)),
            decreases self.main.commands@.len() - i,
        {
            let line = self.main.commands[i].render();
            out.append(line.as_str());
            proof { reveal_strlit("\n"); }
            out.append("\n");
            assert(lines.take(i + 1).drop_last() =~= lines.take(i as int));
            i = i + 1;
        }
        assert(lines.take(i as int) =~= lines);
        out
    }

    /// The name `idx` stands for.
    pub fn get_variable(&self, idx: VariableIdx) -> (r: String)
        requires
            self.valid(idx),
        ensures
            r@ == self.name_of(idx),
    {
        match idx {
            VariableIdx::Reserved(reg) => String::Static(reg.name()),
            VariableIdx::Allocated(i) => self.variables[i].clone(),
        }
    }
}

/// A program under construction.
///
/// References handed out by a processor carry its `id`; an operation accepts only references
/// that carry the id of the processor it is applied to. The id is fixed at construction and
/// cannot be read or changed from outside.
#[derive(Debug)]
pub struct Processor {
    id: u64,
    inner: RawProcessor,
}

impl Processor {
    /// The id that the references handed out by this processor carry.
    pub closed spec fn id(&self) -> u64 {
        self.id
    }

    /// The program and the symbol table.
    pub closed spec fn raw(&self) -> RawProcessor {
        self.inner
    }

    pub open spec fn lines(&self) -> Seq<Seq<char>> {
        self.raw().lines()
    }

    pub open spec fn names(&self) -> Seq<Seq<char>> {
        self.raw().names()
    }

    pub open spec fn name_of(&self, idx: VariableIdx) -> Seq<char> {
        self.raw().name_of(idx)
    }

    pub open spec fn valid(&self, idx: VariableIdx) -> bool {
        self.raw().valid(idx)
    }

    /// How many names have been generated so far.
    pub open spec fn counter_value(&self) -> nat {
        self.raw().alloc as nat
    }

    /// Whether `r` was handed out by this processor.
    pub open spec fn owns<T>(&self, r: Ref<T>) -> bool {
        r.core == self.id() && self.valid(r.idx)
    }

    /// No instruction and no variable yet.
    pub open spec fn is_fresh(&self) -> bool {
        &&& self.lines().len() == 0
        &&& self.names().len() == 0
        &&& self.counter_value() == 0
        &&& self.raw().appends@.len() == 0
    }

    /// `self` is `prev` with `line` appended to the program and nothing else changed.
    pub open spec fn appended(&self, prev: Processor, line: Seq<char>) -> bool {
        &&& self.id() == prev.id()
        &&& self.lines() == prev.lines().push(line)
        &&& self.names() == prev.names()
        &&& self.counter_value() == prev.counter_value()
        &&& self.raw().appends == prev.raw().appends
    }

    /// `self` is `prev` with one variable called `name` declared; the program is unchanged.
    pub open spec fn declared(&self, prev: Processor, name: Seq<char>) -> bool {
        &&& self.id() == prev.id()
        &&& self.names() == prev.names().push(name)
        &&& self.lines() == prev.lines()
        &&& self.raw().appends == prev.raw().appends
    }

    /// A fresh processor whose references carry `id`.
    ///
    /// Two processors alive at the same time must be given distinct ids: that is what tells
    /// their references apart.
    pub fn with_id(id: u64) -> (r: Processor)
        ensures
            r.id() == id,
            r.is_fresh(),
    {
        Processor { id, inner: RawProcessor::new() }
    }

    pub fn borrow(&self) -> (r: &RawProcessor)
        ensures
            *r == self.raw(),
    {
        &self.inner
    }

    pub fn make_ref<T: Type>(&self, idx: VariableIdx) -> (r: Ref<T>)
        ensures
            r.core == self.id(),
            r.idx == idx,
    {
        Ref { core: self.id, idx, _type: PhantomData }
    }

    /// The name `idx` stands for.
    pub fn get_variable(&self, idx: VariableIdx) -> (r: String)
        requires
            self.valid(idx),
        ensures
            r@ == self.name_of(idx),
    {
        self.inner.get_variable(idx)
    }

    /// Generates the next anonymous name, `v` followed by the counter, and advances the counter.
    pub fn alloc_name(&mut self) -> (r: String)
        requires
            old(self).counter_value() < usize::MAX,
        ensures
            r@ == auto_name(old(self).counter_value()),
            final(self).id() == old(self).id(),
            final(self).counter_value() == old(self).counter_value() + 1,
            final(self).names() == old(self).names(),
            final(self).lines() == old(self).lines(),
            final(self).raw().appends == old(self).raw().appends,
    {
        self.inner.alloc_name()
    }

    /// Declares a variable called `name` and returns its identifier.
    pub fn new_variable(&mut self, name: String) -> (r: VariableIdx)
        ensures
            final(self).declared(*old(self), name@),
            final(self).counter_value() == old(self).counter_value(),
            r == VariableIdx::Allocated(old(self).names().len() as usize),
            final(self).valid(r),
            final(self).name_of(r) == name@,
    {
        let n = self.inner.variables.len();
        let idx = self.inner.new_variable(name);
        proof {
            assert(self.names()[n as int] == self.inner.variables@[n as int]@);
        }
        idx
    }

    /// Declares a variable with a generated name (`v0`, `v1`, ...).
    pub fn new_unnamed<T: Type>(&mut self) -> (r: Ref<T>)
        requires
            old(self).counter_value() < usize::MAX,
        ensures
            anonymous_step(*old(self), *final(self)),
            final(self).declared(*old(self), auto_name(old(self).counter_value())),
            final(self).name_of(r.idx) == auto_name(old(self).counter_value()),
            r.core == old(self).id(),
            r.idx == VariableIdx::Allocated(old(self).names().len() as usize),
            final(self).owns(r),
    {
        let temp_name = self.alloc_name();
        let idx = self.new_variable(temp_name);
        self.make_ref(idx)
    }

    /// Declares a variable called `name`.
    pub fn new_uninit<T: Type, S: Eval<String>>(&mut self, name: S) -> (r: Ref<T>)
        requires
            name.ready(old(self)),
        ensures
            named_step(*old(self), *final(self), name.text(old(self))),
            final(self).declared(*old(self), name.text(old(self))),
            final(self).name_of(r.idx) == name.text(old(self)),
            r.core == old(self).id(),
            r.idx == VariableIdx::Allocated(old(self).names().len() as usize),
            final(self).owns(r),
    {
        let name = name.eval(self);
        let idx = self.new_variable(name);
        self.make_ref(idx)
    }

    /// Declares a variable for a value that the program gets from outside, called `name`.
    pub fn from_mdt<T: Type, S: Eval<String>>(&mut self, name: S) -> (r: Ref<T>)
        requires
            name.ready(old(self)),
        ensures
            named_step(*old(self), *final(self), name.text(old(self))),
            final(self).declared(*old(self), name.text(old(self))),
            final(self).name_of(r.idx) == name.text(old(self)),
            r.core == old(self).id(),
            r.idx == VariableIdx::Allocated(old(self).names().len() as usize),
            final(self).owns(r),
    {
        let name = name.eval(self);
        let idx = self.new_variable(name);
        self.make_ref(idx)
    }

    /// Whether `self` and `rhs` are the same processor; processors alive together carry
    /// distinct ids (see `with_id`).
    pub fn is_same_core(&self, rhs: &Self) -> (r: bool)
        ensures
            r == (self.id() == rhs.id()),
    {
        self.id == rhs.id
    }

    /// Whether an operand may be used with this processor: it is no reference, or one that
    /// carries this processor's id.
    pub fn accepts<E: WithCore>(&self, operand: &E) -> (r: bool)
        ensures
            r == (operand.core_spec() matches Some(c) ==> c == self.id()),
    {
        match operand.core_id() {
            Some(c) => c == self.id,
            None => true,
        }
    }

    /// Binds the next unit of kind `U`.
    pub fn unit_bind<U: Units>(&mut self)
        ensures
            final(self).appended(*old(self), template(seq!["ubind"@, U::class_spec()], 0)),
    {
        let command = UnitBind { ty: String::Static(U::class_name()) };
        self.inner.push_command(Command::UnitBind(command));
    }

    /// The unit register; no unit may be bound to it yet.
    pub fn unit(&self) -> (r: Ref<Unit>)
        ensures
            r.core == self.id(),
            r.idx == VariableIdx::Reserved(Register::Unit),
    {
        self.make_ref(VariableIdx::Reserved(Register::Unit))
    }

    /// A reference to a built-in register, as a number.
    pub fn register(&self, reg: Register) -> (r: Ref<Number>)
        ensures
            r.core == self.id(),
            r.idx == VariableIdx::Reserved(reg),
    {
        self.make_ref(VariableIdx::Reserved(reg))
    }

    /// `@thisx`
    pub fn thisx(&self) -> (r: Ref<Number>)
        ensures
            r.core == self.id(),
            r.idx == VariableIdx::Reserved(Register::ThisX),
    {
        self.register(Register::ThisX)
    }

    /// `@thisy`
    pub fn thisy(&self) -> (r: Ref<Number>)
        ensures
            r.core == self.id(),
            r.idx == VariableIdx::Reserved(Register::ThisY),
    {
        self.register(Register::ThisY)
    }

    /// `@counter`
    pub fn counter(&self) -> (r: Ref<Number>)
        ensures
            r.core == self.id(),
            r.idx == VariableIdx::Reserved(Register::Counter),
    {
        self.register(Register::Counter)
    }

    /// `@links`
    pub fn links(&self) -> (r: Ref<Number>)
        ensures
            r.core == self.id(),
            r.idx == VariableIdx::Reserved(Register::Links),
    {
        self.register(Register::Links)
    }

    /// `@ipt`
    pub fn ipt(&self) -> (r: Ref<Number>)
        ensures
            r.core == self.id(),
            r.idx == VariableIdx::Reserved(Register::Ipt),
    {
        self.register(Register::Ipt)
    }

    /// `@time`
    pub fn time(&self) -> (r: Ref<Number>)
        ensures
            r.core == self.id(),
            r.idx == VariableIdx::Reserved(Register::Time),
    {
        self.register(Register::Time)
    }

    /// `@tick`
    pub fn tick(&self) -> (r: Ref<Number>)
        ensures
            r.core == self.id(),
            r.idx == VariableIdx::Reserved(Register::Tick),
    {
        self.register(Register::Tick)
    }

    /// `@mapw`
    pub fn mapw(&self) -> (r: Ref<Number>)
        ensures
            r.core == self.id(),
            r.idx == VariableIdx::Reserved(Register::MapW),
    {
        self.register(Register::MapW)
    }

    /// `@maph`
    pub fn maph(&self) -> (r: Ref<Number>)
        ensures
            r.core == self.id(),
            r.idx == VariableIdx::Reserved(Register::MapH),
    {
        self.register(Register::MapH)
    }

    /// `@count`
    pub fn count(&self) -> (r: Ref<Number>)
        ensures
            r.core == self.id(),
            r.idx == VariableIdx::Reserved(Register::Count),
    {
        self.register(Register::Count)
    }

    /// Appends an instruction to the program.
    pub fn push_command(&mut self, command: Command)
        ensures
            final(self).appended(*old(self), command.line()),
    {
        self.inner.push_command(command);
    }

    /// The program text: one line per instruction, in the order they were added.
    pub fn generate(self) -> (r: std::string::String)
        ensures
            r@ == program_text(self.lines()),
    {
        self.inner.generate()
    }
}

/// One step that declares a variable with a generated name: the name is `v` and the
/// counter, which advances.
pub open spec fn anonymous_step(prev: Processor, next: Processor) -> bool {
    &&& next.id() == prev.id()
    &&& next.names() == prev.names().push(auto_name(prev.counter_value()))
    &&& next.counter_value() == prev.counter_value() + 1
}

/// One step that declares a variable called `name`: the counter stays.
pub open spec fn named_step(prev: Processor, next: Processor, name: Seq<char>) -> bool {
    &&& next.id() == prev.id()
    &&& next.names() == prev.names().push(name)
    &&& next.counter_value() == prev.counter_value()
}

/// One step that declares nothing.
pub open spec fn quiet_step(prev: Processor, next: Processor) -> bool {
    &&& next.id() == prev.id()
    &&& next.names() == prev.names()
    &&& next.counter_value() == prev.counter_value()
}

/// How many of the first `k` steps of `states` are declarations with a generated name.
pub open spec fn anonymous_count(states: Seq<Processor>, k: int) -> nat
    decreases k,
{
    if k <= 0 {
        0
    } else {
        anonymous_count(states, k - 1) + if anonymous_step(states[k - 1], states[k]) {
            1nat
        } else {
            0nat
        }
    }
}

/// Starting from a fresh processor, through any run of operations (declarations with a
/// generated name, declarations with a given name, and operations that declare nothing), the
/// counter equals the number of generated names so far, so the `n`th generated name (from 0)
/// is `v` followed by `n`.
pub proof fn lemma_allocation_determinism(states: Seq<Processor>, names: Seq<Seq<char>>)
    requires
        states.len() == names.len() + 1,
        states[0].is_fresh(),
        forall|k: int|
            0 <= k < names.len() ==> anonymous_step(states[k], #[trigger] states[k + 1])
                || named_step(states[k], states[k + 1], names[k]) || quiet_step(
                states[k],
                states[k + 1],
            ),
    ensures
        forall|k: int|
            0 <= k < states.len() ==> #[trigger] states[k].counter_value() == anonymous_count(states, k),
        forall|k: int|
            0 <= k < names.len() && anonymous_step(states[k], #[trigger] states[k + 1])
                ==> states[k + 1].names().last() == auto_name(anonymous_count(states, k)),
{
    assert forall|k: int| 0 <= k < states.len() implies #[trigger] states[k].counter_value()
        == anonymous_count(states, k) by {
        lemma_alloc_counts(states, names, k);
    }
    assert forall|k: int|
        0 <= k < names.len() && anonymous_step(states[k], #[trigger] states[k + 1])
            implies states[k + 1].names().last() == auto_name(anonymous_count(states, k)) by {
        lemma_alloc_counts(states, names, k);
    }
}

proof fn lemma_alloc_counts(states: Seq<Processor>, names: Seq<Seq<char>>, k: int)
    requires
        states.len() == names.len() + 1,
        states[0].is_fresh(),
        forall|j: int|
            0 <= j < names.len() ==> anonymous_step(states[j], #[trigger] states[j + 1])
                || named_step(states[j], states[j + 1], names[j]) || quiet_step(
                states[j],
                states[j + 1],
            ),
        0 <= k < states.len(),
    ensures
        states[k].counter_value() == anonymous_count(states, k),
    decreases k,
{
    if k > 0 {
        lemma_alloc_counts(states, names, k - 1);
        let j = k - 1;
        assert(anonymous_step(states[j], states[j + 1]) || named_step(
            states[j],
            states[j + 1],
            names[j],
        ) || quiet_step(states[j], states[j + 1]));
    }
}

/// Declaring a variable never yields a register's identifier and never changes what a
/// register stands for: the new identifier names the declared variable, and each register
/// keeps its fixed spelling.
pub proof fn lemma_reserved_isolation(
    prev: Processor,
    next: Processor,
    name: Seq<char>,
    i: usize,
    reg: Register,
)
    requires
        next.declared(prev, name),
        i == prev.names().len(),
    ensures
        VariableIdx::Allocated(i) != VariableIdx::Reserved(reg),
        next.valid(VariableIdx::Allocated(i)),
        next.name_of(VariableIdx::Allocated(i)) == name,
        next.name_of(VariableIdx::Reserved(reg)) == reg.spelling(),
        next.name_of(VariableIdx::Reserved(reg)) == prev.name_of(VariableIdx::Reserved(reg)),
{
    assert(next.names().len() == next.raw().variables@.len());
}

/// A reference handed out by one processor is refused by every processor with another id:
/// no operation of that processor admits it, and `accepts` answers `false` for it.
pub proof fn lemma_foreign_reference<T: Type>(p: Processor, q: Processor, r: Ref<T>)
    requires
        q.owns(r),
        p.id() != q.id(),
    ensures
        !p.owns(r),
        !<Ref<T> as Eval<T>>::ready(&r, &p),
        !<Ref<T> as Eval<String>>::ready(&r, &p),
        !(r.core_spec() matches Some(c) ==> c == p.id()),
{
}

/// Number of line breaks in `s`.
pub open spec fn newline_count(s: Seq<char>) -> nat
    decreases s.len(),
{
    if s.len() == 0 {
        0
    } else {
        newline_count(s.drop_last()) + if s.last() == '\n' {
            1nat
        } else {
            0nat
        }
    }
}

proof fn lemma_newline_count_concat(a: Seq<char>, b: Seq<char>)
    ensures
        newline_count(a + b) == newline_count(a) + newline_count(b),
    decreases b.len(),
{
    if b.len() > 0 {
        lemma_newline_count_concat(a, b.drop_last());
        assert((a + b).drop_last() =~= a + b.drop_last());
    } else {
        assert(a + b =~= a);
    }
}

/// Pushing instructions onto a fresh processor one after another gives a program whose lines
/// are those instructions in the order they were pushed; its text is each line followed by a
/// line break, so it holds exactly one line break per instruction when no line holds one.
pub proof fn lemma_program_order(states: Seq<Processor>, commands: Seq<Command>)
    requires
        states.len() == commands.len() + 1,
        states[0].is_fresh(),
        forall|k: int|
            0 <= k < commands.len() ==> (#[trigger] states[k + 1]).appended(
                states[k],
                commands[k].line(),
            ),
    ensures
        states.last().lines() == commands.map_values(|c: Command| c.line()),
        (forall|k: int|
            0 <= k < commands.len() ==> newline_count(#[trigger] commands[k].line()) == 0)
            ==> newline_count(program_text(states.last().lines())) == commands.len(),
{
    lemma_lines_in_order(states, commands, commands.len() as int);
    let lines = commands.map_values(|c: Command| c.line());
    if forall|k: int|
        0 <= k < commands.len() ==> newline_count(#[trigger] commands[k].line()) == 0 {
        assert forall|j: int| 0 <= j < lines.len() implies newline_count(#[trigger] lines[j])
            == 0 by {
            assert(lines[j] == commands[j].line());
        }
        lemma_program_newlines(lines, lines.len() as int);
        assert(lines.take(lines.len() as int) =~= lines);
    }
}

proof fn lemma_lines_in_order(states: Seq<Processor>, commands: Seq<Command>, k: int)
    requires
        states.len() == commands.len() + 1,
        states[0].is_fresh(),
        forall|j: int|
            0 <= j < commands.len() ==> (#[trigger] states[j + 1]).appended(
                states[j],
                commands[j].line(),
            ),
        0 <= k <= commands.len(),
    ensures
        states[k].lines() == commands.take(k).map_values(|c: Command| c.line()),
    decreases k,
{
    if k == 0 {
        assert(states[0].lines() =~= commands.take(0).map_values(|c: Command| c.line()));
    } else {
        lemma_lines_in_order(states, commands, k - 1);
        let j = k - 1;
        assert(states[j + 1].appended(states[j], commands[j].line()));
        assert(states[k].lines() =~= commands.take(k).map_values(|c: Command| c.line()));
    }
    if k == commands.len() {
        assert(commands.take(k) =~= commands);
    }
}

proof fn lemma_program_newlines(lines: Seq<Seq<char>>, k: int)
    requires
        0 <= k <= lines.len(),
        forall|j: int| 0 <= j < lines.len() ==> newline_count(#[trigger] lines[j]) == 0,
    ensures
        newline_count(program_text(lines.take(k))) == k,
    decreases k,
{
    if k > 0 {
        lemma_program_newlines(lines, k - 1);
        let prefix = lines.take(k);
        assert(prefix.drop_last() =~= lines.take(k - 1));
        assert(prefix.last() == lines[k - 1]);
        lemma_newline_count_concat(program_text(lines.take(k - 1)), lines[k - 1]);
        lemma_newline_count_concat(
            program_text(lines.take(k - 1)) + lines[k - 1],
            seq!['\n'],
        );
        assert(seq!['\n'].drop_last() =~= Seq::<char>::empty());
        assert(newline_count(Seq::<char>::empty()) == 0);
        assert(newline_count(seq!['\n']) == 1);
    } else {
        assert(lines.take(0) =~= Seq::<Seq<char>>::empty());
    }
}

} // verus!
