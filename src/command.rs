use vstd::prelude::*;

mod control;
mod io;
mod operate;
mod unit;

pub use control::{Control, DrawFlush, GetLink, PrintFlush};
pub use io::{Draw, Print, Read, Write};
pub use operate::{Op, Operation, SetValue};
pub use unit::{UnitBind, UnitControl};

verus! {

/// Words separated by single spaces.
pub open spec fn words_text(words: Seq<Seq<char>>) -> Seq<char>
    decreases words.len(),
{
    if words.len() == 0 {
        seq![]
    } else if words.len() == 1 {
        words[0]
    } else {
        words_text(words.drop_last()) + seq![' '] + words.last()
    }
}

/// `n` filler operands, each written as ` 0`.
pub open spec fn filler(n: nat) -> Seq<char>
    decreases n,
{
    if n == 0 {
        seq![]
    } else {
        filler((n - 1) as nat) + seq![' ', '0']
    }
}

/// One instruction line: its words, then `pad` filler operands.
pub open spec fn template(words: Seq<Seq<char>>, pad: nat) -> Seq<char> {
    words_text(words) + filler(pad)
}

pub open spec fn str_views(words: Seq<&str>) -> Seq<Seq<char>> {
    words.map_values(|w: &str| w@)
}

/// Writes an instruction line from its words and its filler count.
pub fn render_words(words: &Vec<&str>, pad: usize) -> (r: std::string::String)
    ensures
        r@ == template(str_views(words@), pad as nat),
{
    let mut out = std::string::String::new();
    let ghost views = str_views(words@);
    let mut i: usize = 0;
    while i < words.len()
        invariant
            0 <= i <= words.len(),
            views == str_views(words@),
            out@ == words_text(views.take(i as int)),
        decreases words.len() - i,
    {
        if i > 0 {
            proof { reveal_strlit(" "); }
            out.append(" ");
        }
        out.append(words[i]);
        assert(views.take(i + 1).drop_last() =~= views.take(i as int));
        assert(views.take(i + 1)[i as int] == words@[i as int]@);
        if i == 0 {
            assert(out@ =~= words_text(views.take(1)));
        }
        i = i + 1;
    }
    assert(views.take(words.len() as int) =~= views);
    let mut k: usize = 0;
    while k < pad
        invariant
            0 <= k <= pad,
            out@ == words_text(views) + filler(k as nat),
        decreases pad - k,
    {
        proof { reveal_strlit(" 0"); }
        out.append(" 0");
        assert(out@ =~= words_text(views) + filler((k + 1) as nat));
        k = k + 1;
    }
    out
}

/// An instruction of the target language.
#[derive(Debug, Clone)]
#[non_exhaustive]
pub enum Command {
    Read(Read),
    Write(Write),
    Draw(Draw),
    Print(Print),
    DrawFlush(DrawFlush),
    PrintFlush(PrintFlush),
    GetLink(GetLink),
    Control(Control),
    SetValue(SetValue),
    Operation(Operation),
    UnitBind(UnitBind),
    UnitControl(UnitControl),
}

impl Command {
    /// The keywords and operands of the line, in order.
    pub open spec fn words(&self) -> Seq<Seq<char>> {
        match self {
            Command::Read(c) => c.words(),
            Command::Write(c) => c.words(),
            Command::Draw(c) => c.words(),
            Command::Print(c) => c.words(),
            Command::DrawFlush(c) => c.words(),
            Command::PrintFlush(c) => c.words(),
            Command::GetLink(c) => c.words(),
            Command::Control(c) => c.words(),
            Command::SetValue(c) => c.words(),
            Command::Operation(c) => c.words(),
            Command::UnitBind(c) => c.words(),
            Command::UnitControl(c) => c.words(),
        }
    }

    /// How many ` 0` fillers follow the operands.
    pub open spec fn padding(&self) -> nat {
        match self {
            Command::Draw(c) => c.padding(),
            Command::Control(c) => c.padding(),
            Command::UnitControl(c) => c.padding(),
            _ => 0,
        }
    }

    /// The number of slots (keywords, operands and fillers) of the instruction's family.
    pub open spec fn slot_count(&self) -> nat {
        match self {
            Command::Read(_) => 4,
            Command::Write(_) => 4,
            Command::Draw(_) => 8,
            Command::Print(_) => 2,
            Command::DrawFlush(_) => 2,
            Command::PrintFlush(_) => 2,
            Command::GetLink(_) => 3,
            Command::Control(_) => 7,
            Command::SetValue(_) => 3,
            Command::Operation(Operation::Binary { .. }) => 5,
            Command::Operation(Operation::Unary { .. }) => 4,
            Command::UnitBind(_) => 2,
            Command::UnitControl(_) => 7,
        }
    }

    /// The text of the instruction, without a line break.
    pub open spec fn line(&self) -> Seq<char> {
        template(self.words(), self.padding())
    }

    pub fn render(&self) -> (r: std::string::String)
        ensures
            r@ == self.line(),
    {
        match self {
            Command::Read(c) => c.render(),
            Command::Write(c) => c.render(),
            Command::Draw(c) => c.render(),
            Command::Print(c) => c.render(),
            Command::DrawFlush(c) => c.render(),
            Command::PrintFlush(c) => c.render(),
            Command::GetLink(c) => c.render(),
            Command::Control(c) => c.render(),
            Command::SetValue(c) => c.render(),
            Command::Operation(c) => c.render(),
            Command::UnitBind(c) => c.render(),
            Command::UnitControl(c) => c.render(),
        }
    }
}

impl From<Read> for Command {
    fn from(v: Read) -> Command {
        Command::Read(v)
    }
}

impl vstd::std_specs::convert::FromSpecImpl<Read> for Command {
    open spec fn obeys_from_spec() -> bool {
        true
    }

    open spec fn from_spec(v: Read) -> Command {
        Command::Read(v)
    }
}

impl From<Write> for Command {
    fn from(v: Write) -> Command {
        Command::Write(v)
    }
}

impl vstd::std_specs::convert::FromSpecImpl<Write> for Command {
    open spec fn obeys_from_spec() -> bool {
        true
    }

    open spec fn from_spec(v: Write) -> Command {
        Command::Write(v)
    }
}

impl From<Draw> for Command {
    fn from(v: Draw) -> Command {
        Command::Draw(v)
    }
}

impl vstd::std_specs::convert::FromSpecImpl<Draw> for Command {
    open spec fn obeys_from_spec() -> bool {
        true
    }

    open spec fn from_spec(v: Draw) -> Command {
        Command::Draw(v)
    }
}

impl From<Print> for Command {
    fn from(v: Print) -> Command {
        Command::Print(v)
    }
}

impl vstd::std_specs::convert::FromSpecImpl<Print> for Command {
    open spec fn obeys_from_spec() -> bool {
        true
    }

    open spec fn from_spec(v: Print) -> Command {
        Command::Print(v)
    }
}

impl From<DrawFlush> for Command {
    fn from(v: DrawFlush) -> Command {
        Command::DrawFlush(v)
    }
}

impl vstd::std_specs::convert::FromSpecImpl<DrawFlush> for Command {
    open spec fn obeys_from_spec() -> bool {
        true
    }

    open spec fn from_spec(v: DrawFlush) -> Command {
        Command::DrawFlush(v)
    }
}

impl From<PrintFlush> for Command {
    fn from(v: PrintFlush) -> Command {
        Command::PrintFlush(v)
    }
}

impl vstd::std_specs::convert::FromSpecImpl<PrintFlush> for Command {
    open spec fn obeys_from_spec() -> bool {
        true
    }

    open spec fn from_spec(v: PrintFlush) -> Command {
        Command::PrintFlush(v)
    }
}

impl From<GetLink> for Command {
    fn from(v: GetLink) -> Command {
        Command::GetLink(v)
    }
}

impl vstd::std_specs::convert::FromSpecImpl<GetLink> for Command {
    open spec fn obeys_from_spec() -> bool {
        true
    }

    open spec fn from_spec(v: GetLink) -> Command {
        Command::GetLink(v)
    }
}

impl From<Control> for Command {
    fn from(v: Control) -> Command {
        Command::Control(v)
    }
}

impl vstd::std_specs::convert::FromSpecImpl<Control> for Command {
    open spec fn obeys_from_spec() -> bool {
        true
    }

    open spec fn from_spec(v: Control) -> Command {
        Command::Control(v)
    }
}

impl From<SetValue> for Command {
    fn from(v: SetValue) -> Command {
        Command::SetValue(v)
    }
}

impl vstd::std_specs::convert::FromSpecImpl<SetValue> for Command {
    open spec fn obeys_from_spec() -> bool {
        true
    }

    open spec fn from_spec(v: SetValue) -> Command {
        Command::SetValue(v)
    }
}

impl From<Operation> for Command {
    fn from(v: Operation) -> Command {
        Command::Operation(v)
    }
}

impl vstd::std_specs::convert::FromSpecImpl<Operation> for Command {
    open spec fn obeys_from_spec() -> bool {
        true
    }

    open spec fn from_spec(v: Operation) -> Command {
        Command::Operation(v)
    }
}

impl From<UnitBind> for Command {
    fn from(v: UnitBind) -> Command {
        Command::UnitBind(v)
    }
}

impl vstd::std_specs::convert::FromSpecImpl<UnitBind> for Command {
    open spec fn obeys_from_spec() -> bool {
        true
    }

    open spec fn from_spec(v: UnitBind) -> Command {
        Command::UnitBind(v)
    }
}

impl From<UnitControl> for Command {
    fn from(v: UnitControl) -> Command {
        Command::UnitControl(v)
    }
}

impl vstd::std_specs::convert::FromSpecImpl<UnitControl> for Command {
    open spec fn obeys_from_spec() -> bool {
        true
    }

    open spec fn from_spec(v: UnitControl) -> Command {
        Command::UnitControl(v)
    }
}

/// Every instruction renders as its family's fixed template: the words, then as many ` 0`
/// fillers as the family's slot count leaves over.
pub proof fn lemma_line_template(c: Command)
    ensures
        c.words().len() <= c.slot_count(),
        c.line() == words_text(c.words()) + filler((c.slot_count() - c.words().len()) as nat),
{
    match c {
        Command::Draw(d) => d.lemma_arity(),
        Command::Control(d) => d.lemma_arity(),
        Command::UnitControl(d) => d.lemma_arity(),
        Command::Operation(o) => {
            match o {
                Operation::Binary { .. } => {},
                Operation::Unary { .. } => {},
            }
        },
        _ => {},
    }
}

/// A position in the program: a linked block with an offset.
pub struct Link {
    pub idx: usize,
    pub offset: usize,
}

/// A jump target: a link or a plain line number.
pub enum Line {
    Link(Link),
    Line(usize),
}

} // verus!
