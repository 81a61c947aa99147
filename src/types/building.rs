use super::number::Number;
use super::Type;
use crate::abilities::{Shoot, Target};
use crate::command::{template, Command, Control};
use crate::eval::{Eval, WithCore};
use crate::processor::Processor;
use crate::reference::Ref;
use crate::string::String;
use std::marker::PhantomData;
use vstd::prelude::*;

verus! {

/// A building value of kind `B`: the name of the variable that holds it.
#[derive(Debug)]
pub struct Building<B = AnyBuilding> {
    pub name: String,
    pub _building: PhantomData<B>,
}

impl<B> View for Building<B> {
    type V = Seq<char>;

    open spec fn view(&self) -> Seq<char> {
        self.name@
    }
}

impl<B: Buildings> Type for Building<B> {
    fn from_name(name: String) -> (r: Self) {
        Building { name, _building: PhantomData }
    }

    fn into_name(self) -> (r: String) {
        self.name
    }
}

impl<B> WithCore for Building<B> {
    open spec fn core_spec(&self) -> Option<u64> {
        None
    }

    fn core_id(&self) -> (r: Option<u64>) {
        None
    }
}

impl<B: Buildings> Eval<Building<B>> for Building<B> {
    open spec fn ready(&self, p: &Processor) -> bool {
        true
    }

    open spec fn text(&self, p: &Processor) -> Seq<char> {
        self@
    }

    fn eval(self, p: &Processor) -> (r: Building<B>) {
        self
    }
}

impl<B: Buildings> Eval<String> for Building<B> {
    open spec fn ready(&self, p: &Processor) -> bool {
        true
    }

    open spec fn text(&self, p: &Processor) -> Seq<char> {
        self@
    }

    fn eval(self, p: &Processor) -> (r: String) {
        self.name
    }
}

/// A kind of building, with its class spelling where the kind names one.
pub trait Buildings {
    spec fn class_spec() -> Option<Seq<char>>;

    fn class_name() -> (r: Option<&'static str>)
        ensures
            r matches Some(s) ==> Self::class_spec() == Some(s@),
            r is None ==> Self::class_spec() is None,
    ;
}

/// A building of unknown kind; it names no class.
pub struct AnyBuilding;

impl Buildings for AnyBuilding {
    open spec fn class_spec() -> Option<Seq<char>> {
        None
    }

    fn class_name() -> (r: Option<&'static str>) {
        None
    }
}

/// A building of unknown kind may be a turret.
impl Shoot for AnyBuilding {
}

impl<B: Buildings + Shoot> Ref<Building<B>> {
    /// Aims the building at (`x`, `y`); it fires while `shoot` is true.
    pub fn shoot<X: Eval<Number>, Y: Eval<Number>, S: Eval<Number>>(
        &self,
        p: &mut Processor,
        x: X,
        y: Y,
        shoot: S,
    )
        requires
            old(p).owns(*self),
            x.ready(old(p)),
            y.ready(old(p)),
            shoot.ready(old(p)),
        ensures
            final(p).appended(
                *old(p),
                template(
                    seq![
                        "control"@,
                        "shoot"@,
                        old(p).name_of(self.idx),
                        x.text(old(p)),
                        y.text(old(p)),
                        shoot.text(old(p)),
                    ],
                    1,
                ),
            ),
    {
        let of = p.get_variable(self.idx);
        let x = x.eval(p).into_name();
        let y = y.eval(p).into_name();
        let shoot = shoot.eval(p).into_name();
        let command = Control::Shoot { of, x, y, shoot };
        p.push_command(Command::Control(command));
    }

    /// Aims the building at the unit or building `at`; it fires while `shoot` is true.
    pub fn shootp<At: Target + Type, A: Eval<At>, S: Eval<Number>>(
        &self,
        p: &mut Processor,
        at: A,
        shoot: S,
    )
        requires
            old(p).owns(*self),
            at.ready(old(p)),
            shoot.ready(old(p)),
        ensures
            final(p).appended(
                *old(p),
                template(
                    seq![
                        "control"@,
                        "shootp"@,
                        old(p).name_of(self.idx),
                        at.text(old(p)),
                        shoot.text(old(p)),
                    ],
                    2,
                ),
            ),
    {
        let of = p.get_variable(self.idx);
        let at = at.eval(p).into_name();
        let shoot = shoot.eval(p).into_name();
        let command = Control::Shootp { of, at, shoot };
        p.push_command(Command::Control(command));
    }
}

} // verus!
