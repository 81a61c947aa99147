use super::building::{Building, Buildings};
use super::number::Number;
use super::Type;
use crate::abilities::{Boost, Shoot, Target};
use crate::command::{template, Command, UnitControl};
use crate::env::{Erekir, Sepro};
use crate::eval::{Eval, WithCore};
use crate::processor::{anonymous_step, auto_name, Processor, VariableIdx};
use crate::reference::Ref;
use crate::string::String;
use std::marker::PhantomData;
use vstd::prelude::*;

verus! {

/// A unit value of kind `U`: the name of the variable that holds it.
#[derive(Debug)]
pub struct Unit<U = Binding> {
    pub name: String,
    pub _unit: PhantomData<U>,
}

impl<U> View for Unit<U> {
    type V = Seq<char>;

    open spec fn view(&self) -> Seq<char> {
        self.name@
    }
}

impl<U: Units> Unit<U> {
    /// The class spelling of kind `U`.
    pub fn class_name(&self) -> (r: &'static str)
        ensures
            r@ == U::class_spec(),
    {
        U::class_name()
    }
}

impl<U: Units> Type for Unit<U> {
    fn from_name(name: String) -> (r: Self) {
        Unit { name, _unit: PhantomData }
    }

    fn into_name(self) -> (r: String) {
        self.name
    }
}

impl<U> WithCore for Unit<U> {
    open spec fn core_spec(&self) -> Option<u64> {
        None
    }

    fn core_id(&self) -> (r: Option<u64>) {
        None
    }
}

impl<U: Units> Eval<Unit<U>> for Unit<U> {
    open spec fn ready(&self, p: &Processor) -> bool {
        true
    }

    open spec fn text(&self, p: &Processor) -> Seq<char> {
        self@
    }

    fn eval(self, p: &Processor) -> (r: Unit<U>) {
        self
    }
}

impl<U: Units> Eval<String> for Unit<U> {
    open spec fn ready(&self, p: &Processor) -> bool {
        true
    }

    open spec fn text(&self, p: &Processor) -> Seq<char> {
        self@
    }

    fn eval(self, p: &Processor) -> (r: String) {
        self.name
    }
}

impl<U: Units> Target for Unit<U> {
}

/// A kind of unit, with its class spelling.
pub trait Units {
    spec fn class_spec() -> Seq<char>;

    fn class_name() -> (r: &'static str)
        ensures
            r@ == Self::class_spec(),
    ;
}

/// Walks on the ground.
pub trait Land: Units + Sepro {
}

/// Flies.
pub trait Air: Units + Sepro {
}

/// Moves on water.
pub trait Naval: Units + Sepro {
}

/// An attack unit.
pub trait Attack: Units + Sepro {
}

/// A support unit.
pub trait Support: Units + Sepro {
}

/// Walks on legs.
pub trait Legs: Units + Sepro + Land {
}

/// A tank.
pub trait Tank: Units + Erekir {
}

/// A mech.
pub trait Mech: Units + Erekir {
}

/// A flying Erekir unit.
pub trait Flying: Units + Erekir {
}

/// A neoplasm unit.
pub trait Neoplasm: Units + Erekir {
}

/// A core unit.
pub trait Core: Units {
}

/// An internal unit.
pub trait Internal: Units {
}

/// A unit of any kind.
pub type AnyUnit = Binding;

impl<U: Units> Ref<Unit<U>> {
    /// Makes this unit the bound one: stores it into the unit register, and returns the
    /// reference seen as a unit of any kind.
    pub fn bind(&self, p: &mut Processor) -> (r: Ref<Unit>)
        requires
            old(p).owns(*self),
        ensures
            final(p).appended(
                *old(p),
                template(seq!["set"@, "@unit"@, old(p).name_of(self.idx)], 0),
            ),
            r.core == self.core,
            r.idx == self.idx,
    {
        let s = self.cast::<Unit>();
        let unit = p.unit();
        unit.set_to(p, s);
        s
    }
}

/// The line of a `ucontrol` order: the keyword, the order's words, fillers up to five operands.
pub open spec fn ucontrol_line(order: Seq<Seq<char>>) -> Seq<char> {
    template(seq!["ucontrol"@] + order, (6 - order.len()) as nat)
}

impl Ref<Unit> {
    fn ucontrol(&self, p: &mut Processor, command: UnitControl)
        ensures
            final(p).appended(*old(p), ucontrol_line(command.order())),
    {
        p.push_command(Command::UnitControl(command));
    }

    /// Stops moving, keeps shooting.
    pub fn idle(&self, p: &mut Processor)
        requires
            old(p).owns(*self),
        ensures
            final(p).appended(*old(p), ucontrol_line(seq!["idle"@])),
    {
        self.ucontrol(p, UnitControl::Idle);
    }

    /// Moves to (`x`, `y`).
    pub fn move_<X: Eval<Number>, Y: Eval<Number>>(&self, p: &mut Processor, x: X, y: Y)
        requires
            old(p).owns(*self),
            x.ready(old(p)),
            y.ready(old(p)),
        ensures
            final(p).appended(
                *old(p),
                ucontrol_line(seq!["move"@, x.text(old(p)), y.text(old(p))]),
            ),
    {
        let x = x.eval(p).into_name();
        let y = y.eval(p).into_name();
        let command = UnitControl::Move { x, y };
        assert(command.order() =~= seq!["move"@, x@, y@]);
        self.ucontrol(p, command);
    }

    /// Moves to within `radius` of (`x`, `y`).
    pub fn approach<X: Eval<Number>, Y: Eval<Number>, R: Eval<Number>>(
        &self,
        p: &mut Processor,
        x: X,
        y: Y,
        radius: R,
    )
        requires
            old(p).owns(*self),
            x.ready(old(p)),
            y.ready(old(p)),
            radius.ready(old(p)),
        ensures
            final(p).appended(
                *old(p),
                ucontrol_line(
                    seq![
                        "approach"@,
                        x.text(old(p)),
                        y.text(old(p)),
                        radius.text(old(p)),
                    ],
                ),
            ),
    {
        let x = x.eval(p).into_name();
        let y = y.eval(p).into_name();
        let radius = radius.eval(p).into_name();
        let command = UnitControl::Approach { x, y, radius };
        assert(command.order() =~= seq!["approach"@, x@, y@, radius@]);
        self.ucontrol(p, command);
    }

    /// Finds a path to (`x`, `y`) and follows it.
    pub fn path_find<X: Eval<Number>, Y: Eval<Number>>(&self, p: &mut Processor, x: X, y: Y)
        requires
            old(p).owns(*self),
            x.ready(old(p)),
            y.ready(old(p)),
        ensures
            final(p).appended(
                *old(p),
                ucontrol_line(
                    seq![
                        "pathfind"@,
                        x.text(old(p)),
                        y.text(old(p)),
                    ],
                ),
            ),
    {
        let x = x.eval(p).into_name();
        let y = y.eval(p).into_name();
        let command = UnitControl::PathFind { x, y };
        assert(command.order() =~= seq!["pathfind"@, x@, y@]);
        self.ucontrol(p, command);
    }

    /// Follows the path toward the enemy core.
    pub fn auto_path_find(&self, p: &mut Processor)
        requires
            old(p).owns(*self),
        ensures
            final(p).appended(*old(p), ucontrol_line(seq!["autoPathfind"@])),
    {
        let command = UnitControl::AutoPathFind;
        assert(command.order() =~= seq!["autoPathfind"@]);
        self.ucontrol(p, command);
    }

    /// Boosts while `enable` is true.
    pub fn boost<E: Eval<Number>>(&self, p: &mut Processor, enable: E)
        requires
            old(p).owns(*self),
            enable.ready(old(p)),
        ensures
            final(p).appended(*old(p), ucontrol_line(seq!["boost"@, enable.text(old(p))])),
    {
        let enable = enable.eval(p).into_name();
        let command = UnitControl::Boost { enable };
        assert(command.order() =~= seq!["boost"@, enable@]);
        self.ucontrol(p, command);
    }

    /// Aims at (`x`, `y`); fires while `shoot` is true.
    pub fn target<X: Eval<Number>, Y: Eval<Number>, S: Eval<Number>>(
        &self,
        p: &mut Processor,
        x: X,
        y: Y,
        shoot: S,
    )
        requires
            old(p).owns(*self),
            x.ready(old(p)),
            y.ready(old(p)),
            shoot.ready(old(p)),
        ensures
            final(p).appended(
                *old(p),
                ucontrol_line(
                    seq![
                        "target"@,
                        x.text(old(p)),
                        y.text(old(p)),
                        shoot.text(old(p)),
                    ],
                ),
            ),
    {
        let x = x.eval(p).into_name();
        let y = y.eval(p).into_name();
        let shoot = shoot.eval(p).into_name();
        let command = UnitControl::Target { x, y, shoot };
        assert(command.order() =~= seq!["target"@, x@, y@, shoot@]);
        self.ucontrol(p, command);
    }

    /// Aims at the unit or building `at`; fires while `shoot` is true.
    pub fn targetp<At: Target + Type, A: Eval<At>, S: Eval<Number>>(
        &self,
        p: &mut Processor,
        at: A,
        shoot: S,
    )
        requires
            old(p).owns(*self),
            at.ready(old(p)),
            shoot.ready(old(p)),
        ensures
            final(p).appended(
                *old(p),
                ucontrol_line(
                    seq![
                        "targetp"@,
                        at.text(old(p)),
                        shoot.text(old(p)),
                    ],
                ),
            ),
    {
        let at = at.eval(p).into_name();
        let shoot = shoot.eval(p).into_name();
        let command = UnitControl::Targetp { at, shoot };
        assert(command.order() =~= seq!["targetp"@, at@, shoot@]);
        self.ucontrol(p, command);
    }

    /// Drops `amount` items into building `to`.
    pub fn item_drop<B: Buildings, D: Eval<Building<B>>, M: Eval<Number>>(
        &self,
        p: &mut Processor,
        to: D,
        amount: M,
    )
        requires
            old(p).owns(*self),
            to.ready(old(p)),
            amount.ready(old(p)),
        ensures
            final(p).appended(
                *old(p),
                ucontrol_line(
                    seq![
                        "itemDrop"@,
                        to.text(old(p)),
                        amount.text(old(p)),
                    ],
                ),
            ),
    {
        let to = to.eval(p).into_name();
        let amount = amount.eval(p).into_name();
        let command = UnitControl::ItemDrop { to, amount };
        assert(command.order() =~= seq!["itemDrop"@, to@, amount@]);
        self.ucontrol(p, command);
    }

    /// Takes `amount` of `item` from building `from`.
    pub fn item_take<B: Buildings, F: Eval<Building<B>>, I: Eval<String>, M: Eval<Number>>(
        &self,
        p: &mut Processor,
        from: F,
        item: I,
        amount: M,
    )
        requires
            old(p).owns(*self),
            from.ready(old(p)),
            item.ready(old(p)),
            amount.ready(old(p)),
        ensures
            final(p).appended(
                *old(p),
                ucontrol_line(
                    seq![
                        "itemTake"@,
                        from.text(old(p)),
                        item.text(old(p)),
                        amount.text(old(p)),
                    ],
                ),
            ),
    {
        let from = from.eval(p).into_name();
        let item = item.eval(p);
        let amount = amount.eval(p).into_name();
        let command = UnitControl::ItemTake { from, item, amount };
        assert(command.order() =~= seq!["itemTake"@, from@, item@, amount@]);
        self.ucontrol(p, command);
    }

    /// Drops the payload.
    pub fn pay_drop(&self, p: &mut Processor)
        requires
            old(p).owns(*self),
        ensures
            final(p).appended(*old(p), ucontrol_line(seq!["payDrop"@])),
    {
        let command = UnitControl::PayDrop;
        assert(command.order() =~= seq!["payDrop"@]);
        self.ucontrol(p, command);
    }

    /// Picks up a payload; units too while `take_units` is true.
    pub fn pay_take<K: Eval<Number>>(&self, p: &mut Processor, take_units: K)
        requires
            old(p).owns(*self),
            take_units.ready(old(p)),
        ensures
            final(p).appended(*old(p), ucontrol_line(seq!["payTake"@, take_units.text(old(p))])),
    {
        let take_units = take_units.eval(p).into_name();
        let command = UnitControl::PayTake { take_units };
        assert(command.order() =~= seq!["payTake"@, take_units@]);
        self.ucontrol(p, command);
    }

    /// Enters the building below as payload.
    pub fn pay_enter(&self, p: &mut Processor)
        requires
            old(p).owns(*self),
        ensures
            final(p).appended(*old(p), ucontrol_line(seq!["payEnter"@])),
    {
        let command = UnitControl::PayEnter;
        assert(command.order() =~= seq!["payEnter"@]);
        self.ucontrol(p, command);
    }

    /// Mines the ore at (`x`, `y`).
    pub fn mine<X: Eval<Number>, Y: Eval<Number>>(&self, p: &mut Processor, x: X, y: Y)
        requires
            old(p).owns(*self),
            x.ready(old(p)),
            y.ready(old(p)),
        ensures
            final(p).appended(
                *old(p),
                ucontrol_line(
                    seq![
                        "mine"@,
                        x.text(old(p)),
                        y.text(old(p)),
                    ],
                ),
            ),
    {
        let x = x.eval(p).into_name();
        let y = y.eval(p).into_name();
        let command = UnitControl::Mine { x, y };
        assert(command.order() =~= seq!["mine"@, x@, y@]);
        self.ucontrol(p, command);
    }

    /// Sets the unit's flag to `value`.
    pub fn flag<V: Eval<Number>>(&self, p: &mut Processor, value: V)
        requires
            old(p).owns(*self),
            value.ready(old(p)),
        ensures
            final(p).appended(*old(p), ucontrol_line(seq!["flag"@, value.text(old(p))])),
    {
        let value = value.eval(p).into_name();
        let command = UnitControl::Flag { value };
        assert(command.order() =~= seq!["flag"@, value@]);
        self.ucontrol(p, command);
    }

    /// Tests whether the unit is within `radius` of (`x`, `y`); the answer goes to a fresh
    /// variable, which is returned.
    pub fn within<X: Eval<Number>, Y: Eval<Number>, R: Eval<Number>>(
        &self,
        p: &mut Processor,
        x: X,
        y: Y,
        radius: R,
    ) -> (r: Ref<Number>)
        requires
            old(p).owns(*self),
            x.ready(old(p)),
            y.ready(old(p)),
            radius.ready(old(p)),
            old(p).counter_value() < usize::MAX,
        ensures
            ({
                let result = auto_name(old(p).counter_value());
                &&& final(p).id() == old(p).id()
                &&& anonymous_step(*old(p), *final(p))
                &&& final(p).names() == old(p).names().push(result)
                &&& final(p).name_of(r.idx) == result
                &&& final(p).lines() == old(p).lines().push(
                    ucontrol_line(
                        seq![
                            "within"@,
                            x.text(old(p)),
                            y.text(old(p)),
                            radius.text(old(p)),
                            result,
                        ],
                    ),
                )
                &&& final(p).counter_value() == old(p).counter_value() + 1
            }),
            r.core == old(p).id(),
            r.idx == VariableIdx::Allocated(old(p).names().len() as usize),
            final(p).owns(r),
    {
        let x = x.eval(p).into_name();
        let y = y.eval(p).into_name();
        let radius = radius.eval(p).into_name();
        let result = p.new_unnamed::<Number>();
        let name = p.get_variable(result.idx);
        let command = UnitControl::Within { x, y, radius, result: name };
        assert(command.order() =~= seq!["within"@, x@, y@, radius@, name@]);
        self.ucontrol(p, command);
        result
    }

    /// Gives the unit back to its own logic.
    pub fn unbind(&self, p: &mut Processor)
        requires
            old(p).owns(*self),
        ensures
            final(p).appended(*old(p), ucontrol_line(seq!["unbind"@])),
    {
        let command = UnitControl::Unbind;
        assert(command.order() =~= seq!["unbind"@]);
        self.ucontrol(p, command);
    }
}


/// The unit register's own class: any unit at all.
pub struct Binding;

impl Units for Binding {
    open spec fn class_spec() -> Seq<char> {
        "@unit"@
    }

    fn class_name() -> (r: &'static str) {
        "@unit"
    }
}

impl Sepro for Binding {
}

impl Erekir for Binding {
}

impl Land for Binding {
}

impl Air for Binding {
}

impl Naval for Binding {
}

impl Support for Binding {
}

impl Legs for Binding {
}

impl Tank for Binding {
}

impl Flying for Binding {
}

impl Neoplasm for Binding {
}

impl Core for Binding {
}

impl Internal for Binding {
}

impl Shoot for Binding {
}

impl Shoot for Unit<Binding> {
}

impl Boost for Binding {
}

impl Boost for Unit<Binding> {
}

/// The `dagger` unit.
pub struct Dagger;

impl Units for Dagger {
    open spec fn class_spec() -> Seq<char> {
        "@dagger"@
    }

    fn class_name() -> (r: &'static str) {
        "@dagger"
    }
}

impl Sepro for Dagger {
}

impl Land for Dagger {
}

impl Attack for Dagger {
}

impl Shoot for Dagger {
}

impl Shoot for Unit<Dagger> {
}

/// The `mace` unit.
pub struct Mace;

impl Units for Mace {
    open spec fn class_spec() -> Seq<char> {
        "@mace"@
    }

    fn class_name() -> (r: &'static str) {
        "@mace"
    }
}

impl Sepro for Mace {
}

impl Land for Mace {
}

impl Attack for Mace {
}

impl Shoot for Mace {
}

impl Shoot for Unit<Mace> {
}

/// The `fortress` unit.
pub struct Fortress;

impl Units for Fortress {
    open spec fn class_spec() -> Seq<char> {
        "@fortress"@
    }

    fn class_name() -> (r: &'static str) {
        "@fortress"
    }
}

impl Sepro for Fortress {
}

impl Land for Fortress {
}

impl Attack for Fortress {
}

impl Shoot for Fortress {
}

impl Shoot for Unit<Fortress> {
}

/// The `scepter` unit.
pub struct Scepter;

impl Units for Scepter {
    open spec fn class_spec() -> Seq<char> {
        "@scepter"@
    }

    fn class_name() -> (r: &'static str) {
        "@scepter"
    }
}

impl Sepro for Scepter {
}

impl Land for Scepter {
}

impl Attack for Scepter {
}

impl Shoot for Scepter {
}

impl Shoot for Unit<Scepter> {
}

/// The `reign` unit.
pub struct Reign;

impl Units for Reign {
    open spec fn class_spec() -> Seq<char> {
        "@reign"@
    }

    fn class_name() -> (r: &'static str) {
        "@reign"
    }
}

impl Sepro for Reign {
}

impl Land for Reign {
}

impl Attack for Reign {
}

impl Shoot for Reign {
}

impl Shoot for Unit<Reign> {
}

/// The `nova` unit.
pub struct Nova;

impl Units for Nova {
    open spec fn class_spec() -> Seq<char> {
        "@nova"@
    }

    fn class_name() -> (r: &'static str) {
        "@nova"
    }
}

impl Sepro for Nova {
}

impl Land for Nova {
}

impl Support for Nova {
}

impl Shoot for Nova {
}

impl Shoot for Unit<Nova> {
}

impl Boost for Nova {
}

impl Boost for Unit<Nova> {
}

/// The `pulsar` unit.
pub struct Pulsar;

impl Units for Pulsar {
    open spec fn class_spec() -> Seq<char> {
        "@pulsar"@
    }

    fn class_name() -> (r: &'static str) {
        "@pulsar"
    }
}

impl Sepro for Pulsar {
}

impl Land for Pulsar {
}

impl Support for Pulsar {
}

impl Shoot for Pulsar {
}

impl Shoot for Unit<Pulsar> {
}

impl Boost for Pulsar {
}

impl Boost for Unit<Pulsar> {
}

/// The `quasar` unit.
pub struct Quasar;

impl Units for Quasar {
    open spec fn class_spec() -> Seq<char> {
        "@quasar"@
    }

    fn class_name() -> (r: &'static str) {
        "@quasar"
    }
}

impl Sepro for Quasar {
}

impl Land for Quasar {
}

impl Support for Quasar {
}

impl Shoot for Quasar {
}

impl Shoot for Unit<Quasar> {
}

impl Boost for Quasar {
}

impl Boost for Unit<Quasar> {
}

/// The `vela` unit.
pub struct Vela;

impl Units for Vela {
    open spec fn class_spec() -> Seq<char> {
        "@vela"@
    }

    fn class_name() -> (r: &'static str) {
        "@vela"
    }
}

impl Sepro for Vela {
}

impl Land for Vela {
}

impl Support for Vela {
}

impl Shoot for Vela {
}

impl Shoot for Unit<Vela> {
}

impl Boost for Vela {
}

impl Boost for Unit<Vela> {
}

/// The `corvus` unit.
pub struct Corvus;

impl Units for Corvus {
    open spec fn class_spec() -> Seq<char> {
        "@corvus"@
    }

    fn class_name() -> (r: &'static str) {
        "@corvus"
    }
}

impl Sepro for Corvus {
}

impl Land for Corvus {
}

impl Support for Corvus {
}

impl Shoot for Corvus {
}

impl Shoot for Unit<Corvus> {
}

impl Boost for Corvus {
}

impl Boost for Unit<Corvus> {
}

} // verus!
