use super::{render_words, str_views, template};
use crate::string::String;
use vstd::prelude::*;

verus! {

/// `ubind ty`: binds the next unit of class `ty` to the unit register.
#[derive(Debug, Clone)]
pub struct UnitBind {
    pub ty: String,
}

impl UnitBind {
    pub open spec fn words(&self) -> Seq<Seq<char>> {
        seq!["ubind"@, self.ty@]
    }

    pub fn render(&self) -> (r: std::string::String)
        ensures
            r@ == template(self.words(), 0),
    {
        let words = vec!["ubind", self.ty.as_str()];
        assert(str_views(words@) =~= self.words());
        render_words(&words, 0)
    }
}

/// `ucontrol ...`: an order to the bound unit; five operand slots.
#[derive(Debug, Clone)]
pub enum UnitControl {
    Idle,
    Stop,
    Move { x: String, y: String },
    Approach { x: String, y: String, radius: String },
    PathFind { x: String, y: String },
    AutoPathFind,
    Boost { enable: String },
    Target { x: String, y: String, shoot: String },
    Targetp { at: String, shoot: String },
    ItemDrop { to: String, amount: String },
    ItemTake { from: String, item: String, amount: String },
    PayDrop,
    PayTake { take_units: String },
    PayEnter,
    Mine { x: String, y: String },
    Flag { value: String },
    Within { x: String, y: String, radius: String, result: String },
    Unbind,
}

impl UnitControl {
    /// The order's keyword, then its operands.
    pub open spec fn order(&self) -> Seq<Seq<char>> {
        match self {
            UnitControl::Idle => seq!["idle"@],
            UnitControl::Stop => seq!["stop"@],
            UnitControl::Move { x, y } => seq!["move"@, x@, y@],
            UnitControl::Approach { x, y, radius } => seq!["approach"@, x@, y@, radius@],
            UnitControl::PathFind { x, y } => seq!["pathfind"@, x@, y@],
            UnitControl::AutoPathFind => seq!["autoPathfind"@],
            UnitControl::Boost { enable } => seq!["boost"@, enable@],
            UnitControl::Target { x, y, shoot } => seq!["target"@, x@, y@, shoot@],
            UnitControl::Targetp { at, shoot } => seq!["targetp"@, at@, shoot@],
            UnitControl::ItemDrop { to, amount } => seq!["itemDrop"@, to@, amount@],
            UnitControl::ItemTake { from, item, amount } => seq![
                "itemTake"@,
                from@,
                item@,
                amount@,
            ],
            UnitControl::PayDrop => seq!["payDrop"@],
            UnitControl::PayTake { take_units } => seq!["payTake"@, take_units@],
            UnitControl::PayEnter => seq!["payEnter"@],
            UnitControl::Mine { x, y } => seq!["mine"@, x@, y@],
            UnitControl::Flag { value } => seq!["flag"@, value@],
            UnitControl::Within { x, y, radius, result } => seq![
                "within"@,
                x@,
                y@,
                radius@,
                result@,
            ],
            UnitControl::Unbind => seq!["unbind"@],
        }
    }

    pub open spec fn words(&self) -> Seq<Seq<char>> {
        seq!["ucontrol"@] + self.order()
    }

    /// Fillers that bring the operands to five.
    pub open spec fn padding(&self) -> nat {
        (6 - self.order().len()) as nat
    }

    pub proof fn lemma_arity(&self)
        ensures
            self.words().len() + self.padding() == 7,
            self.order().len() <= 6,
    {
    }

    pub fn render(&self) -> (r: std::string::String)
        ensures
            r@ == template(self.words(), self.padding()),
    {
        let (words, pad) = match self {
            UnitControl::Idle => (vec!["ucontrol", "idle"], 5),
            UnitControl::Stop => (vec!["ucontrol", "stop"], 5),
            UnitControl::Move { x, y } => (vec!["ucontrol", "move", x.as_str(), y.as_str()], 3),
            UnitControl::Approach { x, y, radius } => (
                vec!["ucontrol", "approach", x.as_str(), y.as_str(), radius.as_str()],
                2,
            ),
            UnitControl::PathFind { x, y } => (
                vec!["ucontrol", "pathfind", x.as_str(), y.as_str()],
                3,
            ),
            UnitControl::AutoPathFind => (vec!["ucontrol", "autoPathfind"], 5),
            UnitControl::Boost { enable } => (vec!["ucontrol", "boost", enable.as_str()], 4),
            UnitControl::Target { x, y, shoot } => (
                vec!["ucontrol", "target", x.as_str(), y.as_str(), shoot.as_str()],
                2,
            ),
            UnitControl::Targetp { at, shoot } => (
                vec!["ucontrol", "targetp", at.as_str(), shoot.as_str()],
                3,
            ),
            UnitControl::ItemDrop { to, amount } => (
                vec!["ucontrol", "itemDrop", to.as_str(), amount.as_str()],
                3,
            ),
            UnitControl::ItemTake { from, item, amount } => (
                vec!["ucontrol", "itemTake", from.as_str(), item.as_str(), amount.as_str()],
                2,
            ),
            UnitControl::PayDrop => (vec!["ucontrol", "payDrop"], 5),
            UnitControl::PayTake { take_units } => (
                vec!["ucontrol", "payTake", take_units.as_str()],
                4,
            ),
            UnitControl::PayEnter => (vec!["ucontrol", "payEnter"], 5),
            UnitControl::Mine { x, y } => (vec!["ucontrol", "mine", x.as_str(), y.as_str()], 3),
            UnitControl::Flag { value } => (vec!["ucontrol", "flag", value.as_str()], 4),
            UnitControl::Within { x, y, radius, result } => (
                vec![
                    "ucontrol",
                    "within",
                    x.as_str(),
                    y.as_str(),
                    radius.as_str(),
                    result.as_str(),
                ],
                1,
            ),
            UnitControl::Unbind => (vec!["ucontrol", "unbind"], 5),
        };
        assert(str_views(words@) =~= self.words());
        render_words(&words, pad)
    }
}

} // verus!
