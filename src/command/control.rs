use super::{render_words, str_views, template};
use crate::string::String;
use vstd::prelude::*;

verus! {

/// `drawflush to`: sends the display buffer to display `to`.
#[derive(Debug, Clone)]
pub struct DrawFlush {
    pub to: String,
}

impl DrawFlush {
    pub open spec fn words(&self) -> Seq<Seq<char>> {
        seq!["drawflush"@, self.to@]
    }

    pub fn render(&self) -> (r: std::string::String)
        ensures
            r@ == template(self.words(), 0),
    {
        let words = vec!["drawflush", self.to.as_str()];
        assert(str_views(words@) =~= self.words());
        render_words(&words, 0)
    }
}

/// `printflush to`: sends the print buffer to message block `to`.
#[derive(Debug, Clone)]
pub struct PrintFlush {
    pub to: String,
}

impl PrintFlush {
    pub open spec fn words(&self) -> Seq<Seq<char>> {
        seq!["printflush"@, self.to@]
    }

    pub fn render(&self) -> (r: std::string::String)
        ensures
            r@ == template(self.words(), 0),
    {
        let words = vec!["printflush", self.to.as_str()];
        assert(str_views(words@) =~= self.words());
        render_words(&words, 0)
    }
}

/// `getlink result link_to`: stores the building linked at index `link_to` in `result`.
#[derive(Debug, Clone)]
pub struct GetLink {
    pub result: String,
    /// index of the link, a number
    pub link_to: String,
}

impl GetLink {
    pub open spec fn words(&self) -> Seq<Seq<char>> {
        seq!["getlink"@, self.result@, self.link_to@]
    }

    pub fn render(&self) -> (r: std::string::String)
        ensures
            r@ == template(self.words(), 0),
    {
        let words = vec!["getlink", self.result.as_str(), self.link_to.as_str()];
        assert(str_views(words@) =~= self.words());
        render_words(&words, 0)
    }
}

/// `control ...`: drives building `of`; five operand slots.
#[derive(Debug, Clone)]
pub enum Control {
    Enable { of: String, enable: String },
    Shoot { of: String, x: String, y: String, shoot: String },
    Shootp { of: String, at: String, shoot: String },
    Config { of: String, to: String },
    Color { of: String, to: String },
}

impl Control {
    pub open spec fn words(&self) -> Seq<Seq<char>> {
        match self {
            Control::Enable { of, enable } => seq!["control"@, "enabled"@, of@, enable@],
            Control::Shoot { of, x, y, shoot } => seq![
                "control"@,
                "shoot"@,
                of@,
                x@,
                y@,
                shoot@,
            ],
            Control::Shootp { of, at, shoot } => seq!["control"@, "shootp"@, of@, at@, shoot@],
            Control::Config { of, to } => seq!["control"@, "config"@, of@, to@],
            Control::Color { of, to } => seq!["control"@, "color"@, of@, to@],
        }
    }

    pub open spec fn padding(&self) -> nat {
        match self {
            Control::Enable { .. } => 3,
            Control::Shoot { .. } => 1,
            Control::Shootp { .. } => 2,
            Control::Config { .. } => 3,
            Control::Color { .. } => 3,
        }
    }

    pub proof fn lemma_arity(&self)
        ensures
            self.words().len() + self.padding() == 7,
    {
    }

    pub fn render(&self) -> (r: std::string::String)
        ensures
            r@ == template(self.words(), self.padding()),
    {
        match self {
            Control::Enable { of, enable } => {
                let words = vec!["control", "enabled", of.as_str(), enable.as_str()];
                assert(str_views(words@) =~= self.words());
                render_words(&words, 3)
            },
            Control::Shoot { of, x, y, shoot } => {
                let words = vec![
                    "control",
                    "shoot",
                    of.as_str(),
                    x.as_str(),
                    y.as_str(),
                    shoot.as_str(),
                ];
                assert(str_views(words@) =~= self.words());
                render_words(&words, 1)
            },
            Control::Shootp { of, at, shoot } => {
                let words = vec!["control", "shootp", of.as_str(), at.as_str(), shoot.as_str()];
                assert(str_views(words@) =~= self.words());
                render_words(&words, 2)
            },
            Control::Config { of, to } => {
                let words = vec!["control", "config", of.as_str(), to.as_str()];
                assert(str_views(words@) =~= self.words());
                render_words(&words, 3)
            },
            Control::Color { of, to } => {
                let words = vec!["control", "color", of.as_str(), to.as_str()];
                assert(str_views(words@) =~= self.words());
                render_words(&words, 3)
            },
        }
    }
}

} // verus!
