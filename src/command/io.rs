use super::{render_words, str_views, template};
use crate::numeral::{nat_text, nat_to_text};
use crate::string::String;
use vstd::prelude::*;

verus! {

/// `read dst from at`: reads slot `at` of memory cell `from` into `dst`.
#[derive(Debug, Clone)]
pub struct Read {
    pub dst: String,
    pub from: String,
    pub at: usize,
}

impl Read {
    pub open spec fn words(&self) -> Seq<Seq<char>> {
        seq!["read"@, self.dst@, self.from@, nat_text(self.at as nat)]
    }

    pub fn render(&self) -> (r: std::string::String)
        ensures
            r@ == template(self.words(), 0),
    {
        let at = nat_to_text(self.at as u64);
        let words = vec!["read", self.dst.as_str(), self.from.as_str(), at.as_str()];
        assert(str_views(words@) =~= self.words());
        render_words(&words, 0)
    }
}

/// `write src to at`: writes `src` into slot `at` of memory cell `to`.
#[derive(Debug, Clone)]
pub struct Write {
    pub src: String,
    pub to: String,
    pub at: usize,
}

impl Write {
    pub open spec fn words(&self) -> Seq<Seq<char>> {
        seq!["write"@, self.src@, self.to@, nat_text(self.at as nat)]
    }

    pub fn render(&self) -> (r: std::string::String)
        ensures
            r@ == template(self.words(), 0),
    {
        let at = nat_to_text(self.at as u64);
        let words = vec!["write", self.src.as_str(), self.to.as_str(), at.as_str()];
        assert(str_views(words@) =~= self.words());
        render_words(&words, 0)
    }
}

/// `draw ...`: one drawing operation on the display buffer; six operand slots.
#[derive(Debug, Clone)]
pub enum Draw {
    Clear { r: String, g: String, b: String },
    ColorRGBA { r: String, g: String, b: String, a: String },
    ColorHEX { color: String },
    Stroke { width: String },
    Line { x1: String, y1: String, x2: String, y2: String },
    Rect { x: String, y: String, width: String, height: String },
}

impl Draw {
    pub open spec fn words(&self) -> Seq<Seq<char>> {
        match self {
            Draw::Clear { r, g, b } => seq!["draw"@, "clear"@, r@, g@, b@],
            Draw::ColorRGBA { r, g, b, a } => seq!["draw"@, "color"@, r@, g@, b@, a@],
            Draw::ColorHEX { color } => seq!["draw"@, "col"@, color@],
            Draw::Stroke { width } => seq!["draw"@, "stroke"@, width@],
            Draw::Line { x1, y1, x2, y2 } => seq!["draw"@, "line"@, x1@, y1@, x2@, y2@],
            Draw::Rect { x, y, width, height } => seq![
                "draw"@,
                "rect"@,
                x@,
                y@,
                width@,
                height@,
            ],
        }
    }

    pub open spec fn padding(&self) -> nat {
        match self {
            Draw::Clear { .. } => 3,
            Draw::ColorRGBA { .. } => 2,
            Draw::ColorHEX { .. } => 5,
            Draw::Stroke { .. } => 5,
            Draw::Line { .. } => 2,
            Draw::Rect { .. } => 2,
        }
    }

    pub proof fn lemma_arity(&self)
        ensures
            self.words().len() + self.padding() == 8,
    {
    }

    pub fn render(&self) -> (r: std::string::String)
        ensures
            r@ == template(self.words(), self.padding()),
    {
        match self {
            Draw::Clear { r, g, b } => {
                let words = vec!["draw", "clear", r.as_str(), g.as_str(), b.as_str()];
                assert(str_views(words@) =~= self.words());
                render_words(&words, 3)
            },
            Draw::ColorRGBA { r, g, b, a } => {
                let words = vec!["draw", "color", r.as_str(), g.as_str(), b.as_str(), a.as_str()];
                assert(str_views(words@) =~= self.words());
                render_words(&words, 2)
            },
            Draw::ColorHEX { color } => {
                let words = vec!["draw", "col", color.as_str()];
                assert(str_views(words@) =~= self.words());
                render_words(&words, 5)
            },
            Draw::Stroke { width } => {
                let words = vec!["draw", "stroke", width.as_str()];
                assert(str_views(words@) =~= self.words());
                render_words(&words, 5)
            },
            Draw::Line { x1, y1, x2, y2 } => {
                let words = vec![
                    "draw",
                    "line",
                    x1.as_str(),
                    y1.as_str(),
                    x2.as_str(),
                    y2.as_str(),
                ];
                assert(str_views(words@) =~= self.words());
                render_words(&words, 2)
            },
            Draw::Rect { x, y, width, height } => {
                let words = vec![
                    "draw",
                    "rect",
                    x.as_str(),
                    y.as_str(),
                    width.as_str(),
                    height.as_str(),
                ];
                assert(str_views(words@) =~= self.words());
                render_words(&words, 2)
            },
        }
    }
}

/// `print text`: appends `text` to the print buffer.
#[derive(Debug, Clone)]
pub struct Print {
    pub text: String,
}

impl Print {
    pub open spec fn words(&self) -> Seq<Seq<char>> {
        seq!["print"@, self.text@]
    }

    pub fn render(&self) -> (r: std::string::String)
        ensures
            r@ == template(self.words(), 0),
    {
        let words = vec!["print", self.text.as_str()];
        assert(str_views(words@) =~= self.words());
        render_words(&words, 0)
    }
}

} // verus!
