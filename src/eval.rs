use crate::processor::Processor;
use crate::string::String;
use vstd::prelude::*;

verus! {

/// Tells which processor, if any, a value belongs to.
pub trait WithCore {
    /// The id of the processor the value belongs to; `None` for a literal.
    spec fn core_spec(&self) -> Option<u64>;

    fn core_id(&self) -> (r: Option<u64>)
        ensures
            r == self.core_spec(),
    ;
}

/// Conversion of an operand into a value of category `T`, resolved against a processor.
pub trait Eval<T: View<V = Seq<char>>>: WithCore + Sized {
    /// Whether the operand can be resolved against `p`: a reference must belong to it.
    spec fn ready(&self, p: &Processor) -> bool;

    /// The operand text the value resolves to.
    spec fn text(&self, p: &Processor) -> Seq<char>;

    fn eval(self, p: &Processor) -> (r: T)
        requires
            self.ready(p),
        ensures
            r@ == self.text(p),
    ;
}

impl WithCore for String {
    open spec fn core_spec(&self) -> Option<u64> {
        None
    }

    fn core_id(&self) -> (r: Option<u64>) {
        None
    }
}

impl Eval<String> for String {
    open spec fn ready(&self, p: &Processor) -> bool {
        true
    }

    open spec fn text(&self, p: &Processor) -> Seq<char> {
        self@
    }

    fn eval(self, p: &Processor) -> (r: String) {
        self
    }
}

impl WithCore for &'static str {
    open spec fn core_spec(&self) -> Option<u64> {
        None
    }

    fn core_id(&self) -> (r: Option<u64>) {
        None
    }
}

impl Eval<String> for &'static str {
    open spec fn ready(&self, p: &Processor) -> bool {
        true
    }

    open spec fn text(&self, p: &Processor) -> Seq<char> {
        self@
    }

    fn eval(self, p: &Processor) -> (r: String) {
        String::Static(self)
    }
}

impl WithCore for std::string::String {
    open spec fn core_spec(&self) -> Option<u64> {
        None
    }

    fn core_id(&self) -> (r: Option<u64>) {
        None
    }
}

impl Eval<String> for std::string::String {
    open spec fn ready(&self, p: &Processor) -> bool {
        true
    }

    open spec fn text(&self, p: &Processor) -> Seq<char> {
        self@
    }

    fn eval(self, p: &Processor) -> (r: String) {
        String::Owned(self)
    }
}

} // verus!
