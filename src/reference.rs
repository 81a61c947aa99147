use crate::command::{template, Command, SetValue};
use crate::eval::{Eval, WithCore};
use crate::processor::{anonymous_step, auto_name, named_step, Processor, VariableIdx};
use crate::string::String;
use crate::types::Type;
use std::marker::PhantomData;
use vstd::prelude::*;

verus! {

/// A typed handle to a variable of a processor: the processor's id, the variable, and the
/// category `T` of what the variable holds. It owns nothing and is freely copied.
#[derive(Debug)]
pub struct Ref<T> {
    pub core: u64,
    pub idx: VariableIdx,
    pub _type: PhantomData<T>,
}

impl<T> Clone for Ref<T> {
    fn clone(&self) -> (r: Self)
        ensures
            r == *self,
    {
        Ref { core: self.core, idx: self.idx, _type: PhantomData }
    }
}

impl<T> Copy for Ref<T> {
}

impl<T: Type> Ref<T> {
    /// Copies the variable into a new one called `name` (a generated name when `name` is
    /// empty) and returns a reference to the copy.
    pub fn save_as<S: Eval<String>>(&self, p: &mut Processor, name: S) -> (r: Ref<T>)
        requires
            old(p).owns(*self),
            name.ready(old(p)),
            name.text(old(p)).len() == 0 ==> old(p).counter_value() < usize::MAX,
        ensures
            ({
                let given = name.text(old(p));
                let result = if given.len() == 0 {
                    auto_name(old(p).counter_value())
                } else {
                    given
                };
                &&& final(p).id() == old(p).id()
                &&& final(p).lines() == old(p).lines().push(
                    template(seq!["set"@, result, old(p).name_of(self.idx)], 0),
                )
                &&& final(p).names() == old(p).names().push(result)
                &&& final(p).name_of(r.idx) == result
                &&& if given.len() == 0 {
                    anonymous_step(*old(p), *final(p))
                } else {
                    named_step(*old(p), *final(p), given)
                }
            }),
            r.core == old(p).id(),
            r.idx == VariableIdx::Allocated(old(p).names().len() as usize),
            final(p).owns(r),
    {
        let name = name.eval(p);
        let result = if name.is_empty() {
            p.alloc_name()
        } else {
            name
        };
        let value = p.get_variable(self.idx);
        let set = SetValue { result: result.clone(), value };
        p.push_command(Command::SetValue(set));
        let idx = p.new_variable(result);
        p.make_ref(idx)
    }

    /// Stores `value` into the variable.
    pub fn set_to<V: Eval<T>>(&self, p: &mut Processor, value: V)
        requires
            old(p).owns(*self),
            value.ready(old(p)),
        ensures
            final(p).appended(
                *old(p),
                template(seq!["set"@, old(p).name_of(self.idx), value.text(old(p))], 0),
            ),
    {
        let result = p.get_variable(self.idx);
        let value = value.eval(p).into_name();
        let command = SetValue { result, value };
        p.push_command(Command::SetValue(command));
    }

    /// The same variable, seen as holding a `T2`.
    pub fn cast<T2: Type>(self) -> (r: Ref<T2>)
        ensures
            r.core == self.core,
            r.idx == self.idx,
    {
        Ref { core: self.core, idx: self.idx, _type: PhantomData }
    }
}

impl<T> WithCore for Ref<T> {
    open spec fn core_spec(&self) -> Option<u64> {
        Some(self.core)
    }

    fn core_id(&self) -> (r: Option<u64>) {
        Some(self.core)
    }
}

impl<T: Type> Eval<T> for Ref<T> {
    open spec fn ready(&self, p: &Processor) -> bool {
        p.owns(*self)
    }

    open spec fn text(&self, p: &Processor) -> Seq<char> {
        p.name_of(self.idx)
    }

    fn eval(self, p: &Processor) -> (r: T) {
        T::from_name(p.get_variable(self.idx))
    }
}

impl<T: Type> Eval<String> for Ref<T> {
    open spec fn ready(&self, p: &Processor) -> bool {
        p.owns(*self)
    }

    open spec fn text(&self, p: &Processor) -> Seq<char> {
        p.name_of(self.idx)
    }

    fn eval(self, p: &Processor) -> (r: String) {
        p.get_variable(self.idx)
    }
}

} // verus!
