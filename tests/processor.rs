use mlcg::processor::{Processor, Register, VariableIdx};
use mlcg::types::number::Number;
use mlcg::command::{Command, Print, PrintFlush};
use mlcg::types::unit::{Binding, Dagger, Nova, Unit};
use mlcg::String;

fn name_of(core: &Processor, idx: VariableIdx) -> std::string::String {
    core.borrow().get_variable(idx).as_str().to_owned()
}

#[test]
fn test_name() {
    let mut core = Processor::with_id(0);
    let a = core.new_uninit::<Number, _>("abcd");
    a.add_assign(&mut core, 1);
    let out = core.generate();
    println!("{out}");
    assert_eq!(out, "op add abcd abcd 1\n");
}

#[test]
fn shoot() {
    let mut core = Processor::with_id(0);
    let at_unit = core.unit();
    let (x, y) = (core.thisx(), core.thisy());
    at_unit.target(&mut core, x, y, true);

    let _awa = at_unit.save_as(&mut core, "awa");
    let awa = core.from_mdt::<Unit, _>("awa");
    awa.bind(&mut core).target(&mut core, x, y, true);

    let out = core.generate();
    println!("{out}");
    assert_eq!(
        out,
        "ucontrol target @thisx @thisy 1 0 0\n\
         set awa @unit\n\
         set @unit awa\n\
         ucontrol target @thisx @thisy 1 0 0\n"
    );
}

#[test]
fn generated_names_count_anonymous_declarations_only() {
    let mut core = Processor::with_id(0);
    let a = core.new_unnamed::<Number>();
    let named = core.new_uninit::<Number, _>("speed");
    let b = core.new_unnamed::<Number>();
    let c = core.from_mdt::<Number, _>("cell1");
    let d = core.new_unnamed::<Number>();
    assert_eq!(name_of(&core, a.idx), "v0");
    assert_eq!(name_of(&core, named.idx), "speed");
    assert_eq!(name_of(&core, b.idx), "v1");
    assert_eq!(name_of(&core, c.idx), "cell1");
    assert_eq!(name_of(&core, d.idx), "v2");
    assert_eq!(core.borrow().alloc, 3);
}

#[test]
fn generated_names_reach_two_digits() {
    let mut core = Processor::with_id(0);
    let mut last = core.new_unnamed::<Number>();
    for _ in 0..11 {
        last = core.new_unnamed::<Number>();
    }
    assert_eq!(name_of(&core, last.idx), "v11");
}

#[test]
fn save_as_with_empty_name_takes_a_generated_one() {
    let mut core = Processor::with_id(0);
    let a = core.new_uninit::<Number, _>("a");
    let copy = a.save_as(&mut core, "");
    let named = a.save_as(&mut core, "b");
    assert_eq!(name_of(&core, copy.idx), "v0");
    assert_eq!(name_of(&core, named.idx), "b");
    assert_eq!(core.generate(), "set v0 a\nset b a\n");
}

#[test]
fn declarations_never_yield_a_register() {
    let mut core = Processor::with_id(0);
    for i in 0..200 {
        let r = if i % 2 == 0 {
            core.new_unnamed::<Number>()
        } else {
            core.new_uninit::<Number, _>("x")
        };
        assert!(matches!(r.idx, VariableIdx::Allocated(_)));
        assert_eq!(r.idx, VariableIdx::Allocated(i));
    }
    assert_eq!(name_of(&core, VariableIdx::Reserved(Register::Unit)), "@unit");
    assert_eq!(name_of(&core, VariableIdx::Reserved(Register::Counter)), "@counter");
}

#[test]
fn registers_have_their_spellings() {
    let core = Processor::with_id(0);
    let cases = [
        (core.unit().idx, "@unit"),
        (core.thisx().idx, "@thisx"),
        (core.thisy().idx, "@thisy"),
        (core.counter().idx, "@counter"),
        (core.links().idx, "@links"),
        (core.ipt().idx, "@ipt"),
        (core.time().idx, "@time"),
        (core.tick().idx, "@tick"),
        (core.mapw().idx, "@mapw"),
        (core.maph().idx, "@maph"),
        (core.count().idx, "@count"),
    ];
    for (idx, spelling) in cases {
        assert_eq!(name_of(&core, idx), spelling);
    }
}

#[test]
fn set_to_stores_into_existing_variable() {
    let mut core = Processor::with_id(0);
    let a = core.new_uninit::<Number, _>("a");
    let b = core.new_uninit::<Number, _>("b");
    a.set_to(&mut core, b);
    a.set_to(&mut core, 7);
    a.set_to(&mut core, Number::Variable(String::new("1.5")));
    assert_eq!(core.borrow().variables.len(), 2);
    assert_eq!(core.generate(), "set a b\nset a 7\nset a 1.5\n");
}

#[test]
fn cast_keeps_the_variable() {
    let mut core = Processor::with_id(0);
    let n = core.new_uninit::<Number, _>("thing");
    let u = n.cast::<Unit>();
    assert_eq!(u.idx, n.idx);
    assert_eq!(u.core, n.core);
    u.idle(&mut core);
    assert_eq!(core.generate(), "ucontrol idle 0 0 0 0 0\n");
}

#[test]
fn program_keeps_push_order() {
    let mut core = Processor::with_id(0);
    let n: usize = 25;
    for i in 0..n {
        let text = format!("\"line {i}\"");
        core.push_command(Command::Print(Print { text: String::new(&text) }));
    }
    core.push_command(Command::PrintFlush(PrintFlush { to: String::new("message1") }));
    let out = core.generate();
    let lines: Vec<&str> = out.lines().collect();
    assert_eq!(lines.len(), n + 1);
    assert_eq!(out.matches('\n').count(), n + 1);
    for (i, line) in lines.iter().take(n).enumerate() {
        assert_eq!(*line, format!("print \"line {i}\""));
    }
    assert_eq!(lines[n], "printflush message1");
}

#[test]
fn empty_program_is_empty_text() {
    assert_eq!(Processor::with_id(0).generate(), "");
}

#[test]
fn references_of_another_processor_are_refused() {
    let mut p = Processor::with_id(1);
    let mut q = Processor::with_id(2);
    let mine = p.new_uninit::<Number, _>("a");
    let theirs = q.new_uninit::<Number, _>("b");
    assert!(p.accepts(&mine));
    assert!(!p.accepts(&theirs));
    assert!(!q.accepts(&mine));
    assert!(p.accepts(&5i64));
    assert!(p.accepts(&"text"));
    assert!(!p.is_same_core(&q));
    assert!(p.is_same_core(&p));
}

#[test]
fn unit_bind_names_the_class() {
    let mut core = Processor::with_id(0);
    core.unit_bind::<Dagger>();
    core.unit_bind::<Nova>();
    core.unit_bind::<Binding>();
    assert_eq!(core.generate(), "ubind @dagger\nubind @nova\nubind @unit\n");
}

#[test]
fn table_positions_are_allocated_identifiers() {
    assert_eq!(VariableIdx::from(3), VariableIdx::Allocated(3));
    let mut core = Processor::with_id(0);
    let a = core.new_uninit::<Number, _>("a");
    assert_eq!(a.idx, VariableIdx::from(0));
}

#[test]
fn owned_operand_text() {
    assert!(matches!(String::new("abc"), String::Owned(_)));
}
