use mlcg::command::{
    Command, Control, Draw, DrawFlush, GetLink, Op, Operation, Print, PrintFlush, Read,
    SetValue, UnitBind, UnitControl, Write,
};
use mlcg::processor::Processor;
use mlcg::types::building::Building;
use mlcg::types::number::Number;
use mlcg::types::unit::{Corvus, Dagger, Unit, Units};
use mlcg::String;

fn s(text: &str) -> String {
    String::new(text)
}

fn render(c: Command) -> std::string::String {
    c.render()
}

#[test]
fn memory_and_io_lines() {
    assert_eq!(
        render(Command::Read(Read { dst: s("x"), from: s("cell1"), at: 3 })),
        "read x cell1 3"
    );
    assert_eq!(
        render(Command::Write(Write { src: s("x"), to: s("cell1"), at: 0 })),
        "write x cell1 0"
    );
    assert_eq!(render(Command::Print(Print { text: s("\"hi\"") })), "print \"hi\"");
    let flush = Command::DrawFlush(DrawFlush { to: s("display1") });
    assert_eq!(render(flush), "drawflush display1");
    let flush = Command::PrintFlush(PrintFlush { to: s("message1") });
    assert_eq!(render(flush), "printflush message1");
    let link = Command::GetLink(GetLink { result: s("b"), link_to: s("i") });
    assert_eq!(render(link), "getlink b i");
    assert_eq!(render(Command::SetValue(SetValue { result: s("a"), value: s("1") })), "set a 1");
    assert_eq!(render(Command::UnitBind(UnitBind { ty: String::Static("@mono") })), "ubind @mono");
}

#[test]
fn draw_lines_pad_to_six_operands() {
    let cases = [
        (Draw::Clear { r: s("1"), g: s("2"), b: s("3") }, "draw clear 1 2 3 0 0 0"),
        (
            Draw::ColorRGBA { r: s("1"), g: s("2"), b: s("3"), a: s("4") },
            "draw color 1 2 3 4 0 0",
        ),
        (Draw::ColorHEX { color: s("%ff0000") }, "draw col %ff0000 0 0 0 0 0"),
        (Draw::Stroke { width: s("2") }, "draw stroke 2 0 0 0 0 0"),
        (
            Draw::Line { x1: s("1"), y1: s("2"), x2: s("3"), y2: s("4") },
            "draw line 1 2 3 4 0 0",
        ),
        (
            Draw::Rect { x: s("1"), y: s("2"), width: s("3"), height: s("4") },
            "draw rect 1 2 3 4 0 0",
        ),
    ];
    for (d, expected) in cases {
        assert_eq!(render(Command::Draw(d)), expected);
    }
}

#[test]
fn control_lines_pad_to_five_operands() {
    let cases = [
        (Control::Enable { of: s("door1"), enable: s("0") }, "control enabled door1 0 0 0 0"),
        (
            Control::Shoot { of: s("duo1"), x: s("1"), y: s("2"), shoot: s("1") },
            "control shoot duo1 1 2 1 0",
        ),
        (
            Control::Shootp { of: s("duo1"), at: s("@unit"), shoot: s("1") },
            "control shootp duo1 @unit 1 0 0",
        ),
        (
            Control::Config { of: s("sorter1"), to: s("@copper") },
            "control config sorter1 @copper 0 0 0",
        ),
        (Control::Color { of: s("lamp1"), to: s("x") }, "control color lamp1 x 0 0 0"),
    ];
    for (c, expected) in cases {
        assert_eq!(render(Command::Control(c)), expected);
    }
}

#[test]
fn unit_control_lines_pad_to_five_operands() {
    let cases = [
        (UnitControl::Idle, "ucontrol idle 0 0 0 0 0"),
        (UnitControl::Stop, "ucontrol stop 0 0 0 0 0"),
        (UnitControl::Move { x: s("1"), y: s("2") }, "ucontrol move 1 2 0 0 0"),
        (
            UnitControl::Approach { x: s("1"), y: s("2"), radius: s("3") },
            "ucontrol approach 1 2 3 0 0",
        ),
        (UnitControl::PathFind { x: s("1"), y: s("2") }, "ucontrol pathfind 1 2 0 0 0"),
        (UnitControl::AutoPathFind, "ucontrol autoPathfind 0 0 0 0 0"),
        (UnitControl::Boost { enable: s("1") }, "ucontrol boost 1 0 0 0 0"),
        (
            UnitControl::Target { x: s("1"), y: s("2"), shoot: s("1") },
            "ucontrol target 1 2 1 0 0",
        ),
        (UnitControl::Targetp { at: s("u"), shoot: s("1") }, "ucontrol targetp u 1 0 0 0"),
        (UnitControl::ItemDrop { to: s("core"), amount: s("5") }, "ucontrol itemDrop core 5 0 0 0"),
        (
            UnitControl::ItemTake { from: s("core"), item: s("@copper"), amount: s("5") },
            "ucontrol itemTake core @copper 5 0 0",
        ),
        (UnitControl::PayDrop, "ucontrol payDrop 0 0 0 0 0"),
        (UnitControl::PayTake { take_units: s("1") }, "ucontrol payTake 1 0 0 0 0"),
        (UnitControl::PayEnter, "ucontrol payEnter 0 0 0 0 0"),
        (UnitControl::Mine { x: s("1"), y: s("2") }, "ucontrol mine 1 2 0 0 0"),
        (UnitControl::Flag { value: s("9") }, "ucontrol flag 9 0 0 0 0"),
        (
            UnitControl::Within { x: s("1"), y: s("2"), radius: s("3"), result: s("r") },
            "ucontrol within 1 2 3 r 0",
        ),
        (UnitControl::Unbind, "ucontrol unbind 0 0 0 0 0"),
    ];
    for (c, expected) in cases {
        assert_eq!(render(Command::UnitControl(c)), expected);
    }
}

#[test]
fn operation_has_binary_and_unary_shapes() {
    let ops = [
        (Op::Add, "add"),
        (Op::Sub, "sub"),
        (Op::Mul, "mul"),
        (Op::Div, "div"),
        (Op::Rem, "rem"),
        (Op::IDiv, "idiv"),
    ];
    for (op, name) in ops {
        let binary = Operation::Binary { op, result: s("r"), lhs: s("a"), rhs: s("b") };
        assert_eq!(render(Command::Operation(binary)), format!("op {name} r a b"));
        let unary = Operation::Unary { op, result: s("r"), value: s("a") };
        assert_eq!(render(Command::Operation(unary)), format!("op {name} r a"));
    }
}

#[test]
fn unit_orders_through_references() {
    let mut core = Processor::with_id(0);
    let u = core.unit();
    let x = core.new_uninit::<Number, _>("x");
    let b = core.new_uninit::<Building, _>("vault1");
    u.idle(&mut core);
    u.move_(&mut core, x, 2);
    u.approach(&mut core, x, 2, 3);
    u.path_find(&mut core, 1, x);
    u.auto_path_find(&mut core);
    u.boost(&mut core, true);
    u.targetp::<Unit, _, _>(&mut core, u, false);
    u.item_drop(&mut core, b, 10);
    u.item_take(&mut core, b, "@copper", 10);
    u.pay_drop(&mut core);
    u.pay_take(&mut core, 1);
    u.pay_enter(&mut core);
    u.mine(&mut core, x, x);
    u.flag(&mut core, 42);
    let near = u.within(&mut core, x, 2, 5);
    u.unbind(&mut core);
    assert_eq!(core.borrow().get_variable(near.idx).as_str(), "v0");
    assert_eq!(
        core.generate(),
        "ucontrol idle 0 0 0 0 0\n\
         ucontrol move x 2 0 0 0\n\
         ucontrol approach x 2 3 0 0\n\
         ucontrol pathfind 1 x 0 0 0\n\
         ucontrol autoPathfind 0 0 0 0 0\n\
         ucontrol boost 1 0 0 0 0\n\
         ucontrol targetp @unit 0 0 0 0\n\
         ucontrol itemDrop vault1 10 0 0 0\n\
         ucontrol itemTake vault1 @copper 10 0 0\n\
         ucontrol payDrop 0 0 0 0 0\n\
         ucontrol payTake 1 0 0 0 0\n\
         ucontrol payEnter 0 0 0 0 0\n\
         ucontrol mine x x 0 0 0\n\
         ucontrol flag 42 0 0 0 0\n\
         ucontrol within x 2 5 v0 0\n\
         ucontrol unbind 0 0 0 0 0\n"
    );
}

#[test]
fn building_shoots_through_control() {
    let mut core = Processor::with_id(0);
    let turret = core.new_uninit::<Building, _>("ripple1");
    let target = core.new_uninit::<Unit, _>("enemy");
    let (x, y) = (core.thisx(), core.thisy());
    turret.shoot(&mut core, x, y, true);
    turret.shootp::<Unit, _, _>(&mut core, target, 1);
    assert_eq!(
        core.generate(),
        "control shoot ripple1 @thisx @thisy 1 0\ncontrol shootp ripple1 enemy 1 0 0\n"
    );
}

#[test]
fn unit_class_names() {
    let u = Unit::<Dagger> { name: s("d"), _unit: std::marker::PhantomData };
    assert_eq!(u.class_name(), "@dagger");
    assert_eq!(Corvus::class_name(), "@corvus");
}

#[test]
fn operand_text_views() {
    let owned = String::new("abc");
    let fixed = String::Static("abc");
    assert_eq!(owned.as_str(), fixed.as_str());
    assert!(String::Static("").is_empty());
    assert!(!owned.is_empty());
    assert_eq!(owned.clone().to_string(), "abc");
}

#[test]
fn families_convert_into_command() {
    let print: Command = Print { text: s("x") }.into();
    assert_eq!(print.render(), "print x");
    let op = Command::from(Operation::Unary { op: Op::Sub, result: s("r"), value: s("a") });
    assert_eq!(op.render(), "op sub r a");
    let order: Command = UnitControl::Boost { enable: s("0") }.into();
    assert_eq!(order.render(), "ucontrol boost 0 0 0 0 0");
    let mut core = Processor::with_id(0);
    core.push_command(SetValue { result: s("a"), value: s("b") }.into());
    core.push_command(Control::Enable { of: s("door1"), enable: s("1") }.into());
    assert_eq!(core.generate(), "set a b\ncontrol enabled door1 1 0 0 0\n");
}
