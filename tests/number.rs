use mlcg::numeral::{int_to_text, nat_to_text, parse_immediate};
use mlcg::processor::{Processor, VariableIdx};
use mlcg::types::number::Number;
use mlcg::String;

fn name_of(core: &Processor, idx: VariableIdx) -> std::string::String {
    core.borrow().get_variable(idx).as_str().to_owned()
}

#[test]
fn operator() {
    let mut core = Processor::with_id(0);
    let a = core.from_mdt::<Number, _>("a");
    let b = core.from_mdt::<Number, _>("b");

    let c = a.add(&mut core, b);
    let d = c.add(&mut core, 114514);
    let e = d.add(&mut core, false);
    let _f = e.add(&mut core, Number::Variable(String::new("1919.810")));

    let out = core.generate();
    println!("{out}");
    assert_eq!(
        out,
        "op add v0 a b\n\
         op add v1 v0 114514\n\
         op add v2 v1 0\n\
         op add v3 v2 1919.810\n"
    );
}

#[test]
fn operator_assign() {
    let mut core = Processor::with_id(0);
    let a = core.from_mdt::<Number, _>("a");
    let b = core.from_mdt::<Number, _>("b");
    a.add_assign(&mut core, b);
    b.add_assign(&mut core, a);
    let _c = a.add(&mut core, b);

    let out = core.generate();
    println!("{out}");
    assert_eq!(out, "op add a a b\nop add b b a\nop add v0 a b\n");
}

#[test]
fn end_to_end_symbolic_sum() {
    let mut core = Processor::with_id(0);
    let a = core.new_uninit::<Number, _>("a");
    let b = core.new_uninit::<Number, _>("b");
    let sum = a.add(&mut core, b);
    let _total = sum.add(&mut core, 5);
    assert_eq!(core.generate(), "op add v0 a b\nop add v1 v0 5\n");
}

#[test]
fn immediates_fold_without_instructions() {
    let mut core = Processor::with_id(0);
    let x = core.new_uninit::<Number, _>("1");
    let y = x.add(&mut core, 2);
    let z = y.add(&mut core, 3);
    assert_eq!(name_of(&core, y.idx), "3");
    assert_eq!(name_of(&core, z.idx), "6");
    assert_eq!(core.borrow().alloc, 0);
    assert_eq!(core.generate(), "");
}

#[test]
fn symbolic_operand_emits_one_instruction_each() {
    let mut core = Processor::with_id(0);
    let x = core.new_uninit::<Number, _>("x");
    let y = x.add(&mut core, 2);
    let z = y.mul(&mut core, 3);
    assert_eq!(name_of(&core, z.idx), "v1");
    assert_eq!(core.generate(), "op add v0 x 2\nop mul v1 v0 3\n");
}

#[test]
fn every_operator_folds() {
    let mut core = Processor::with_id(0);
    let x = core.new_uninit::<Number, _>("17");
    let cases = [
        (x.add(&mut core, 5), "22"),
        (x.sub(&mut core, 20), "-3"),
        (x.mul(&mut core, -2), "-34"),
        (x.div(&mut core, 17), "1"),
        (x.rem(&mut core, 5), "2"),
    ];
    for (r, expected) in cases {
        assert_eq!(name_of(&core, r.idx), expected);
    }
    assert_eq!(core.generate(), "");
}

#[test]
fn inexact_or_undefined_results_are_not_folded() {
    let mut core = Processor::with_id(0);
    let x = core.new_uninit::<Number, _>("7");
    let _q = x.div(&mut core, 2);
    let _z = x.div(&mut core, 0);
    let _r = x.rem(&mut core, 0);
    let big = core.new_uninit::<Number, _>("9223372036854775807");
    let _o = big.add(&mut core, 1);
    let min = core.new_uninit::<Number, _>("-9223372036854775808");
    let _m = min.div(&mut core, -1);
    assert_eq!(
        core.generate(),
        "op div v0 7 2\n\
         op div v1 7 0\n\
         op rem v2 7 0\n\
         op add v3 9223372036854775807 1\n\
         op div v4 -9223372036854775808 -1\n"
    );
}

#[test]
fn numeric_names_are_written_canonically() {
    let mut core = Processor::with_id(0);
    let x = core.new_uninit::<Number, _>("007");
    let y = core.new_uninit::<Number, _>("y");
    let _s = y.sub(&mut core, x);
    let n = core.new_uninit::<Number, _>("-0");
    let _t = y.add(&mut core, n);
    assert_eq!(core.generate(), "op sub v0 y 7\nop add v1 y 0\n");
}

#[test]
fn registers_stay_symbolic() {
    let mut core = Processor::with_id(0);
    let x = core.thisx();
    let _half = x.div(&mut core, 2);
    let counter = core.counter();
    counter.add_assign(&mut core, 1);
    assert_eq!(core.generate(), "op div v0 @thisx 2\nop add @counter @counter 1\n");
}

#[test]
fn compound_assignment_never_folds() {
    let mut core = Processor::with_id(0);
    let x = core.new_uninit::<Number, _>("4");
    x.add_assign(&mut core, 1);
    x.sub_assign(&mut core, 2);
    x.mul_assign(&mut core, 3);
    x.div_assign(&mut core, 4);
    x.rem_assign(&mut core, 5);
    assert_eq!(
        core.generate(),
        "op add 4 4 1\nop sub 4 4 2\nop mul 4 4 3\nop div 4 4 4\nop rem 4 4 5\n"
    );
}

#[test]
fn normalize_reads_numeric_literals() {
    assert!(matches!(Number::Variable(String::new("42")).normalize(), Number::Immediate(42)));
    assert!(matches!(Number::Variable(String::new("-42")).normalize(), Number::Immediate(-42)));
    assert!(matches!(Number::Variable(String::new("4.2")).normalize(), Number::Variable(_)));
    assert!(matches!(Number::Variable(String::new("-")).normalize(), Number::Variable(_)));
    assert!(matches!(Number::Variable(String::new("")).normalize(), Number::Variable(_)));
    assert!(matches!(Number::Immediate(5).normalize(), Number::Immediate(5)));
}

#[test]
fn immediates_are_parsed_within_i64() {
    assert_eq!(parse_immediate("0"), Some(0));
    assert_eq!(parse_immediate("0042"), Some(42));
    assert_eq!(parse_immediate("-17"), Some(-17));
    assert_eq!(parse_immediate("9223372036854775807"), Some(i64::MAX));
    assert_eq!(parse_immediate("-9223372036854775808"), Some(i64::MIN));
    assert_eq!(parse_immediate("9223372036854775808"), None);
    assert_eq!(parse_immediate("-9223372036854775809"), None);
    assert_eq!(parse_immediate("123456789012345678901234567890"), None);
    assert_eq!(parse_immediate("12a"), None);
    assert_eq!(parse_immediate("-"), None);
    assert_eq!(parse_immediate(""), None);
    assert_eq!(parse_immediate("+1"), None);
}

#[test]
fn integers_are_spelled_in_decimal() {
    assert_eq!(int_to_text(0), "0");
    assert_eq!(int_to_text(-1), "-1");
    assert_eq!(int_to_text(1234567), "1234567");
    assert_eq!(int_to_text(i64::MIN), "-9223372036854775808");
    assert_eq!(int_to_text(i64::MAX), "9223372036854775807");
    assert_eq!(nat_to_text(u64::MAX), "18446744073709551615");
}

#[test]
fn quotients_and_remainders_fold_toward_zero() {
    let mut core = Processor::with_id(0);
    let neg_six = core.new_uninit::<Number, _>("-6");
    let neg_seven = core.new_uninit::<Number, _>("-7");
    let seven = core.new_uninit::<Number, _>("7");
    let min = core.new_uninit::<Number, _>("-9223372036854775808");
    let cases = [
        (neg_six.div(&mut core, 2), "-3"),
        (neg_six.div(&mut core, -3), "2"),
        (seven.div(&mut core, -7), "-1"),
        (neg_seven.rem(&mut core, 3), "-1"),
        (seven.rem(&mut core, -3), "1"),
        (neg_seven.rem(&mut core, -3), "-1"),
        (min.rem(&mut core, -1), "0"),
        (seven.div(&mut core, -1), "-7"),
    ];
    for (r, expected) in cases {
        assert_eq!(name_of(&core, r.idx), expected);
    }
    assert_eq!(core.generate(), "");
}

#[test]
fn folded_result_reads_back_as_immediate() {
    let mut core = Processor::with_id(0);
    let x = core.from_mdt::<Number, _>("1");
    let y = x.add(&mut core, 2).add(&mut core, 3);
    assert!(matches!(y.read(&core), Number::Immediate(6)));
    let named = core.new_uninit::<Number, _>("speed");
    assert!(matches!(named.read(&core), Number::Variable(_)));
    let padded = core.new_uninit::<Number, _>("007");
    assert!(matches!(padded.read(&core), Number::Variable(_)));
    assert_eq!(core.generate(), "");
}

#[test]
fn read_keeps_canonical_numerals_only() {
    assert!(matches!(Number::read(String::new("-12")), Number::Immediate(-12)));
    assert!(matches!(Number::read(String::new("0")), Number::Immediate(0)));
    assert!(matches!(Number::read(String::new("-0")), Number::Variable(_)));
    assert!(matches!(Number::read(String::new("+3")), Number::Variable(_)));
    assert!(matches!(Number::read(String::new("x")), Number::Variable(_)));
}
