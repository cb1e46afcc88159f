use codegen_gcc::ir::SlotName;
use codegen_gcc::names::push_decimal;

#[test]
fn numbered_names_carry_their_number_in_decimal() {
    assert_eq!(SlotName::ReturnValue { serial: 1 }.text(), "returnValue1");
    assert_eq!(SlotName::ReturnValue { serial: 9 }.text(), "returnValue9");
    assert_eq!(SlotName::ReturnValue { serial: 10 }.text(), "returnValue10");
    assert_eq!(SlotName::ReturnValue { serial: 405 }.text(), "returnValue405");
    assert_eq!(SlotName::LoadedValue { serial: 12 }.text(), "loadedValue12");
    assert_eq!(SlotName::LoadedValue { serial: 1000000 }.text(), "loadedValue1000000");
    assert_eq!(SlotName::ReturnValue { serial: 0 }.text(), "returnValue0");
    assert_eq!(
        SlotName::LoadedValue { serial: usize::MAX }.text(),
        format!("loadedValue{}", usize::MAX)
    );
}

#[test]
fn other_names_are_their_stem() {
    assert_eq!(SlotName::AndResult.text(), "andResult");
    assert_eq!(SlotName::OrResult.text(), "orResult");
    assert_eq!(SlotName::BinopResult.text(), "binopResult");
    assert_eq!(SlotName::StackVar.text(), "stack_var");
    assert_eq!(SlotName::LoopVar.text(), "loop_var");
    assert_eq!(SlotName::SelectVar.text(), "selectVar");
    assert_eq!(SlotName::VectorVar.text(), "vectorVar");
    assert_eq!(SlotName::UnreachableReturn.text(), "unreachableReturn");
    assert_eq!(SlotName::Undefined.text(), "undefined");
}

#[test]
fn stems_and_numbers() {
    assert_eq!(SlotName::ReturnValue { serial: 7 }.stem(), "returnValue");
    assert_eq!(SlotName::ReturnValue { serial: 7 }.number(), Some(7));
    assert_eq!(SlotName::LoadedValue { serial: 8 }.stem(), "loadedValue");
    assert_eq!(SlotName::LoadedValue { serial: 8 }.number(), Some(8));
    assert_eq!(SlotName::SelectVar.number(), None);
}

#[test]
fn decimal_digits_agree_with_the_standard_rendering() {
    for n in (0..2000).chain([9_999, 10_000, 123_456_789, usize::MAX - 1, usize::MAX]) {
        let mut text = String::from("x");
        push_decimal(&mut text, n);
        assert_eq!(text, format!("x{n}"));
    }
}

#[test]
fn numbered_names_with_different_numbers_differ() {
    let mut seen = std::collections::HashSet::new();
    for serial in 1..500 {
        assert!(seen.insert(SlotName::ReturnValue { serial }.text()));
        assert!(seen.insert(SlotName::LoadedValue { serial }.text()));
    }
    assert_eq!(seen.len(), 998);
}
