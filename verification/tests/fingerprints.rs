use rsfunge::interpreter::fingerprint::standard::{
    create_null_fingerprint, inst_null, NULL_FINGERPRINT_ID,
};
use rsfunge::interpreter::fingerprint::{
    Fingerprint, FingerprintInstFunction, FingerprintName, FingerprintRegistry, SimpleFingerprint,
    ALPHABET_SIZE,
};
use rsfunge::interpreter::instruction::{
    AlphabetInstructionTable, InstructionAlphabet, InstructionTable,
};
use rsfunge::interpreter::{
    FungeDim2, FungeInterpreter, FungeThread, HostReply, HostRequest, SpaceAccessorDim2,
    StepResult,
};
use rsfunge::io::{CodeBuffer, CodeBufferLine, CodeSource, LineTerminator};
use rsfunge::vector::Vector3;
use rsfunge::FungeDialect;
use std::rc::Rc;

fn fingerprint(fid: u32, letters: &[(u8, u32)]) -> Rc<SimpleFingerprint> {
    let mut insts = [None; 26];
    for (letter, number) in letters {
        insts[(*letter - b'A') as usize] = Some(FingerprintInstFunction::Host(*number));
    }
    Rc::new(SimpleFingerprint::new(FingerprintName::from_fid(fid), insts))
}

#[test]
fn names_are_big_endian() {
    let name = FingerprintName::from_fid(0x4e554c4c);
    assert_eq!(&name.get_ascii_name(), b"NULL");
    assert_eq!(name.get_fid(), 0x4e554c4c);
    let name = FingerprintName::from_fid(0x524f4d41);
    assert_eq!(&name.get_ascii_name(), b"ROMA");
    assert_eq!(FingerprintName::from_fid(u32::MAX).get_ascii_name(), [255, 255, 255, 255]);
    assert_eq!(FingerprintName::from_fid(1).get_ascii_name(), [0, 0, 0, 1]);
}

#[test]
fn the_later_fingerprint_overrides_until_it_is_unloaded() {
    let f1 = fingerprint(1, &[(b'A', 1)]);
    let f2 = fingerprint(2, &[(b'A', 2)]);
    let mut table = AlphabetInstructionTable::new();
    assert_eq!(table.find_inst(0), None);
    table.push_fingerprint(&f1);
    assert_eq!(table.find_inst(0), Some(FingerprintInstFunction::Host(1)));
    table.push_fingerprint(&f2);
    assert_eq!(table.find_inst(0), Some(FingerprintInstFunction::Host(2)));
    let unloaded = table.pop_fingerprint().unwrap();
    assert_eq!(unloaded.get_name().get_fid(), 2);
    assert_eq!(table.find_inst(0), Some(FingerprintInstFunction::Host(1)));
    let unloaded = table.pop_fingerprint().unwrap();
    assert_eq!(unloaded.get_name().get_fid(), 1);
    assert_eq!(table.find_inst(0), None);
    assert!(table.pop_fingerprint().is_none());
    assert_eq!(table.find_inst(0), None);
}

#[test]
fn unloading_looks_back_letter_by_letter() {
    let f1 = fingerprint(1, &[(b'A', 10), (b'B', 11)]);
    let f2 = fingerprint(2, &[(b'B', 21), (b'Z', 22)]);
    let f3 = fingerprint(3, &[(b'A', 30), (b'Z', 32)]);
    let mut table = AlphabetInstructionTable::new();
    table.push_fingerprint(&f1);
    table.push_fingerprint(&f2);
    table.push_fingerprint(&f3);
    assert_eq!(table.find_inst(0), Some(FingerprintInstFunction::Host(30)));
    assert_eq!(table.find_inst(1), Some(FingerprintInstFunction::Host(21)));
    assert_eq!(table.find_inst(25), Some(FingerprintInstFunction::Host(32)));
    assert_eq!(table.find_inst(2), None);
    table.pop_fingerprint();
    assert_eq!(table.find_inst(0), Some(FingerprintInstFunction::Host(10)));
    assert_eq!(table.find_inst(1), Some(FingerprintInstFunction::Host(21)));
    assert_eq!(table.find_inst(25), Some(FingerprintInstFunction::Host(22)));
    table.pop_fingerprint();
    assert_eq!(table.find_inst(0), Some(FingerprintInstFunction::Host(10)));
    assert_eq!(table.find_inst(1), Some(FingerprintInstFunction::Host(11)));
    assert_eq!(table.find_inst(25), None);
}

#[test]
fn the_same_fingerprint_can_be_loaded_twice() {
    let f1 = fingerprint(1, &[(b'C', 5)]);
    let mut table = AlphabetInstructionTable::new();
    table.push_fingerprint(&f1);
    table.push_fingerprint(&f1);
    table.pop_fingerprint();
    assert_eq!(table.find_inst(2), Some(FingerprintInstFunction::Host(5)));
    table.pop_fingerprint();
    assert_eq!(table.find_inst(2), None);
}

#[test]
fn the_registry_finds_what_was_registered() {
    let mut registry = FingerprintRegistry::new();
    assert!(registry.find_fingerprint(7).is_none());
    registry.register_fingerprint(fingerprint(7, &[(b'A', 1)]));
    registry.register_fingerprint(fingerprint(8, &[(b'A', 2)]));
    let found = registry.find_fingerprint(7).unwrap();
    assert_eq!(found.get_name().get_fid(), 7);
    let mut letters = [None; 26];
    found.get_alphabet_instructions(&mut letters);
    assert_eq!(letters[0], Some(FingerprintInstFunction::Host(1)));
    assert_eq!(letters[1], None);
    assert!(registry.find_fingerprint(9).is_none());
}

#[test]
fn registering_again_replaces() {
    let mut registry = FingerprintRegistry::new();
    registry.register_fingerprint(fingerprint(7, &[(b'A', 1)]));
    registry.register_fingerprint(fingerprint(7, &[(b'B', 2)]));
    let mut letters = [None; 26];
    registry.find_fingerprint(7).unwrap().get_alphabet_instructions(&mut letters);
    assert_eq!(letters[0], None);
    assert_eq!(letters[1], Some(FingerprintInstFunction::Host(2)));
}

#[test]
fn the_null_fingerprint_supplies_every_letter() {
    let null = create_null_fingerprint();
    assert_eq!(null.get_name().get_fid(), NULL_FINGERPRINT_ID);
    assert_eq!(&null.get_name().get_ascii_name(), b"NULL");
    let mut letters = [Some(FingerprintInstFunction::Host(3)); 26];
    null.get_alphabet_instructions(&mut letters);
    assert_eq!(ALPHABET_SIZE, 26);
    for letter in letters.iter() {
        assert_eq!(*letter, Some(FingerprintInstFunction::Null));
    }
}

#[test]
fn the_null_instruction_changes_nothing() {
    let mut thread = FungeThread::new(Vector3::new_xyz(3, 4, 5), Vector3::new_xyz(0, 1, 0));
    thread.stack_stack.push(8);
    inst_null(&mut thread);
    assert_eq!(thread.ip.elements, [3, 4, 5]);
    assert_eq!(thread.delta.elements, [0, 1, 0]);
    assert_eq!(thread.stack_stack.pop(), 8);
    assert_eq!(thread.stack_stack.top_stack().depth(), 0);
}

#[test]
fn alphabets_are_stacked() {
    let first = InstructionAlphabet { instructions: [None; 26] };
    let second = InstructionAlphabet { instructions: [None; 26] };
    let mut table = InstructionTable::new();
    assert!(table.top_alphabet().is_none());
    assert!(table.pop_alphabet().is_none());
    table.push_alphabet(&first);
    table.push_alphabet(&second);
    assert!(std::ptr::eq(table.top_alphabet().unwrap(), &second));
    assert!(std::ptr::eq(table.pop_alphabet().unwrap(), &second));
    assert!(std::ptr::eq(table.top_alphabet().unwrap(), &first));
    assert!(table.pop_alphabet().is_some());
    assert!(table.top_alphabet().is_none());
}

fn program(text: &str) -> FungeInterpreter<FungeDim2, SpaceAccessorDim2<i32>> {
    let source = CodeSource::new(String::from("test.bf"), Some(FungeDialect::Befunge98));
    let mut interpreter =
        FungeInterpreter::new(FungeDialect::Befunge98, source, vec![0], vec![0, 0, 0]);
    let data: Vec<u32> = text.chars().map(|c| c as u32).collect();
    let width = data.len() as u32;
    let lines = vec![CodeBufferLine { data, terminator: LineTerminator::End }];
    interpreter.load_initial_code(&CodeBuffer::new(lines, Vector3::new_xyz(width, 1, 1), 0));
    interpreter
}

#[test]
fn a_letter_with_an_override_asks_the_host() {
    let mut interpreter = program("1A2@");
    let f1 = fingerprint(1, &[(b'A', 44)]);
    interpreter.thread_mut(0).unwrap().alphabet_inst_table.push_fingerprint(&f1);
    assert_eq!(interpreter.step(HostReply::Done), StepResult::Continue);
    assert_eq!(interpreter.step(HostReply::Done), StepResult::Request(HostRequest::Invoke(44)));
    assert_eq!(interpreter.step(HostReply::Done), StepResult::Continue);
    let thread = interpreter.thread_mut(0).unwrap();
    assert_eq!(thread.ip.elements, [2, 0, 0]);
    assert_eq!(thread.delta.elements, [1, 0, 0]);
}

#[test]
fn a_letter_that_the_host_does_not_know_turns_round() {
    let mut interpreter = program("1A2@");
    let f1 = fingerprint(1, &[(b'A', 44)]);
    interpreter.thread_mut(0).unwrap().alphabet_inst_table.push_fingerprint(&f1);
    interpreter.step(HostReply::Done);
    assert_eq!(interpreter.step(HostReply::Done), StepResult::Request(HostRequest::Invoke(44)));
    assert_eq!(interpreter.step(HostReply::Failed), StepResult::Continue);
    let thread = interpreter.thread_mut(0).unwrap();
    assert_eq!(thread.ip.elements, [0, 0, 0]);
    assert_eq!(thread.delta.elements, [-1, 0, 0]);
}

#[test]
fn a_letter_of_the_null_fingerprint_does_nothing() {
    let mut interpreter = program("1A2@");
    let null: Rc<SimpleFingerprint> = Rc::from(create_null_fingerprint());
    interpreter.thread_mut(0).unwrap().alphabet_inst_table.push_fingerprint(&null);
    interpreter.step(HostReply::Done);
    assert_eq!(interpreter.step(HostReply::Done), StepResult::Continue);
    let thread = interpreter.thread_mut(0).unwrap();
    assert_eq!(thread.ip.elements, [2, 0, 0]);
    assert_eq!(thread.delta.elements, [1, 0, 0]);
    assert_eq!(thread.stack_stack.top_stack().depth(), 1);
}
