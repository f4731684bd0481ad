use libvmr::assembler::Assembler;
use libvmr::linker::{LinkError, Linker, ObjectLoadError};
use libvmr::object::{ObjectFile, ObjectParseErr};
use libvmr::vm::{RuntimeError, VirtualMachine};

fn object(name: &str, src: &str) -> Vec<u8> {
    let mut a = Assembler::new(name);
    a.assemble(src).unwrap();
    a.get_object().to_binary()
}

fn main_object() -> Vec<u8> {
    object("main", "EXPORT START:\nCALL .print\nHALT\n")
}

fn lib_object() -> Vec<u8> {
    object("lib", "NOP\nEXPORT print:\nMOV_IMM R0, 42\nRET\n")
}

fn raw_object(exports: &[(&str, u16)], internal: &[u16], code: &[u8]) -> Vec<u8> {
    let mut o = ObjectFile::new("raw".to_string());
    for (n, v) in exports {
        o.exports.push((n.to_string(), *v)).unwrap();
    }
    for r in internal {
        o.internal_relocations.push(*r).unwrap();
    }
    o.bytecode.extend_from_slice(code).unwrap();
    o.to_binary()
}

#[test]
fn links_objects_behind_a_trampoline() {
    let mut l = Linker::new();
    l.load_object("main.vmo", &main_object()).unwrap();
    l.load_object("lib.vmo", &lib_object()).unwrap();
    assert!(l.has_symbol("START"));
    assert!(l.has_symbol("print"));
    assert!(!l.has_symbol("loop"));
    let image = l.link("START").unwrap();
    let mut expected = b"vmrx".to_vec();
    expected.extend_from_slice(&[0xB0, 0x00, 0x03]);
    expected.extend_from_slice(&[0xD0, 0x00, 0x08, 0x00]);
    expected.extend_from_slice(&[0x01, 0x11, 0x00, 0x00, 0x2A, 0xD2]);
    assert_eq!(image, expected);
}

#[test]
fn a_linked_program_runs_to_its_halt() {
    let mut l = Linker::new();
    l.load_object("main.vmo", &main_object()).unwrap();
    l.load_object("lib.vmo", &lib_object()).unwrap();
    let image = l.link("START").unwrap();
    let mut regs = vec![0u16; 17];
    regs[16] = 0xFFFE;
    let mut vm = VirtualMachine::from_bytes(image, regs);
    let mut steps = 0;
    let end = loop {
        match vm.cycle() {
            Ok(()) => steps += 1,
            Err(e) => break e,
        }
    };
    assert_eq!(end, RuntimeError::Halted);
    assert_eq!(steps, 4);
    assert_eq!(vm.registers()[0], 42);
    assert_eq!(vm.registers()[16], 0xFFFE);
    assert_eq!(vm.current_instruction(), 6);
}

#[test]
fn internal_relocations_are_shifted_by_the_base_address() {
    let mut l = Linker::new();
    l.load_object("main.vmo", &object("main", "EXPORT START:\nNOP\nNOP\n")).unwrap();
    l.load_object("loop.vmo", &object("loop", "NOP\nhere:\nJMP .here\n")).unwrap();
    let image = l.link("START").unwrap();
    assert_eq!(&image[4..], &[0xB0, 0x00, 0x03, 0x01, 0x01, 0x01, 0xB0, 0x00, 0x06]);
}

#[test]
fn a_missing_entry_point_is_an_error() {
    let mut l = Linker::new();
    l.load_object("lib.vmo", &lib_object()).unwrap();
    assert_eq!(l.link("START"), Err(LinkError::EntryPointNotFound("START".to_string())));
}

#[test]
fn an_undefined_symbol_is_an_error() {
    let mut l = Linker::new();
    l.load_object("main.vmo", &main_object()).unwrap();
    assert_eq!(
        l.link("START"),
        Err(LinkError::UndefinedSymbol { symbol: "print".to_string(), object_name: "main.vmo".to_string() })
    );
}

#[test]
fn a_later_export_replaces_an_earlier_one() {
    let mut l = Linker::new();
    l.load_object("a.vmo", &object("a", "EXPORT START:\nHALT\n")).unwrap();
    l.load_object("b.vmo", &object("b", "NOP\nEXPORT START:\nHALT\n")).unwrap();
    let image = l.link("START").unwrap();
    assert_eq!(&image[4..7], &[0xB0, 0x00, 0x05]);
}

#[test]
fn relocations_outside_the_bytecode_are_errors() {
    let mut l = Linker::new();
    l.load_object("r.vmo", &raw_object(&[("START", 0)], &[3], &[0, 0, 0, 0])).unwrap();
    assert_eq!(
        l.link("START"),
        Err(LinkError::InvalidRelocationOffset { object_name: "r.vmo".to_string(), offset: 4 })
    );
    let mut l = Linker::new();
    l.load_object("r.vmo", &raw_object(&[("START", 0)], &[9], &[0, 0, 0, 0])).unwrap();
    assert_eq!(
        l.link("START"),
        Err(LinkError::InvalidRelocationOffset { object_name: "r.vmo".to_string(), offset: 9 })
    );
}

#[test]
fn an_undecodable_object_is_refused() {
    let mut l = Linker::new();
    assert_eq!(
        l.load_object("junk", b"junk"),
        Err(ObjectLoadError::ParseError(ObjectParseErr::InvalidMagic))
    );
    assert!(!l.has_symbol("START"));
}

#[test]
fn objects_beyond_the_address_space_are_refused() {
    let big = raw_object(&[("START", 0)], &[], &vec![0u8; 65534]);
    let mut l = Linker::new();
    l.load_object("big1", &big).unwrap();
    assert_eq!(l.load_object("big2", &big), Err(ObjectLoadError::ObjectOverflow));

    let mut l = Linker::new();
    assert_eq!(
        l.load_object("far", &raw_object(&[("FAR", 0xFFFE)], &[], &[0])),
        Err(ObjectLoadError::ObjectOverflow)
    );
    assert!(!l.has_symbol("FAR"));
}

#[test]
fn an_oversized_program_is_refused() {
    let mut l = Linker::new();
    l.load_object("a", &raw_object(&[("START", 0)], &[], &vec![0u8; 65000])).unwrap();
    l.load_object("b", &raw_object(&[], &[], &vec![0u8; 1000])).unwrap();
    assert_eq!(l.link("START"), Err(LinkError::TotalSizeExceedsLimit(66000)));
}

#[test]
fn a_linked_program_starts_with_a_jump_to_its_entry() {
    let mut l = Linker::new();
    l.load_object("lib.vmo", &lib_object()).unwrap();
    l.load_object("main.vmo", &main_object()).unwrap();
    let image = l.link("START").unwrap();
    assert_eq!(&image[0..7], &[b'v', b'm', b'r', b'x', 0xB0, 0x00, 0x09]);
    let mut regs = vec![0u16; 17];
    regs[16] = 0xFFFE;
    let mut vm = VirtualMachine::from_bytes(image, regs);
    assert_eq!(vm.cycle(), Ok(()));
    assert_eq!(vm.current_instruction(), 9);
}

#[test]
fn names_an_object_does_not_export_keep_their_addresses() {
    let mut l = Linker::new();
    l.load_object("a.vmo", &object("a", "EXPORT START:\nNOP\nEXPORT other:\nHALT\n")).unwrap();
    l.load_object("b.vmo", &object("b", "EXPORT other:\nHALT\n")).unwrap();
    assert!(l.has_symbol("START"));
    let image = l.link("START").unwrap();
    assert_eq!(&image[4..7], &[0xB0, 0x00, 0x03]);
}

#[test]
fn a_default_linker_is_empty() {
    let l = Linker::default();
    assert!(!l.has_symbol("START"));
    assert_eq!(l.link("START"), Err(LinkError::EntryPointNotFound("START".to_string())));
}

#[test]
fn an_object_cut_inside_its_tables_is_refused() {
    let mut l = Linker::new();
    assert_eq!(
        l.load_object("cut", b"vmro\x00\x01"),
        Err(ObjectLoadError::ParseError(ObjectParseErr::UnexpectedEof))
    );
}

#[test]
fn redefined_exports_are_reported_in_order() {
    let mut l = Linker::new();
    l.load_object("a.vmo", &object("a", "EXPORT START:\nEXPORT shared:\nHALT\n")).unwrap();
    let b = ObjectFile::from_binary(
        &object("b", "EXPORT shared:\nEXPORT fresh:\nNOP\nEXPORT fresh:\nHALT\n"),
        "b.vmo",
        0,
    )
    .unwrap();
    assert_eq!(l.redefined_exports(&b), vec!["shared".to_string(), "fresh".to_string()]);
}
