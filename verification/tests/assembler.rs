use libvmr::assembler::{AssembleError, Assembler, ParseError, ResolveError};
use libvmr::object::ObjectFile;

fn assemble(src: &str) -> (Assembler, Result<(), AssembleError>) {
    let mut a = Assembler::new("test");
    let r = a.assemble(src);
    (a, r)
}

fn bytecode(src: &str) -> Vec<u8> {
    let (a, r) = assemble(src);
    assert!(r.is_ok(), "{:?}", r);
    a.get_object().bytecode.as_slice().to_vec()
}

fn label(o: &ObjectFile, name: &str) -> Option<u16> {
    let cs: Vec<char> = name.chars().collect();
    o.labels.get(&cs, 0, cs.len())
}

#[test]
fn a_new_assembler_holds_an_empty_object() {
    let a = Assembler::new("prog");
    assert_eq!(a.get_object().name, "prog");
    assert!(a.get_object().bytecode.is_empty());
}

#[test]
fn assembles_a_small_program() {
    let src = "; count to twenty\nEXPORT START:\n  MOV_IMM R1, 0x10\nloop:\n  ADD_IMM r1 1\n  CMP_IMM R1, 20\n  JNZ .loop\n  HALT\n";
    let (a, r) = assemble(src);
    assert!(r.is_ok());
    let o = a.get_object();
    assert_eq!(
        o.bytecode.as_slice(),
        &[0x11, 1, 0x00, 0x10, 0x41, 1, 0x00, 0x01, 0x81, 1, 0x00, 0x14, 0xB2, 0x00, 0x04, 0x00]
    );
    assert_eq!(o.exports.as_slice(), &[("START".to_string(), 0)]);
    assert_eq!(label(o, "loop"), Some(4));
    assert_eq!(o.internal_relocations.as_slice(), &[13]);
    assert!(o.external_relocations.is_empty());
}

#[test]
fn forward_references_resolve_to_the_later_label() {
    let (a, r) = assemble("JMP .end\nNOP\nend:\nHALT\n");
    assert!(r.is_ok());
    let o = a.get_object();
    assert_eq!(o.bytecode.as_slice(), &[0xB0, 0x00, 0x04, 0x01, 0x00]);
    assert_eq!(o.internal_relocations.as_slice(), &[1]);
    assert_eq!(label(o, "end"), Some(4));
}

#[test]
fn unknown_names_become_external_relocations() {
    let (a, r) = assemble("NOP\nCALL .print\nRET");
    assert!(r.is_ok());
    let o = a.get_object();
    assert_eq!(o.bytecode.as_slice(), &[0x01, 0xD0, 0x00, 0x00, 0xD2]);
    assert_eq!(o.external_relocations.as_slice(), &[("print".to_string(), 2)]);
    assert!(o.internal_relocations.is_empty());
}

#[test]
fn an_exported_label_referenced_locally_goes_through_the_linker() {
    let (a, r) = assemble("EXPORT START:\nJMP .START\n");
    assert!(r.is_ok());
    let o = a.get_object();
    assert_eq!(o.bytecode.as_slice(), &[0xB0, 0x00, 0x00]);
    assert_eq!(o.external_relocations.as_slice(), &[("START".to_string(), 1)]);
    assert_eq!(label(o, "START"), None);
}

#[test]
fn spaces_and_commas_separate_operands_alike() {
    assert_eq!(bytecode("MOV R1, R2"), vec![0x10, 1, 2]);
    assert_eq!(bytecode("MOV R1 R2"), vec![0x10, 1, 2]);
    assert_eq!(bytecode("MOV R1,R2"), vec![0x10, 1, 2]);
    assert_eq!(bytecode("MOV  R1 ,, R2"), vec![0x10, 1, 2]);
}

#[test]
fn register_names_ignore_case() {
    assert_eq!(bytecode("MOV rsp, R15"), vec![0x10, 16, 15]);
    assert_eq!(bytecode("MOV Rsp, r0"), vec![0x10, 16, 0]);
    assert_eq!(bytecode("PUSH r10"), vec![0x90, 10]);
}

#[test]
fn literals_are_decimal_or_hexadecimal() {
    assert_eq!(bytecode("MOV_IMM R1, 65535"), vec![0x11, 1, 0xFF, 0xFF]);
    assert_eq!(bytecode("MOV_IMM R1, 0xFFFF"), vec![0x11, 1, 0xFF, 0xFF]);
    assert_eq!(bytecode("MOV_IMM R1, 0x1f"), vec![0x11, 1, 0x00, 0x1F]);
    assert_eq!(bytecode("MOV_IMM R1, 300"), vec![0x11, 1, 0x01, 0x2C]);
    assert_eq!(bytecode("PUSH_IMM +7"), vec![0x92, 0x00, 0x07]);
}

#[test]
fn every_operand_shape_is_emitted_in_order() {
    assert_eq!(bytecode("STORE_REL_IMM R2, 0xFFFE, 9"), vec![0x34, 2, 0xFF, 0xFE, 0x00, 0x09]);
    assert_eq!(bytecode("LOAD_REL R1, 4, R3"), vec![0x21, 1, 0x00, 0x04, 3]);
    assert_eq!(bytecode("LOAD_IMM 0x0100, R5"), vec![0x22, 0x01, 0x00, 5]);
    assert_eq!(bytecode("STORE_IMM_IMM 16, 17"), vec![0x35, 0x00, 0x10, 0x00, 0x11]);
    assert_eq!(bytecode("DIV_MOD R2"), vec![0x60, 2]);
    assert_eq!(bytecode("SYSCALL"), vec![0xFF]);
}

#[test]
fn comments_blank_lines_and_labels_emit_nothing() {
    assert_eq!(bytecode("; just a comment\n\n   \nonly_a_label:\n"), Vec::<u8>::new());
}

#[test]
fn an_unknown_mnemonic_is_reported_with_its_line() {
    let (a, r) = assemble("NOP\n\nmov R1, R2\nNOP");
    match r {
        Err(AssembleError::UnknownOpcode { line, opcode }) => {
            assert_eq!(line, 3);
            assert_eq!(opcode, "mov");
        }
        other => panic!("unexpected {:?}", other),
    }
    assert_eq!(a.get_object().bytecode.as_slice(), &[0x01]);
}

#[test]
fn a_missing_operand_is_reported() {
    let (_, r) = assemble("MOV R1");
    assert!(matches!(r, Err(AssembleError::MissingArgument { line: 1, index: 2 })));
    let (_, r) = assemble("NOP\nJMP");
    assert!(matches!(r, Err(AssembleError::MissingArgument { line: 2, index: 1 })));
}

#[test]
fn a_line_of_separators_has_no_opcode() {
    let (_, r) = assemble("NOP\n , ,");
    assert!(matches!(r, Err(AssembleError::MissingOpcode { line: 2 })));
}

#[test]
fn an_unknown_register_is_a_parse_error() {
    let (_, r) = assemble("MOV R1, R16");
    assert!(matches!(r, Err(AssembleError::ParseError(ParseError::InvalidRegister))));
    let (_, r) = assemble("PUSH 5");
    assert!(matches!(r, Err(AssembleError::ParseError(ParseError::InvalidRegister))));
}

#[test]
fn bad_literals_are_resolve_errors() {
    let (_, r) = assemble("MOV_IMM R1, 70000");
    let expected = "70000".parse::<u16>().unwrap_err();
    assert!(matches!(r, Err(AssembleError::ResolveError(ResolveError::LiteralError(ref e))) if *e == expected));
    let (_, r) = assemble("MOV_IMM R1, 0xZZ");
    let expected = u16::from_str_radix("ZZ", 16).unwrap_err();
    assert!(matches!(r, Err(AssembleError::ResolveError(ResolveError::LiteralError(ref e))) if *e == expected));
    let (_, r) = assemble("MOV_IMM R1, -1");
    assert!(matches!(r, Err(AssembleError::ResolveError(ResolveError::LiteralError(_)))));
    let (_, r) = assemble("JMP 0x");
    assert!(matches!(r, Err(AssembleError::ResolveError(ResolveError::LiteralError(_)))));
}

#[test]
fn assembly_stops_at_the_first_error() {
    let (a, r) = assemble("NOP\nMOV_IMM R1, 1\nBAD\nNOP");
    assert!(matches!(r, Err(AssembleError::UnknownOpcode { line: 3, .. })));
    assert_eq!(a.get_object().bytecode.as_slice(), &[0x01, 0x11, 1, 0x00, 0x01]);
}

#[test]
fn the_last_token_of_a_label_line_is_the_label() {
    let (a, r) = assemble("NOP\nsome words here:\nHALT");
    assert!(r.is_ok());
    assert_eq!(label(a.get_object(), "here"), Some(1));
}

#[test]
fn a_redefined_label_keeps_its_last_address() {
    let (a, r) = assemble("twice:\nNOP\ntwice:\nJMP .twice");
    assert!(r.is_ok());
    let o = a.get_object();
    assert_eq!(label(o, "twice"), Some(1));
    assert_eq!(o.bytecode.as_slice(), &[0x01, 0xB0, 0x00, 0x01]);
}

#[test]
fn export_lines_are_counted() {
    assert_eq!(Assembler::count_export_lines("EXPORT A:\nEXPORT B:\nfoo:\n; EXPORT C:\nNOP"), 2);
    assert_eq!(Assembler::count_export_lines(""), 0);
    assert_eq!(Assembler::count_export_lines("  EXPORT   main:  "), 1);
}

#[test]
fn exports_are_recorded_at_the_following_instruction() {
    let (a, r) = assemble("NOP\nNOP\nEXPORT entry:\nHALT\nEXPORT after:");
    assert!(r.is_ok());
    assert_eq!(
        a.get_object().exports.as_slice(),
        &[("entry".to_string(), 2), ("after".to_string(), 3)]
    );
}

#[test]
fn an_assembled_object_survives_encoding() {
    let (a, r) = assemble("EXPORT START:\nCALL .print\nloop:\nJMP .loop\n");
    assert!(r.is_ok());
    let bin = a.get_object().to_binary();
    let o = ObjectFile::from_binary(&bin, "test", 0).unwrap();
    assert_eq!(o.bytecode.as_slice(), a.get_object().bytecode.as_slice());
    assert_eq!(o.exports.as_slice(), a.get_object().exports.as_slice());
    assert_eq!(o.internal_relocations.as_slice(), &[4]);
    assert_eq!(o.external_relocations.as_slice(), &[("print".to_string(), 1)]);
}

#[test]
fn every_statement_takes_its_instruction_length() {
    let cases = [
        ("HALT", 1),
        ("PUSH R1", 2),
        ("JMP 5", 3),
        ("MOV R1, R2", 3),
        ("MOV_IMM R1, 5", 4),
        ("LOAD_IMM 5, R1", 4),
        ("STORE_IMM_IMM 1, 2", 5),
        ("LOAD_REL R1, 2, R3", 5),
        ("STORE_REL_IMM R1, 2, 3", 6),
    ];
    for (src, len) in cases {
        assert_eq!(bytecode(src).len(), len, "{src}");
    }
}

#[test]
fn references_are_recorded_where_their_words_lie() {
    let (a, r) = assemble("top:\nSTORE_IMM_IMM .top, .ext\nLOAD_REL R1, .top, R2\nJMP .other\n");
    assert!(r.is_ok());
    let o = a.get_object();
    let code = o.bytecode.as_slice();
    assert_eq!(o.internal_relocations.as_slice(), &[1, 7]);
    assert_eq!(
        o.external_relocations.as_slice(),
        &[("ext".to_string(), 3), ("other".to_string(), 11)]
    );
    for &p in o.internal_relocations.as_slice() {
        let p = p as usize;
        assert_eq!(u16::from_be_bytes([code[p], code[p + 1]]), 0);
    }
    for (_, p) in o.external_relocations.as_slice() {
        let p = *p as usize;
        assert_eq!(u16::from_be_bytes([code[p], code[p + 1]]), 0);
    }
}
