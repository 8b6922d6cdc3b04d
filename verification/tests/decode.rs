use render_cmds::{BlendTerm, Command, Cur, DecodeError, WEIGHT_ONE};

fn read_one(bytes: &[u8]) -> (Result<Command, DecodeError>, usize) {
    let mut cur = Cur::new(bytes);
    let result = Command::read(&mut cur);
    (result, cur.pos())
}

#[test]
fn decode_nop_and_end() {
    assert_eq!(Command::decode(0x00, &[]), Ok(Command::Nop));
    assert_eq!(Command::decode(0x01, &[]), Ok(Command::End));
}

#[test]
fn decode_load_matrix() {
    assert_eq!(Command::decode(0x03, &[17]), Ok(Command::LoadMatrix { stack_pos: 17 }));
}

#[test]
fn decode_set_material_aliases() {
    assert_eq!(Command::decode(0x04, &[5]), Ok(Command::SetMaterial { material_id: 5 }));
    assert_eq!(Command::decode(0x24, &[5]), Ok(Command::SetMaterial { material_id: 5 }));
    assert_eq!(Command::decode(0x44, &[5]), Ok(Command::SetMaterial { material_id: 5 }));
}

#[test]
fn decode_draw() {
    assert_eq!(Command::decode(0x05, &[9]), Ok(Command::Draw { mesh_id: 9 }));
}

#[test]
fn decode_mul_by_object_plain() {
    assert_eq!(
        Command::decode(0x06, &[3, 1, 0xaa]),
        Ok(Command::MulByObject { object_id: 3, parent_id: 1, stack_id: None, restore_id: None })
    );
}

#[test]
fn decode_mul_by_object_with_stack_id() {
    assert_eq!(
        Command::decode(0x26, &[3, 1, 0xaa, 7]),
        Ok(Command::MulByObject {
            object_id: 3,
            parent_id: 1,
            stack_id: Some(7),
            restore_id: None
        })
    );
}

#[test]
fn decode_mul_by_object_with_restore_id() {
    assert_eq!(
        Command::decode(0x46, &[3, 1, 0xaa, 7]),
        Ok(Command::MulByObject {
            object_id: 3,
            parent_id: 1,
            stack_id: None,
            restore_id: Some(7)
        })
    );
}

#[test]
fn decode_mul_by_object_with_both() {
    assert_eq!(
        Command::decode(0x66, &[3, 1, 0xaa, 7, 2]),
        Ok(Command::MulByObject {
            object_id: 3,
            parent_id: 1,
            stack_id: Some(7),
            restore_id: Some(2)
        })
    );
}

#[test]
fn decode_reserved_opcodes_keep_their_opcode() {
    assert_eq!(Command::decode(0x02, &[1, 2]), Ok(Command::Reserved { opcode: 0x02 }));
    assert_eq!(Command::decode(0x07, &[1]), Ok(Command::Reserved { opcode: 0x07 }));
    assert_eq!(Command::decode(0x08, &[1]), Ok(Command::Reserved { opcode: 0x08 }));
    assert_eq!(Command::decode(0x0b, &[]), Ok(Command::Reserved { opcode: 0x0b }));
    assert_eq!(Command::decode(0x2b, &[]), Ok(Command::Reserved { opcode: 0x2b }));
    assert_eq!(Command::decode(0x40, &[]), Ok(Command::Reserved { opcode: 0x40 }));
    assert_eq!(Command::decode(0x80, &[]), Ok(Command::Reserved { opcode: 0x80 }));
}

#[test]
fn decode_blend_without_terms() {
    assert_eq!(
        Command::decode(0x09, &[6, 0]),
        Ok(Command::Blend { stack_pos: 6, terms: vec![] })
    );
}

#[test]
fn decode_blend_with_one_term() {
    assert_eq!(
        Command::decode(0x09, &[6, 1, 10, 20, 128]),
        Ok(Command::Blend {
            stack_pos: 6,
            terms: vec![BlendTerm { stack_id: 10, blend_id: 20, weight: 128 }]
        })
    );
}

#[test]
fn decode_blend_with_four_terms_keeps_their_order() {
    let params = [6u8, 4, 10, 11, 12, 20, 21, 22, 30, 31, 32, 40, 41, 42];
    assert_eq!(
        Command::decode(0x09, &params),
        Ok(Command::Blend {
            stack_pos: 6,
            terms: vec![
                BlendTerm { stack_id: 10, blend_id: 11, weight: 12 },
                BlendTerm { stack_id: 20, blend_id: 21, weight: 22 },
                BlendTerm { stack_id: 30, blend_id: 31, weight: 32 },
                BlendTerm { stack_id: 40, blend_id: 41, weight: 42 },
            ]
        })
    );
}

#[test]
fn decode_blend_with_five_terms_is_refused() {
    let params = [6u8, 5, 1, 1, 1, 2, 2, 2, 3, 3, 3, 4, 4, 4, 5, 5, 5];
    assert_eq!(Command::decode(0x09, &params), Err(DecodeError::InvalidBlendTermCount));
}

#[test]
fn decode_blend_with_255_terms_is_refused() {
    let mut params = vec![6u8, 255];
    params.resize(2 + 3 * 255, 0);
    assert_eq!(Command::decode(0x09, &params), Err(DecodeError::InvalidBlendTermCount));
}

#[test]
fn weight_byte_128_is_one_half() {
    let (cmd, _) = read_one(&[0x09, 0, 1, 1, 2, 128]);
    match cmd {
        Ok(Command::Blend { terms, .. }) => {
            assert_eq!(terms.len(), 1);
            assert_eq!(terms[0].weight, 128);
            assert_eq!(f64::from(terms[0].weight) / f64::from(WEIGHT_ONE), 0.5);
        }
        other => panic!("unexpected {:?}", other),
    }
}

#[test]
fn weight_byte_255_is_just_under_one() {
    let (cmd, _) = read_one(&[0x09, 0, 1, 1, 2, 255]);
    match cmd {
        Ok(Command::Blend { terms, .. }) => {
            assert_eq!(f64::from(terms[0].weight) / f64::from(WEIGHT_ONE), 0.99609375);
        }
        other => panic!("unexpected {:?}", other),
    }
}

#[test]
fn weight_byte_0_is_zero() {
    let (cmd, _) = read_one(&[0x09, 0, 1, 1, 2, 0]);
    match cmd {
        Ok(Command::Blend { terms, .. }) => {
            assert_eq!(f64::from(terms[0].weight) / f64::from(WEIGHT_ONE), 0.0);
        }
        other => panic!("unexpected {:?}", other),
    }
}

#[test]
fn weight_one_is_256() {
    assert_eq!(WEIGHT_ONE, 256);
}

#[test]
fn read_on_empty_stream_fails_without_moving() {
    assert_eq!(read_one(&[]), (Err(DecodeError::UnexpectedEndOfStream), 0));
}

#[test]
fn read_draw() {
    assert_eq!(read_one(&[0x05, 9, 0x01]), (Ok(Command::Draw { mesh_id: 9 }), 2));
}

#[test]
fn read_end_ignores_what_follows() {
    assert_eq!(read_one(&[0x01, 0xff, 0xff]), (Ok(Command::End), 1));
}

#[test]
fn read_mul_by_object_with_both() {
    assert_eq!(
        read_one(&[0x66, 4, 0, 0, 7, 2, 0x01]),
        (
            Ok(Command::MulByObject {
                object_id: 4,
                parent_id: 0,
                stack_id: Some(7),
                restore_id: Some(2)
            }),
            6
        )
    );
}

#[test]
fn read_unknown_opcode_consumes_only_the_opcode() {
    assert_eq!(read_one(&[0x0a, 1, 2, 3]), (Err(DecodeError::UnknownOpcode(0x0a)), 1));
    assert_eq!(read_one(&[0xff]), (Err(DecodeError::UnknownOpcode(0xff)), 1));
    assert_eq!(read_one(&[0x10, 0x01]), (Err(DecodeError::UnknownOpcode(0x10)), 1));
}

#[test]
fn read_truncated_operands_consumes_only_the_opcode() {
    assert_eq!(read_one(&[0x03]), (Err(DecodeError::UnexpectedEndOfStream), 1));
    assert_eq!(read_one(&[0x02, 1]), (Err(DecodeError::UnexpectedEndOfStream), 1));
    assert_eq!(read_one(&[0x06, 1, 2]), (Err(DecodeError::UnexpectedEndOfStream), 1));
    assert_eq!(read_one(&[0x26, 1, 2, 3]), (Err(DecodeError::UnexpectedEndOfStream), 1));
    assert_eq!(read_one(&[0x66, 1, 2, 3, 4]), (Err(DecodeError::UnexpectedEndOfStream), 1));
}

#[test]
fn read_blend_truncated_before_count() {
    assert_eq!(read_one(&[0x09]), (Err(DecodeError::UnexpectedEndOfStream), 1));
    assert_eq!(read_one(&[0x09, 3]), (Err(DecodeError::UnexpectedEndOfStream), 1));
}

#[test]
fn read_blend_truncated_inside_terms() {
    assert_eq!(read_one(&[0x09, 3, 1]), (Err(DecodeError::UnexpectedEndOfStream), 1));
    assert_eq!(read_one(&[0x09, 3, 2, 1, 1, 1, 2, 2]), (Err(DecodeError::UnexpectedEndOfStream), 1));
}

#[test]
fn read_blend_with_five_terms_present_is_invalid_count() {
    let bytes = [0x09u8, 6, 5, 1, 1, 1, 2, 2, 2, 3, 3, 3, 4, 4, 4, 5, 5, 5, 0x01];
    assert_eq!(read_one(&bytes), (Err(DecodeError::InvalidBlendTermCount), 18));
}

#[test]
fn read_blend_with_five_terms_missing_is_end_of_stream() {
    let bytes = [0x09u8, 6, 5, 1, 1, 1, 2, 2, 2];
    assert_eq!(read_one(&bytes), (Err(DecodeError::UnexpectedEndOfStream), 1));
}
