use libgfxinit::{gfxinit_result, read_edid_result, Edid, Error, EDID_BLOCK_LEN};

#[test]
fn lightup_flag_decides_gfxinit() {
    assert_eq!(gfxinit_result(1), Ok(()));
    assert_eq!(gfxinit_result(-7), Ok(()));
    assert_eq!(gfxinit_result(0), Err(Error::DisplayInitFailed));
}

fn sample_block() -> [u8; EDID_BLOCK_LEN] {
    let mut block = [0u8; EDID_BLOCK_LEN];
    block[0] = 0x00;
    block[1] = 0xff;
    block[127] = 0x42;
    block
}

#[test]
fn edid_status_zero_hands_back_the_block() {
    let block = sample_block();
    assert_eq!(read_edid_result(0, block), Ok(Edid(block)));
    assert_eq!(EDID_BLOCK_LEN, 128);
}

#[test]
fn edid_failure_statuses_map_to_errors() {
    let block = sample_block();
    assert_eq!(read_edid_result(-1, block), Err(Error::EdidProbeFailed));
    assert_eq!(read_edid_result(-2, block), Err(Error::InvalidPort));
    assert_eq!(read_edid_result(1, block), Err(Error::UnexpectedStatus(1)));
    assert_eq!(read_edid_result(-3, block), Err(Error::UnexpectedStatus(-3)));
}
