//! What the status values handed back by the libgfxinit ABI mean.

use vstd::prelude::*;

verus! {

/// Raw EDID block size used by libgfxinit.
pub const EDID_BLOCK_LEN: usize = 128;

/// One raw EDID block.
#[derive(Debug, Clone, Copy, PartialEq, Eq)]
pub struct Edid(pub [u8; EDID_BLOCK_LEN]);

/// Errors returned by the safe Rust wrappers.
#[derive(Debug, Clone, Copy, PartialEq, Eq, Structural)]
pub enum Error {
    /// `gma_gfxinit` returned `lightup_ok == 0`.
    DisplayInitFailed,
    /// `gma_read_edid` returned `-1`.
    EdidProbeFailed,
    /// `gma_read_edid` returned `-2` for a port outside libgfxinit's active
    /// port range.
    InvalidPort,
    /// `gma_read_edid` returned an undocumented status code.
    UnexpectedStatus(i32),
}

/// The outcome of display initialisation, given the `lightup_ok` flag that
/// `gma_gfxinit` wrote.
pub open spec fn gfxinit_outcome(lightup_ok: i32) -> Result<(), Error> {
    if lightup_ok != 0 {
        Ok(())
    } else {
        Err(Error::DisplayInitFailed)
    }
}

/// Turn the `lightup_ok` flag written by `gma_gfxinit` into the result of
/// display initialisation: any non-zero flag means the display lit up.
pub fn gfxinit_result(lightup_ok: i32) -> (outcome: Result<(), Error>)
    ensures
        outcome == gfxinit_outcome(lightup_ok),
        outcome is Ok <==> lightup_ok != 0,
        lightup_ok == 0 ==> outcome == Err::<(), Error>(Error::DisplayInitFailed),
{
    if lightup_ok != 0 {
        Ok(())
    } else {
        Err(Error::DisplayInitFailed)
    }
}

/// The outcome of an EDID read, given the status that `gma_read_edid`
/// returned and the block it filled.
pub open spec fn read_edid_outcome(status: i32, block: [u8; EDID_BLOCK_LEN]) -> Result<Edid, Error> {
    if status == 0 {
        Ok(Edid(block))
    } else if status == -1 {
        Err(Error::EdidProbeFailed)
    } else if status == -2 {
        Err(Error::InvalidPort)
    } else {
        Err(Error::UnexpectedStatus(status))
    }
}

/// Turn the status returned by `gma_read_edid` and the block it filled into
/// the result of the EDID read: `0` hands the block back, `-1` and `-2` are
/// the documented failures, any other status is reported as it came.
pub fn read_edid_result(status: i32, block: [u8; EDID_BLOCK_LEN]) -> (outcome: Result<Edid, Error>)
    ensures
        outcome == read_edid_outcome(status, block),
        outcome is Ok <==> status == 0,
        status == 0 ==> outcome == Ok::<Edid, Error>(Edid(block)),
        status == -1 ==> outcome == Err::<Edid, Error>(Error::EdidProbeFailed),
        status == -2 ==> outcome == Err::<Edid, Error>(Error::InvalidPort),
        status != 0 && status != -1 && status != -2 ==> outcome == Err::<Edid, Error>(
            Error::UnexpectedStatus(status),
        ),
{
    match status {
        0 => Ok(Edid(block)),
        -1 => Err(Error::EdidProbeFailed),
        -2 => Err(Error::InvalidPort),
        other => Err(Error::UnexpectedStatus(other)),
    }
}

/// A successful read hands the block back exactly as it was filled, and each
/// failing status maps to its documented error, an undocumented one to
/// itself.
pub proof fn lemma_read_edid_outcome_exact(status: i32, block: [u8; EDID_BLOCK_LEN])
    ensures
        read_edid_outcome(0i32, block) == Ok::<Edid, Error>(Edid(block)),
        read_edid_outcome(0i32, block) matches Ok(edid) ==> edid.0 == block,
        read_edid_outcome(-1i32, block) == Err::<Edid, Error>(Error::EdidProbeFailed),
        read_edid_outcome(-2i32, block) == Err::<Edid, Error>(Error::InvalidPort),
        status != 0 && status != -1 && status != -2 ==> read_edid_outcome(status, block) == Err::<
            Edid,
            Error,
        >(Error::UnexpectedStatus(status)),
{
}

/// Display initialisation fails exactly when the light-up flag is zero, and
/// then with `DisplayInitFailed`.
pub proof fn lemma_gfxinit_outcome_exact(lightup_ok: i32)
    ensures
        lightup_ok != 0 ==> gfxinit_outcome(lightup_ok) == Ok::<(), Error>(()),
        lightup_ok == 0 ==> gfxinit_outcome(lightup_ok) == Err::<(), Error>(Error::DisplayInitFailed),
{
}

/// Each failing EDID status has an error of its own: two statuses that fail
/// with the same error are the same status.
pub proof fn lemma_read_edid_errors_distinct(
    a: i32,
    b: i32,
    block_a: [u8; EDID_BLOCK_LEN],
    block_b: [u8; EDID_BLOCK_LEN],
)
    requires
        a != 0,
        b != 0,
        read_edid_outcome(a, block_a) == read_edid_outcome(b, block_b),
    ensures
        a == b,
{
    match read_edid_outcome(a, block_a) {
        Err(Error::UnexpectedStatus(s)) => {
            assert(s == a);
        },
        _ => {},
    }
}

} // verus!
