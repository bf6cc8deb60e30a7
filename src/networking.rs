//! The fixed-size little-endian record two players exchange, read back into
//! plain values.
use vstd::prelude::*;

verus! {

/// Bytes in one record.
pub const PACKET_SIZE: usize = 64;

/// Which of the two networked players this process is.
#[derive(Clone, Copy, Debug, PartialEq, Eq, Structural)]
pub enum Mode {
    MultiplayerPlayer1,
    MultiplayerPlayer2,
}

/// Why a record could not be read.
#[derive(Clone, Copy, Debug, PartialEq, Eq, Structural)]
pub enum PacketError {
    /// The facing flag was neither 0 nor 1.
    BadFlip,
}

/// The unsigned value of the four bytes at `at`, least significant first.
pub open spec fn le_word(b: Seq<u8>, at: int) -> int {
    b[at] + 256 * b[at + 1] + 65536 * b[at + 2] + 16777216 * b[at + 3]
}

/// A 32-bit word read as a two's-complement signed value.
pub open spec fn as_signed(w: int) -> int {
    if w >= 0x8000_0000 {
        w - 0x1_0000_0000
    } else {
        w
    }
}

/// The unsigned little-endian word at byte `at`.
pub fn word_at(buf: &[u8; PACKET_SIZE], at: usize) -> (r: u32)
    requires
        at + 4 <= PACKET_SIZE,
    ensures
        r == le_word(buf@, at as int),
{
    buf[at] as u32 + 256 * (buf[at + 1] as u32) + 65536 * (buf[at + 2] as u32) + 16777216 * (buf[at
        + 3] as u32)
}

/// The signed little-endian word at byte `at`.
pub fn int_at(buf: &[u8; PACKET_SIZE], at: usize) -> (r: i32)
    requires
        at + 4 <= PACKET_SIZE,
    ensures
        r == as_signed(le_word(buf@, at as int)),
{
    let w = word_at(buf, at);
    if w >= 0x8000_0000 {
        ((w - 0x8000_0000) as i32) - 0x7fff_ffff - 1
    } else {
        w as i32
    }
}

/// The carried block's position and whether it is carried: signed words at
/// bytes 40 and 44, and a non-zero word at byte 48.
pub fn unpack_block_data(buf: &mut [u8; PACKET_SIZE]) -> (r: (i32, i32, bool))
    ensures
        *final(buf) == *old(buf),
        r.0 == as_signed(le_word(old(buf)@, 40)),
        r.1 == as_signed(le_word(old(buf)@, 44)),
        r.2 == (le_word(old(buf)@, 48) != 0),
{
    let block_x = int_at(buf, 40);
    let block_y = int_at(buf, 44);
    let carried = int_at(buf, 48);
    (block_x, block_y, carried != 0)
}

/// The remote player's fields, floating-point ones as their raw bits:
/// position bits at bytes 0 and 4, the facing flag at 8, the animation
/// frame's signed position at 24 and 28 and its size at 32 and 36. A facing
/// flag other than 0 or 1 is refused.
pub fn unpack_player_words(buf: &[u8; PACKET_SIZE]) -> (r: Result<(u32, u32, bool, i32, i32, u32, u32), PacketError>)
    ensures
        match r {
            Ok(t) => {
                &&& le_word(buf@, 8) == 0 || le_word(buf@, 8) == 1
                &&& t.0 == le_word(buf@, 0)
                &&& t.1 == le_word(buf@, 4)
                &&& t.2 == (le_word(buf@, 8) == 1)
                &&& t.3 == as_signed(le_word(buf@, 24))
                &&& t.4 == as_signed(le_word(buf@, 28))
                &&& t.5 == le_word(buf@, 32)
                &&& t.6 == le_word(buf@, 36)
            },
            Err(e) => e == PacketError::BadFlip && le_word(buf@, 8) != 0 && le_word(buf@, 8) != 1,
        },
{
    let x = word_at(buf, 0);
    let y = word_at(buf, 4);
    let flip = word_at(buf, 8);
    if flip != 1 && flip != 0 {
        return Err(PacketError::BadFlip);
    }
    let ax = int_at(buf, 24);
    let ay = int_at(buf, 28);
    let aw = word_at(buf, 32);
    let ah = word_at(buf, 36);
    Ok((x, y, flip == 1, ax, ay, aw, ah))
}

/// The remote portal's position and rotation as raw floating-point bits, at
/// bytes 12, 16 and 20.
pub fn unpack_portal_words(buf: &[u8; PACKET_SIZE]) -> (r: (u32, u32, u32))
    ensures
        r.0 == le_word(buf@, 12),
        r.1 == le_word(buf@, 16),
        r.2 == le_word(buf@, 20),
{
    (word_at(buf, 12), word_at(buf, 16), word_at(buf, 20))
}

/// The remote wand's signed offset at bytes 52 and 56, and its rotation's
/// raw floating-point bits at 60.
pub fn unpack_wand_words(buf: &[u8; PACKET_SIZE]) -> (r: (i32, i32, u32))
    ensures
        r.0 == as_signed(le_word(buf@, 52)),
        r.1 == as_signed(le_word(buf@, 56)),
        r.2 == le_word(buf@, 60),
{
    (int_at(buf, 52), int_at(buf, 56), word_at(buf, 60))
}

/// The four bytes of `w`, least significant first.
pub fn le_bytes(w: u32) -> (r: (u8, u8, u8, u8))
    ensures
        r.0 + 256 * r.1 + 65536 * r.2 + 16777216 * r.3 == w,
{
    let q1 = w / 256;
    let q2 = q1 / 256;
    let q3 = q2 / 256;
    ((w % 256) as u8, (q1 % 256) as u8, (q2 % 256) as u8, q3 as u8)
}

/// Lays sixteen words out as one record, each little-endian at four times
/// its index.
pub fn pack_words(words: &Vec<u32>) -> (r: Vec<u8>)
    requires
        words@.len() * 4 == PACKET_SIZE,
    ensures
        r@.len() == PACKET_SIZE,
        forall|k: int| 0 <= k < words@.len() ==> le_word(r@, 4 * k) == #[trigger] words@[k],
{
    let mut out: Vec<u8> = Vec::new();
    let n = words.len();
    let mut k: usize = 0;
    while k < n
        invariant
            n == words@.len(),
            n * 4 == PACKET_SIZE,
            0 <= k <= n,
            out@.len() == 4 * k,
            forall|j: int| 0 <= j < k ==> le_word(out@, 4 * j) == #[trigger] words@[j],
        decreases n - k,
    {
        let b = le_bytes(words[k]);
        let ghost before = out@;
        out.push(b.0);
        out.push(b.1);
        out.push(b.2);
        out.push(b.3);
        proof {
            assert forall|j: int| 0 <= j < k + 1 implies le_word(out@, 4 * j) == #[trigger] words@[j] by {
                if j < k {
                    assert(out@[4 * j] == before[4 * j]);
                    assert(out@[4 * j + 1] == before[4 * j + 1]);
                    assert(out@[4 * j + 2] == before[4 * j + 2]);
                    assert(out@[4 * j + 3] == before[4 * j + 3]);
                }
            }
        }
        k = k + 1;
    }
    out
}

} // verus!
