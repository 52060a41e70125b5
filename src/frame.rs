//! Wire framing: start marker, terminator, result byte, and the request
//! frames each device kind sends.
//!
//! The start marker, the terminator, the result offset and the motor tag are
//! the controller's framing. The other tags, the decimal ids and amounts, and
//! the body layouts below are this library's own placeholder layout: each
//! device kind's exact encoding belongs to the device firmware, and is to be
//! matched against it.

use vstd::prelude::*;

verus! {

/// Start marker of every request and response frame.
pub const STX: u8 = 2;

/// Terminator of textual frames.
pub const CR: u8 = 13;

/// Offset of the result/status byte in a response frame.
pub const RESULT_IDX: u8 = 3;

/// Command-class tag of motor commands.
pub const MOTOR_TAG: u8 = 77;

/// Command-class tag of digital input commands (placeholder layout).
pub const INPUT_TAG: u8 = 73;

/// Command-class tag of analog input commands (placeholder layout).
pub const ANALOG_TAG: u8 = 65;

/// Command-class tag of digital output commands (placeholder layout).
pub const OUTPUT_TAG: u8 = 79;

/// ASCII decimal digits of `n`, most significant first, no leading zeros.
pub open spec fn decimal(n: nat) -> Seq<u8>
    decreases n,
{
    if n < 10 {
        seq![(48 + n) as u8]
    } else {
        decimal(n / 10).push((48 + n % 10) as u8)
    }
}

/// ASCII decimal text of a signed integer, with a leading `-` when negative.
pub open spec fn signed_decimal(v: int) -> Seq<u8> {
    if v < 0 {
        seq![45u8] + decimal((-v) as nat)
    } else {
        decimal(v as nat)
    }
}

/// The frame `[STX, tag, id digits..., body..., CR]`.
pub open spec fn frame_of(tag: u8, id: nat, body: Seq<u8>) -> Seq<u8> {
    seq![STX, tag] + decimal(id) + body + seq![CR]
}

/// Appends the decimal digits of `n` to `buf`.
pub fn push_decimal(buf: &mut Vec<u8>, n: u128)
    ensures
        final(buf)@ == old(buf)@ + decimal(n as nat),
    decreases n,
{
    if n >= 10 {
        push_decimal(buf, n / 10);
    }
    let d: u8 = (n % 10) as u8;
    buf.push(48 + d);
    proof {
        assert(old(buf)@ + decimal(n as nat) =~= final(buf)@);
    }
}

/// Appends the signed decimal text of `v` to `buf`.
pub fn push_signed_decimal(buf: &mut Vec<u8>, v: i128)
    requires
        v > i128::MIN,
    ensures
        final(buf)@ == old(buf)@ + signed_decimal(v as int),
{
    if v < 0 {
        buf.push(45);
        push_decimal(buf, (-v) as u128);
        proof {
            assert(final(buf)@ =~= old(buf)@ + signed_decimal(v as int));
        }
    } else {
        push_decimal(buf, v as u128);
    }
}

/// Builds the frame `[STX, tag, id digits..., body..., CR]`.
pub fn build_frame(tag: u8, id: u8, body: &[u8]) -> (r: Vec<u8>)
    ensures
        r@ == frame_of(tag, id as nat, body@),
{
    let mut buf: Vec<u8> = Vec::new();
    buf.push(STX);
    buf.push(tag);
    push_decimal(&mut buf, id as u128);
    let mut i: usize = 0;
    while i < body.len()
        invariant
            i <= body@.len(),
            buf@ == seq![STX, tag] + decimal(id as nat) + body@.subrange(0, i as int),
        decreases body@.len() - i,
    {
        buf.push(body[i]);
        i = i + 1;
        proof {
            assert(body@.subrange(0, i as int) =~= body@.subrange(0, i - 1) + seq![body@[i - 1]]);
            assert(buf@ =~= seq![STX, tag] + decimal(id as nat) + body@.subrange(0, i as int));
        }
    }
    buf.push(CR);
    proof {
        assert(body@.subrange(0, body@.len() as int) =~= body@);
        assert(buf@ =~= frame_of(tag, id as nat, body@));
    }
    buf
}

/// The result/status byte of a response frame, if the frame is long enough
/// and opens with the start marker.
pub open spec fn result_of(resp: Seq<u8>) -> Option<u8> {
    if resp.len() > RESULT_IDX as int && resp[0] == STX {
        Some(resp[RESULT_IDX as int])
    } else {
        None
    }
}

/// Reads the result/status byte of a response frame.
pub fn result_code(resp: &[u8]) -> (r: Option<u8>)
    ensures
        r == result_of(resp@),
{
    if resp.len() > RESULT_IDX as usize && resp[0] == STX {
        Some(resp[RESULT_IDX as usize])
    } else {
        None
    }
}

/// State of a digital line as a response reports it: `'1'` is on, `'0'` off.
pub open spec fn state_of(resp: Seq<u8>) -> Option<bool> {
    match result_of(resp) {
        Some(c) => if c == 49 {
            Some(true)
        } else if c == 48 {
            Some(false)
        } else {
            None
        },
        None => None,
    }
}

/// Decodes the on/off state carried by a response frame.
pub fn decode_state(resp: &[u8]) -> (r: Option<bool>)
    ensures
        r == state_of(resp@),
{
    match result_code(resp) {
        Some(c) => if c == 49 {
            Some(true)
        } else if c == 48 {
            Some(false)
        } else {
            None
        },
        None => None,
    }
}

/// Whether `c` is an ASCII decimal digit.
pub open spec fn is_digit(c: u8) -> bool {
    48 <= c <= 57
}

/// The value of a run of ASCII decimal digits.
pub open spec fn digits_value(s: Seq<u8>) -> nat
    decreases s.len(),
{
    if s.len() == 0 {
        0
    } else {
        digits_value(s.drop_last()) * 10 + (s.last() - 48) as nat
    }
}

/// The field of a response frame after the result offset, up to the first
/// terminator or the end of the frame.
pub open spec fn field_end(resp: Seq<u8>, i: int) -> int
    decreases resp.len() - i,
{
    if i >= resp.len() || resp[i] == CR {
        i
    } else {
        field_end(resp, i + 1)
    }
}

/// The numeric field of a response: the bytes from the result offset up to
/// the terminator.
pub open spec fn numeric_field(resp: Seq<u8>) -> Seq<u8> {
    resp.subrange(RESULT_IDX as int, field_end(resp, RESULT_IDX as int))
}

/// The value a response reports, if it is a well-formed frame whose numeric
/// field is a nonempty run of digits that fits in 16 bits.
pub open spec fn reading_of(resp: Seq<u8>) -> Option<u16> {
    let f = numeric_field(resp);
    if resp.len() > RESULT_IDX as int && resp[0] == STX && f.len() > 0
        && (forall|k: int| 0 <= k < f.len() ==> is_digit(#[trigger] f[k]))
        && digits_value(f) <= u16::MAX {
        Some(digits_value(f) as u16)
    } else {
        None
    }
}

proof fn lemma_field_end_bounds(resp: Seq<u8>, i: int)
    requires
        0 <= i <= resp.len(),
    ensures
        i <= field_end(resp, i) <= resp.len(),
        field_end(resp, i) < resp.len() ==> resp[field_end(resp, i)] == CR,
        forall|k: int| i <= k < field_end(resp, i) ==> resp[k] != CR,
    decreases resp.len() - i,
{
    if i < resp.len() && resp[i] != CR {
        lemma_field_end_bounds(resp, i + 1);
    }
}

proof fn lemma_field_end_at(resp: Seq<u8>, i: int, j: int)
    requires
        0 <= i <= j <= resp.len(),
        forall|k: int| i <= k < j ==> resp[k] != CR,
    ensures
        field_end(resp, i) == field_end(resp, j),
    decreases j - i,
{
    if i < j {
        lemma_field_end_at(resp, i + 1, j);
    }
}

/// A digit run is worth at least as much as any of its prefixes.
proof fn lemma_digits_value_grows(s: Seq<u8>, n: int)
    requires
        0 <= n <= s.len(),
        forall|k: int| 0 <= k < s.len() ==> is_digit(#[trigger] s[k]),
    ensures
        digits_value(s.subrange(0, n)) <= digits_value(s),
    decreases s.len() - n,
{
    if n < s.len() {
        let t = s.subrange(0, n + 1);
        assert(t.drop_last() =~= s.subrange(0, n));
        lemma_digits_value_grows(s, n + 1);
    } else {
        assert(s.subrange(0, n) =~= s);
    }
}

/// Decodes the 16-bit reading carried by a response frame.
pub fn decode_reading(resp: &[u8]) -> (r: Option<u16>)
    ensures
        r == reading_of(resp@),
{
    if !(resp.len() > RESULT_IDX as usize && resp[0] == STX) {
        return None;
    }
    let start: usize = RESULT_IDX as usize;
    let mut i: usize = start;
    let mut acc: u32 = 0;
    proof {
        lemma_field_end_bounds(resp@, start as int);
    }
    while i < resp.len() && resp[i] != CR
        invariant
            start <= i <= resp@.len(),
            start == RESULT_IDX as usize,
            resp@.len() > start,
            resp@[0] == STX,
            forall|k: int| start <= k < i ==> resp@[k] != CR && is_digit(#[trigger] resp@[k]),
            acc as nat == digits_value(resp@.subrange(start as int, i as int)),
            acc <= u16::MAX,
        decreases resp@.len() - i,
    {
        let c = resp[i];
        if c < 48 || c > 57 {
            proof {
                lemma_field_end_at(resp@, start as int, i as int);
                lemma_field_end_bounds(resp@, i as int);
                let f = numeric_field(resp@);
                assert(f[i - start] == c);
            }
            return None;
        }
        let next: u32 = acc * 10 + (c - 48) as u32;
        proof {
            let p = resp@.subrange(start as int, i + 1);
            assert(p.drop_last() =~= resp@.subrange(start as int, i as int));
        }
        if next > 65535 {
            proof {
                lemma_field_end_at(resp@, start as int, i + 1);
                lemma_field_end_bounds(resp@, i + 1);
                let f = numeric_field(resp@);
                if forall|k: int| 0 <= k < f.len() ==> is_digit(#[trigger] f[k]) {
                    lemma_digits_value_grows(f, i + 1 - start);
                    assert(f.subrange(0, i + 1 - start) =~= resp@.subrange(start as int, i + 1));
                }
            }
            return None;
        }
        acc = next;
        i = i + 1;
    }
    proof {
        lemma_field_end_at(resp@, start as int, i as int);
        lemma_field_end_bounds(resp@, i as int);
        assert(numeric_field(resp@) =~= resp@.subrange(start as int, i as int));
    }
    if i == start {
        return None;
    }
    Some(acc as u16)
}

} // verus!
