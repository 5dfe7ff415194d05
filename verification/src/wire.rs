//! The byte format in which records are kept.
//!
//! A record is written as the concatenation of its fields, in declaration
//! order, with no padding and no tags:
//!
//! * an unsigned integer of 8, 32 or 64 bits: little-endian, fixed width;
//! * a signed 32-bit integer: the unsigned 32-bit integer `x + 2^31`;
//! * a boolean: one byte, `0` or `1`;
//! * a text: its UTF-8 length as a 32-bit integer, then the UTF-8 bytes;
//! * a list: its length as a 32-bit integer, then the items.
//!
//! Each kind of field has a spec function that writes it (`*_wire`), a spec
//! function that reads it off the front of a byte sequence (`*_parse`, which
//! also hands back what follows the field), a lemma that reading undoes
//! writing, and executable code proved against both.
use vstd::prelude::*;
use vstd::bytes::*;
use vstd::slice::*;
use vstd::string::*;
use vstd::utf8::*;

verus! {

/// Whether a length can be written as a 32-bit integer. A text or a list
/// that is longer is not read back as it was written.
pub open spec fn fits_u32(n: nat) -> bool {
    n <= u32::MAX
}

// ---------------------------------------------------------------------------
// Unsigned integers
// ---------------------------------------------------------------------------
pub open spec fn u8_wire(x: u8) -> Seq<u8> {
    seq![x]
}

pub open spec fn u8_parse(s: Seq<u8>) -> Option<(u8, Seq<u8>)> {
    if s.len() >= 1 {
        Some((s[0], s.skip(1)))
    } else {
        None
    }
}

pub open spec fn u32_wire(x: u32) -> Seq<u8> {
    spec_u32_to_le_bytes(x)
}

pub open spec fn u32_parse(s: Seq<u8>) -> Option<(u32, Seq<u8>)> {
    if s.len() >= 4 {
        Some((spec_u32_from_le_bytes(s.take(4)), s.skip(4)))
    } else {
        None
    }
}

pub open spec fn u64_wire(x: u64) -> Seq<u8> {
    spec_u64_to_le_bytes(x)
}

pub open spec fn u64_parse(s: Seq<u8>) -> Option<(u64, Seq<u8>)> {
    if s.len() >= 8 {
        Some((spec_u64_from_le_bytes(s.take(8)), s.skip(8)))
    } else {
        None
    }
}

pub proof fn lemma_u8_parse(x: u8, rest: Seq<u8>)
    ensures
        u8_parse(u8_wire(x) + rest) == Some((x, rest)),
        u8_wire(x).len() == 1,
{
    assert((u8_wire(x) + rest).skip(1) =~= rest);
}

pub proof fn lemma_u32_parse(x: u32, rest: Seq<u8>)
    ensures
        u32_parse(u32_wire(x) + rest) == Some((x, rest)),
        u32_wire(x).len() == 4,
{
    lemma_auto_spec_u32_to_from_le_bytes();
    let s = u32_wire(x) + rest;
    assert(s.take(4) =~= u32_wire(x));
    assert(s.skip(4) =~= rest);
}

pub proof fn lemma_u64_parse(x: u64, rest: Seq<u8>)
    ensures
        u64_parse(u64_wire(x) + rest) == Some((x, rest)),
        u64_wire(x).len() == 8,
{
    lemma_auto_spec_u64_to_from_le_bytes();
    let s = u64_wire(x) + rest;
    assert(s.take(8) =~= u64_wire(x));
    assert(s.skip(8) =~= rest);
}

// ---------------------------------------------------------------------------
// Signed integers and booleans
// ---------------------------------------------------------------------------
/// The distance between a signed 32-bit integer and the unsigned integer
/// that is written for it.
pub const I32_BIAS: i64 = 0x8000_0000;

pub open spec fn i32_wire(x: i32) -> Seq<u8> {
    u32_wire((x + I32_BIAS) as u32)
}

pub open spec fn i32_parse(s: Seq<u8>) -> Option<(i32, Seq<u8>)> {
    match u32_parse(s) {
        Some((raw, rest)) => Some(((raw - I32_BIAS) as i32, rest)),
        None => None,
    }
}

pub proof fn lemma_i32_parse(x: i32, rest: Seq<u8>)
    ensures
        i32_parse(i32_wire(x) + rest) == Some((x, rest)),
        i32_wire(x).len() == 4,
{
    lemma_u32_parse((x + I32_BIAS) as u32, rest);
}

pub open spec fn bool_wire(b: bool) -> Seq<u8> {
    seq![if b { 1u8 } else { 0u8 }]
}

pub open spec fn bool_parse(s: Seq<u8>) -> Option<(bool, Seq<u8>)> {
    if s.len() >= 1 && s[0] <= 1 {
        Some((s[0] == 1, s.skip(1)))
    } else {
        None
    }
}

pub proof fn lemma_bool_parse(b: bool, rest: Seq<u8>)
    ensures
        bool_parse(bool_wire(b) + rest) == Some((b, rest)),
        bool_wire(b).len() == 1,
{
    assert((bool_wire(b) + rest).skip(1) =~= rest);
}

// ---------------------------------------------------------------------------
// Texts
// ---------------------------------------------------------------------------
pub open spec fn text_wire(t: Seq<char>) -> Seq<u8> {
    u32_wire(encode_utf8(t).len() as u32) + encode_utf8(t)
}

pub open spec fn text_parse(s: Seq<u8>) -> Option<(Seq<char>, Seq<u8>)> {
    match u32_parse(s) {
        Some((n, rest)) => {
            if n <= rest.len() && valid_utf8(rest.take(n as int)) {
                Some((decode_utf8(rest.take(n as int)), rest.skip(n as int)))
            } else {
                None
            }
        },
        None => None,
    }
}

pub proof fn lemma_text_parse(t: Seq<char>, rest: Seq<u8>)
    requires
        fits_u32(encode_utf8(t).len()),
    ensures
        text_parse(text_wire(t) + rest) == Some((t, rest)),
        text_wire(t).len() == 4 + encode_utf8(t).len(),
{
    let body = encode_utf8(t);
    let n = body.len() as u32;
    lemma_u32_parse(n, body + rest);
    assert(text_wire(t) + rest =~= u32_wire(n) + (body + rest));
    assert((body + rest).take(n as int) =~= body);
    assert((body + rest).skip(n as int) =~= rest);
    encode_utf8_valid_utf8(t);
    encode_utf8_decode_utf8(t);
}

// ---------------------------------------------------------------------------
// Lists of identifiers
// ---------------------------------------------------------------------------
/// The items of a list of identifiers, one after the other.
pub open spec fn ids_body(ids: Seq<u64>) -> Seq<u8>
    decreases ids.len(),
{
    if ids.len() == 0 {
        Seq::empty()
    } else {
        ids_body(ids.drop_last()) + u64_wire(ids.last())
    }
}

pub open spec fn ids_wire(ids: Seq<u64>) -> Seq<u8> {
    u32_wire(ids.len() as u32) + ids_body(ids)
}

/// Reads `n` identifiers off the front of `s`.
pub open spec fn ids_items(s: Seq<u8>, n: nat) -> Option<(Seq<u64>, Seq<u8>)>
    decreases n,
{
    if n == 0 {
        Some((Seq::empty(), s))
    } else {
        match ids_items(s, (n - 1) as nat) {
            Some((front, rest)) => match u64_parse(rest) {
                Some((x, after)) => Some((front.push(x), after)),
                None => None,
            },
            None => None,
        }
    }
}

pub open spec fn ids_parse(s: Seq<u8>) -> Option<(Seq<u64>, Seq<u8>)> {
    match u32_parse(s) {
        Some((n, rest)) => ids_items(rest, n as nat),
        None => None,
    }
}

pub proof fn lemma_ids_body_len(ids: Seq<u64>)
    ensures
        ids_body(ids).len() == 8 * ids.len(),
    decreases ids.len(),
{
    if ids.len() > 0 {
        lemma_ids_body_len(ids.drop_last());
        lemma_u64_parse(ids.last(), Seq::empty());
    }
}

pub proof fn lemma_ids_items(ids: Seq<u64>, rest: Seq<u8>)
    ensures
        ids_items(ids_body(ids) + rest, ids.len()) == Some((ids, rest)),
    decreases ids.len(),
{
    if ids.len() == 0 {
        assert(ids_body(ids) + rest =~= rest);
        assert(ids =~= Seq::empty());
    } else {
        let front = ids.drop_last();
        let last = ids.last();
        let tail = u64_wire(last) + rest;
        assert(ids_body(ids) + rest =~= ids_body(front) + tail);
        lemma_ids_items(front, tail);
        lemma_u64_parse(last, rest);
        assert(front.push(last) =~= ids);
    }
}

pub proof fn lemma_ids_parse(ids: Seq<u64>, rest: Seq<u8>)
    requires
        fits_u32(ids.len()),
    ensures
        ids_parse(ids_wire(ids) + rest) == Some((ids, rest)),
        ids_wire(ids).len() == 4 + 8 * ids.len(),
{
    let n = ids.len() as u32;
    lemma_u32_parse(n, ids_body(ids) + rest);
    assert(ids_wire(ids) + rest =~= u32_wire(n) + (ids_body(ids) + rest));
    lemma_ids_items(ids, rest);
    lemma_ids_body_len(ids);
}

// ---------------------------------------------------------------------------
// Lists of signed readings
// ---------------------------------------------------------------------------
/// The items of a list of signed 32-bit readings, one after the other.
pub open spec fn readings_body(xs: Seq<i32>) -> Seq<u8>
    decreases xs.len(),
{
    if xs.len() == 0 {
        Seq::empty()
    } else {
        readings_body(xs.drop_last()) + i32_wire(xs.last())
    }
}

pub open spec fn readings_wire(xs: Seq<i32>) -> Seq<u8> {
    u32_wire(xs.len() as u32) + readings_body(xs)
}

/// Reads `n` readings off the front of `s`.
pub open spec fn readings_items(s: Seq<u8>, n: nat) -> Option<(Seq<i32>, Seq<u8>)>
    decreases n,
{
    if n == 0 {
        Some((Seq::empty(), s))
    } else {
        match readings_items(s, (n - 1) as nat) {
            Some((front, rest)) => match i32_parse(rest) {
                Some((x, after)) => Some((front.push(x), after)),
                None => None,
            },
            None => None,
        }
    }
}

pub open spec fn readings_parse(s: Seq<u8>) -> Option<(Seq<i32>, Seq<u8>)> {
    match u32_parse(s) {
        Some((n, rest)) => readings_items(rest, n as nat),
        None => None,
    }
}

pub proof fn lemma_readings_body_len(xs: Seq<i32>)
    ensures
        readings_body(xs).len() == 4 * xs.len(),
    decreases xs.len(),
{
    if xs.len() > 0 {
        lemma_readings_body_len(xs.drop_last());
        lemma_i32_parse(xs.last(), Seq::empty());
    }
}

pub proof fn lemma_readings_items(xs: Seq<i32>, rest: Seq<u8>)
    ensures
        readings_items(readings_body(xs) + rest, xs.len()) == Some((xs, rest)),
    decreases xs.len(),
{
    if xs.len() == 0 {
        assert(readings_body(xs) + rest =~= rest);
        assert(xs =~= Seq::empty());
    } else {
        let front = xs.drop_last();
        let last = xs.last();
        let tail = i32_wire(last) + rest;
        assert(readings_body(xs) + rest =~= readings_body(front) + tail);
        lemma_readings_items(front, tail);
        lemma_i32_parse(last, rest);
        assert(front.push(last) =~= xs);
    }
}

pub proof fn lemma_readings_parse(xs: Seq<i32>, rest: Seq<u8>)
    requires
        fits_u32(xs.len()),
    ensures
        readings_parse(readings_wire(xs) + rest) == Some((xs, rest)),
        readings_wire(xs).len() == 4 + 4 * xs.len(),
{
    let n = xs.len() as u32;
    lemma_u32_parse(n, readings_body(xs) + rest);
    assert(readings_wire(xs) + rest =~= u32_wire(n) + (readings_body(xs) + rest));
    lemma_readings_items(xs, rest);
    lemma_readings_body_len(xs);
}

/// Concatenation may be regrouped.
pub proof fn lemma_regroup(a: Seq<u8>, b: Seq<u8>, c: Seq<u8>)
    ensures
        (a + b) + c == a + (b + c),
{
    assert((a + b) + c =~= a + (b + c));
}


// ---------------------------------------------------------------------------
// Writing
// ---------------------------------------------------------------------------
pub fn put_u8(buf: &mut Vec<u8>, x: u8)
    ensures
        final(buf)@ == old(buf)@ + u8_wire(x),
{
    buf.push(x);
    assert(buf@ =~= old(buf)@ + u8_wire(x));
}

pub fn put_u32(buf: &mut Vec<u8>, x: u32)
    ensures
        final(buf)@ == old(buf)@ + u32_wire(x),
{
    let mut bytes = u32_to_le_bytes(x);
    buf.append(&mut bytes);
}

pub fn put_u64(buf: &mut Vec<u8>, x: u64)
    ensures
        final(buf)@ == old(buf)@ + u64_wire(x),
{
    let mut bytes = u64_to_le_bytes(x);
    buf.append(&mut bytes);
}

pub fn put_i32(buf: &mut Vec<u8>, x: i32)
    ensures
        final(buf)@ == old(buf)@ + i32_wire(x),
{
    let raw: u32 = (x as i64 + I32_BIAS) as u32;
    put_u32(buf, raw);
}

pub fn put_bool(buf: &mut Vec<u8>, b: bool)
    ensures
        final(buf)@ == old(buf)@ + bool_wire(b),
{
    let byte: u8 = if b { 1 } else { 0 };
    buf.push(byte);
    assert(buf@ =~= old(buf)@ + bool_wire(b));
}

pub fn put_text(buf: &mut Vec<u8>, t: &String)
    ensures
        final(buf)@ == old(buf)@ + text_wire(t@),
{
    let bytes = t.as_str().as_bytes();
    let n: usize = bytes.len();
    put_u32(buf, n as u32);
    let mut body = slice_to_vec(bytes);
    buf.append(&mut body);
    proof {
        lemma_regroup(old(buf)@, u32_wire(n as u32), encode_utf8(t@));
    }
}

pub fn put_ids(buf: &mut Vec<u8>, ids: &Vec<u64>)
    ensures
        final(buf)@ == old(buf)@ + ids_wire(ids@),
{
    let n: usize = ids.len();
    put_u32(buf, n as u32);
    let ghost head = buf@;
    let mut i: usize = 0;
    while i < n
        invariant
            n == ids.len(),
            i <= n,
            buf@ == head + ids_body(ids@.take(i as int)),
        decreases n - i,
    {
        put_u64(buf, ids[i]);
        proof {
            let before = ids@.take(i as int);
            let after = ids@.take(i + 1);
            assert(after.drop_last() =~= before);
            lemma_regroup(head, ids_body(before), u64_wire(ids@[i as int]));
        }
        i += 1;
    }
    proof {
        assert(ids@.take(n as int) =~= ids@);
        lemma_regroup(old(buf)@, u32_wire(n as u32), ids_body(ids@));
    }
}

pub fn put_readings(buf: &mut Vec<u8>, xs: &Vec<i32>)
    ensures
        final(buf)@ == old(buf)@ + readings_wire(xs@),
{
    let n: usize = xs.len();
    put_u32(buf, n as u32);
    let ghost head = buf@;
    let mut i: usize = 0;
    while i < n
        invariant
            n == xs.len(),
            i <= n,
            buf@ == head + readings_body(xs@.take(i as int)),
        decreases n - i,
    {
        put_i32(buf, xs[i]);
        proof {
            let before = xs@.take(i as int);
            let after = xs@.take(i + 1);
            assert(after.drop_last() =~= before);
            lemma_regroup(head, readings_body(before), i32_wire(xs@[i as int]));
        }
        i += 1;
    }
    proof {
        assert(xs@.take(n as int) =~= xs@);
        lemma_regroup(old(buf)@, u32_wire(n as u32), readings_body(xs@));
    }
}

// ---------------------------------------------------------------------------
// Reading
// ---------------------------------------------------------------------------
/// `String::from_utf8` of std: the text that the bytes spell, or nothing where
/// they are not well-formed UTF-8.
#[verifier::external_body]
fn text_from_utf8(bytes: Vec<u8>) -> (r: Option<String>)
    ensures
        match r {
            Some(t) => valid_utf8(bytes@) && t@ == decode_utf8(bytes@),
            None => !valid_utf8(bytes@),
        },
{
    String::from_utf8(bytes).ok()
}

/// A position in a byte slice, from which fields are read one after the
/// other.
pub struct Reader<'a> {
    bytes: &'a [u8],
    pos: usize,
}

impl<'a> Reader<'a> {
    pub closed spec fn wf(&self) -> bool {
        self.pos <= self.bytes@.len()
    }

    /// The bytes that have not been read yet.
    pub closed spec fn rest(&self) -> Seq<u8> {
        self.bytes@.skip(self.pos as int)
    }

    pub fn new(bytes: &'a [u8]) -> (r: Self)
        ensures
            r.wf(),
            r.rest() == bytes@,
    {
        let r = Reader { bytes, pos: 0 };
        assert(bytes@.skip(0) =~= bytes@);
        r
    }

    /// Whether every byte has been read.
    pub fn is_done(&self) -> (done: bool)
        requires
            self.wf(),
        ensures
            done == (self.rest().len() == 0),
    {
        self.pos == self.bytes.len()
    }

    /// Moves `n` bytes on, or reports that fewer are left.
    fn advance(&mut self, n: usize) -> (r: Option<&'a [u8]>)
        requires
            old(self).wf(),
        ensures
            final(self).wf(),
            match r {
                Some(part) => {
                    &&& n <= old(self).rest().len()
                    &&& part@ == old(self).rest().take(n as int)
                    &&& final(self).rest() == old(self).rest().skip(n as int)
                },
                None => n > old(self).rest().len() && *final(self) == *old(self),
            },
    {
        if n > self.bytes.len() - self.pos {
            return None;
        }
        let start = self.pos;
        let part = slice_subrange(self.bytes, start, start + n);
        self.pos = start + n;
        proof {
            let all = self.bytes@;
            assert(all.subrange(start as int, start + n) =~= all.skip(start as int).take(n as int));
            assert(all.skip(start + n) =~= all.skip(start as int).skip(n as int));
        }
        Some(part)
    }

    pub fn u8(&mut self) -> (r: Option<u8>)
        requires
            old(self).wf(),
        ensures
            final(self).wf(),
            match u8_parse(old(self).rest()) {
                Some((x, rest)) => r == Some(x) && final(self).rest() == rest,
                None => r is None,
            },
    {
        match self.advance(1) {
            Some(part) => Some(part[0]),
            None => None,
        }
    }

    pub fn u32(&mut self) -> (r: Option<u32>)
        requires
            old(self).wf(),
        ensures
            final(self).wf(),
            match u32_parse(old(self).rest()) {
                Some((x, rest)) => r == Some(x) && final(self).rest() == rest,
                None => r is None,
            },
    {
        match self.advance(4) {
            Some(part) => Some(u32_from_le_bytes(part)),
            None => None,
        }
    }

    pub fn u64(&mut self) -> (r: Option<u64>)
        requires
            old(self).wf(),
        ensures
            final(self).wf(),
            match u64_parse(old(self).rest()) {
                Some((x, rest)) => r == Some(x) && final(self).rest() == rest,
                None => r is None,
            },
    {
        match self.advance(8) {
            Some(part) => Some(u64_from_le_bytes(part)),
            None => None,
        }
    }

    pub fn i32(&mut self) -> (r: Option<i32>)
        requires
            old(self).wf(),
        ensures
            final(self).wf(),
            match i32_parse(old(self).rest()) {
                Some((x, rest)) => r == Some(x) && final(self).rest() == rest,
                None => r is None,
            },
    {
        match self.u32() {
            Some(raw) => Some((raw as i64 - I32_BIAS) as i32),
            None => None,
        }
    }

    pub fn bool(&mut self) -> (r: Option<bool>)
        requires
            old(self).wf(),
        ensures
            final(self).wf(),
            match bool_parse(old(self).rest()) {
                Some((b, rest)) => r == Some(b) && final(self).rest() == rest,
                None => r is None,
            },
    {
        match self.advance(1) {
            Some(part) => {
                let byte = part[0];
                if byte <= 1 {
                    Some(byte == 1)
                } else {
                    None
                }
            },
            None => None,
        }
    }

    pub fn text(&mut self) -> (r: Option<String>)
        requires
            old(self).wf(),
        ensures
            final(self).wf(),
            match text_parse(old(self).rest()) {
                Some((t, rest)) => r is Some && r->0@ == t && final(self).rest() == rest,
                None => r is None,
            },
    {
        let n = match self.u32() {
            Some(n) => n,
            None => { return None; },
        };
        let part = match self.advance(n as usize) {
            Some(part) => part,
            None => { return None; },
        };
        text_from_utf8(slice_to_vec(part))
    }

    pub fn ids(&mut self) -> (r: Option<Vec<u64>>)
        requires
            old(self).wf(),
        ensures
            final(self).wf(),
            match ids_parse(old(self).rest()) {
                Some((ids, rest)) => r is Some && r->0@ == ids && final(self).rest() == rest,
                None => r is None,
            },
    {
        let n = match self.u32() {
            Some(n) => n,
            None => { return None; },
        };
        let ghost start = self.rest();
        let mut out: Vec<u64> = Vec::new();
        let mut i: u32 = 0;
        while i < n
            invariant
                self.wf(),
                i <= n,
                u32_parse(old(self).rest()) == Some((n, start)),
                ids_items(start, i as nat) == Some((out@, self.rest())),
            decreases n - i,
        {
            match self.u64() {
                Some(x) => { out.push(x); },
                None => {
                    proof {
                        assert(ids_items(start, (i + 1) as nat) is None);
                        lemma_ids_items_stuck(start, i as nat, n as nat);
                    }
                    return None;
                },
            }
            i += 1;
        }
        Some(out)
    }

    pub fn readings(&mut self) -> (r: Option<Vec<i32>>)
        requires
            old(self).wf(),
        ensures
            final(self).wf(),
            match readings_parse(old(self).rest()) {
                Some((xs, rest)) => r is Some && r->0@ == xs && final(self).rest() == rest,
                None => r is None,
            },
    {
        let n = match self.u32() {
            Some(n) => n,
            None => { return None; },
        };
        let ghost start = self.rest();
        let mut out: Vec<i32> = Vec::new();
        let mut i: u32 = 0;
        while i < n
            invariant
                self.wf(),
                i <= n,
                u32_parse(old(self).rest()) == Some((n, start)),
                readings_items(start, i as nat) == Some((out@, self.rest())),
            decreases n - i,
        {
            match self.i32() {
                Some(x) => { out.push(x); },
                None => {
                    proof {
                        assert(readings_items(start, (i + 1) as nat) is None);
                        lemma_readings_items_stuck(start, i as nat, n as nat);
                    }
                    return None;
                },
            }
            i += 1;
        }
        Some(out)
    }
}

/// Once no further identifier can be read, no longer list can be read
/// either.
proof fn lemma_ids_items_stuck(s: Seq<u8>, i: nat, n: nat)
    requires
        i < n,
        ids_items(s, i + 1) is None,
    ensures
        ids_items(s, n) is None,
    decreases n,
{
    if n > i + 1 {
        lemma_ids_items_stuck(s, i, (n - 1) as nat);
    }
}

/// Once no further reading can be read, no longer list can be read either.
proof fn lemma_readings_items_stuck(s: Seq<u8>, i: nat, n: nat)
    requires
        i < n,
        readings_items(s, i + 1) is None,
    ensures
        readings_items(s, n) is None,
    decreases n,
{
    if n > i + 1 {
        lemma_readings_items_stuck(s, i, (n - 1) as nat);
    }
}

} // verus!
