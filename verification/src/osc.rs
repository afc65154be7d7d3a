//! The wire form of the outbound pose stream.
//!
//! A datagram is an address pattern, a type-tag string and the tagged
//! arguments, one after the other with no length prefix. A string is followed
//! by one to four zero bytes, so that it ends on a multiple of four. An
//! integer is four bytes and a double is eight, both big-endian.

use vstd::prelude::*;
use vstd::string::StringSliceAdditionalSpecFns;
use crate::geometry::{Double, Point3, Quaternion, Vector3};

verus! {

/// `std::io::Error`, declared so that it can stand in the `Result` of the
/// writing functions. Nothing is claimed of a value of it: verified code
/// never makes one and only hands on what an implementation of [`Message`]
/// returned.
#[verifier::external_type_specification]
#[verifier::external_body]
pub struct ExIoError(std::io::Error);

/// How many zero bytes follow a string of `len` bytes: at least one, and as
/// many as it takes to reach the next multiple of four.
pub open spec fn pad_len(len: nat) -> nat {
    (4 - len % 4) as nat
}

/// A string's bytes with its terminating zeros.
pub open spec fn padded(bytes: Seq<u8>) -> Seq<u8> {
    bytes + Seq::new(pad_len(bytes.len()), |i: int| 0u8)
}

/// The four bytes of `x`, most significant first.
#[verifier::opaque]
pub open spec fn be_bytes_u32(x: u32) -> Seq<u8> {
    seq![
        (x / 0x100_0000) as u8,
        (x / 0x1_0000 % 0x100) as u8,
        (x / 0x100 % 0x100) as u8,
        (x % 0x100) as u8,
    ]
}

/// The eight bytes of `x`, most significant first.
#[verifier::opaque]
pub open spec fn be_bytes_u64(x: u64) -> Seq<u8> {
    seq![
        (x / 0x100_0000_0000_0000) as u8,
        (x / 0x1_0000_0000_0000 % 0x100) as u8,
        (x / 0x100_0000_0000 % 0x100) as u8,
        (x / 0x1_0000_0000 % 0x100) as u8,
        (x / 0x100_0000 % 0x100) as u8,
        (x / 0x1_0000 % 0x100) as u8,
        (x / 0x100 % 0x100) as u8,
        (x % 0x100) as u8,
    ]
}

/// The unsigned number with the same 32 bits as `x` in two's complement.
pub open spec fn twos_complement(x: i32) -> u32 {
    if x >= 0 {
        x as u32
    } else {
        (x + 0x1_0000_0000) as u32
    }
}

/// The wire form of an integer argument.
pub open spec fn int_wire(x: i32) -> Seq<u8> {
    be_bytes_u32(twos_complement(x))
}

/// The wire form of a double argument: its bit pattern, big-endian.
pub open spec fn double_wire(d: Double) -> Seq<u8> {
    be_bytes_u64(d.bits)
}

/// The wire form of a string argument.
pub open spec fn string_wire(s: &str) -> Seq<u8> {
    padded(s.spec_bytes())
}

/// Writes arguments in wire form to the end of a byte buffer.
pub struct OscPadWriter {
    inner: Vec<u8>,
}

impl View for OscPadWriter {
    type V = Seq<u8>;

    /// The bytes in the buffer.
    closed spec fn view(&self) -> Seq<u8> {
        self.inner@
    }
}

impl OscPadWriter {
    /// A writer that appends to what `inner` holds.
    pub fn new(inner: Vec<u8>) -> (w: OscPadWriter)
        ensures
            w@ == inner@,
    {
        OscPadWriter { inner }
    }

    /// Gives the buffer back.
    pub fn into_inner(self) -> (inner: Vec<u8>)
        ensures
            inner@ == self@,
    {
        self.inner
    }

    /// Appends a string and its padding. Returns how many bytes that took.
    pub fn write_string(&mut self, s: &str) -> (r: Result<usize, std::io::Error>)
        ensures
            final(self)@ == old(self)@ + string_wire(s),
            r matches Ok(n) && n == string_wire(s).len(),
    {
        let bytes = s.as_bytes();
        let len = bytes.len();
        let rest: usize = len % 4;
        let pad: usize = 4 - rest;
        let ghost before = self.inner@;
        let mut i: usize = 0;
        while i < len
            invariant
                i <= len,
                len == bytes@.len(),
                self.inner@ == before + bytes@.subrange(0, i as int),
            decreases len - i,
        {
            self.inner.push(bytes[i]);
            i = i + 1;
        }
        assert(bytes@.subrange(0, len as int) == bytes@);
        let mut j: usize = 0;
        while j < pad
            invariant
                j <= pad,
                self.inner@ == before + bytes@ + Seq::new(j as nat, |k: int| 0u8),
            decreases pad - j,
        {
            self.inner.push(0u8);
            j = j + 1;
        }
        // The buffer's length fits a `usize`, so what was added to it does.
        let total = self.inner.len();
        assert(self.inner@ == before + padded(bytes@));
        assert(total == before.len() + len + pad);
        Ok(len + pad)
    }

    /// Appends an integer, big-endian in two's complement. Returns four.
    pub fn write_int(&mut self, u: i32) -> (r: Result<usize, std::io::Error>)
        ensures
            final(self)@ == old(self)@ + int_wire(u),
            r == Ok::<usize, std::io::Error>(4),
    {
        let x: u32 = if u >= 0 {
            u as u32
        } else {
            (u as i64 + 0x1_0000_0000) as u32
        };
        let ghost before = self.inner@;
        proof {
            reveal(be_bytes_u32);
        }
        self.inner.push((x / 0x100_0000) as u8);
        self.inner.push((x / 0x1_0000 % 0x100) as u8);
        self.inner.push((x / 0x100 % 0x100) as u8);
        self.inner.push((x % 0x100) as u8);
        assert(self.inner@ == before + int_wire(u));
        Ok(4)
    }

    /// Appends a double, its bit pattern big-endian. Returns eight.
    pub fn write_double(&mut self, d: Double) -> (r: Result<usize, std::io::Error>)
        ensures
            final(self)@ == old(self)@ + double_wire(d),
            r == Ok::<usize, std::io::Error>(8),
    {
        let x: u64 = d.bits;
        let ghost before = self.inner@;
        proof {
            reveal(be_bytes_u64);
        }
        self.inner.push((x / 0x100_0000_0000_0000) as u8);
        self.inner.push((x / 0x1_0000_0000_0000 % 0x100) as u8);
        self.inner.push((x / 0x100_0000_0000 % 0x100) as u8);
        self.inner.push((x / 0x1_0000_0000 % 0x100) as u8);
        self.inner.push((x / 0x100_0000 % 0x100) as u8);
        self.inner.push((x / 0x1_0000 % 0x100) as u8);
        self.inner.push((x / 0x100 % 0x100) as u8);
        self.inner.push((x % 0x100) as u8);
        assert(self.inner@ == before + double_wire(d));
        Ok(8)
    }
}

/// Something that can be sent as one datagram.
pub trait Message {
    /// The message on the wire.
    spec fn wire(&self) -> Seq<u8>;

    /// Appends the message to what `w` holds. Returns how many bytes that
    /// took.
    fn encode(&self, w: &mut OscPadWriter) -> (r: Result<usize, std::io::Error>)
        ensures
            r matches Ok(n) ==> final(w)@ == old(w)@ + self.wire() && n == self.wire().len(),
    ;
}

/// The pose of one tracked joint, with the calibration it is to be read under.
#[derive(Clone, Copy, Debug, PartialEq, Eq, Structural)]
pub struct PoseMessage {
    pub id: u32,
    pub is_valid: bool,
    /// Rotation of the calibration, a unit quaternion.
    pub wfd_rotation: Quaternion,
    /// Where the calibration puts the origin of the sensor.
    pub wfd_translation: Vector3,
    /// Position of the joint, in metres.
    pub position: Point3,
    /// Orientation of the joint, a unit quaternion.
    pub orientation: Quaternion,
}

/// The signed number with the same 32 bits as `x`.
pub open spec fn reinterpret_signed(x: u32) -> i32 {
    if x < 0x8000_0000 {
        x as i32
    } else {
        (x - 0x1_0000_0000) as i32
    }
}

/// The wire form of a flag: the integer one or zero.
pub open spec fn flag_wire(flag: bool) -> Seq<u8> {
    int_wire(if flag { 1i32 } else { 0i32 })
}

/// The wire form of a quaternion: scalar part first, then `i`, `j`, `k`.
pub open spec fn quaternion_wire(q: Quaternion) -> Seq<u8> {
    double_wire(q.w) + double_wire(q.i) + double_wire(q.j) + double_wire(q.k)
}

/// The wire form of three coordinates: `x`, `y`, `z`.
pub open spec fn triple_wire(x: Double, y: Double, z: Double) -> Seq<u8> {
    double_wire(x) + double_wire(y) + double_wire(z)
}

impl PoseMessage {
    /// The address pattern and the type tags, then the identifier, the
    /// validity flag, the calibration's rotation and translation, the joint's
    /// position and its orientation.
    pub open spec fn spec_wire(self) -> Seq<u8> {
        string_wire("/Tracker/Pose") + string_wire(",iidddddddddddddd") + be_bytes_u32(self.id)
            + flag_wire(self.is_valid) + quaternion_wire(self.wfd_rotation) + triple_wire(
            self.wfd_translation.x,
            self.wfd_translation.y,
            self.wfd_translation.z,
        ) + triple_wire(self.position.x, self.position.y, self.position.z) + quaternion_wire(
            self.orientation,
        )
    }
}

/// Reading 32 bits as signed and writing them in two's complement gives the
/// same bits back.
pub proof fn lemma_reinterpret_signed(x: u32)
    ensures
        twos_complement(reinterpret_signed(x)) == x,
        int_wire(reinterpret_signed(x)) == be_bytes_u32(x),
{
}

fn write_quaternion(w: &mut OscPadWriter, q: &Quaternion) -> (r: Result<usize, std::io::Error>)
    ensures
        final(w)@ == old(w)@ + quaternion_wire(*q),
        r == Ok::<usize, std::io::Error>(32),
{
    let ghost before = w@;
    w.write_double(q.w)?;
    w.write_double(q.i)?;
    w.write_double(q.j)?;
    w.write_double(q.k)?;
    assert(w@ == before + quaternion_wire(*q));
    Ok(32)
}

fn write_triple(w: &mut OscPadWriter, x: Double, y: Double, z: Double) -> (r: Result<
    usize,
    std::io::Error,
>)
    ensures
        final(w)@ == old(w)@ + triple_wire(x, y, z),
        r == Ok::<usize, std::io::Error>(24),
{
    let ghost before = w@;
    w.write_double(x)?;
    w.write_double(y)?;
    w.write_double(z)?;
    assert(w@ == before + triple_wire(x, y, z));
    Ok(24)
}

impl Message for PoseMessage {
    open spec fn wire(&self) -> Seq<u8> {
        self.spec_wire()
    }

    /// Never fails, and always takes 156 bytes.
    fn encode(&self, w: &mut OscPadWriter) -> (r: Result<usize, std::io::Error>)
        ensures
            final(w)@ == old(w)@ + self.wire(),
            r matches Ok(n) && n == self.wire().len() && n == 156,
    {
        let ghost before = w@;
        let ghost mut written = Seq::<u8>::empty();
        let mut len: usize = 0;

        len = len + w.write_string("/Tracker/Pose")?;
        proof {
            lemma_string_wire_lengths();
            lemma_wire_lengths();
            written = lemma_appended(before, written, string_wire("/Tracker/Pose"));
            assert(written == string_wire("/Tracker/Pose"));
        }
        len = len + w.write_string(",iidddddddddddddd")?;
        proof {
            written = lemma_appended(before, written, string_wire(",iidddddddddddddd"));
        }
        let id: i32 = if self.id < 0x8000_0000 {
            self.id as i32
        } else {
            (self.id as i64 - 0x1_0000_0000) as i32
        };
        len = len + w.write_int(id)?;
        proof {
            lemma_reinterpret_signed(self.id);
            written = lemma_appended(before, written, be_bytes_u32(self.id));
        }
        len = len + w.write_int(if self.is_valid { 1 } else { 0 })?;
        proof {
            written = lemma_appended(before, written, flag_wire(self.is_valid));
        }
        len = len + write_quaternion(w, &self.wfd_rotation)?;
        proof {
            written = lemma_appended(before, written, quaternion_wire(self.wfd_rotation));
        }
        len = len + write_triple(
            w,
            self.wfd_translation.x,
            self.wfd_translation.y,
            self.wfd_translation.z,
        )?;
        proof {
            written = lemma_appended(
                before,
                written,
                triple_wire(self.wfd_translation.x, self.wfd_translation.y, self.wfd_translation.z),
            );
        }
        len = len + write_triple(w, self.position.x, self.position.y, self.position.z)?;
        proof {
            written = lemma_appended(
                before,
                written,
                triple_wire(self.position.x, self.position.y, self.position.z),
            );
        }
        len = len + write_quaternion(w, &self.orientation)?;
        proof {
            written = lemma_appended(before, written, quaternion_wire(self.orientation));
        }
        Ok(len)
    }
}

/// An integer takes four bytes on the wire and a double eight.
pub proof fn lemma_wire_lengths()
    ensures
        forall|x: u32| #[trigger] be_bytes_u32(x).len() == 4,
        forall|x: i32| #[trigger] int_wire(x).len() == 4,
        forall|flag: bool| #[trigger] flag_wire(flag).len() == 4,
        forall|d: Double| #[trigger] double_wire(d).len() == 8,
        forall|q: Quaternion| #[trigger] quaternion_wire(q).len() == 32,
        forall|x: Double, y: Double, z: Double| #[trigger] triple_wire(x, y, z).len() == 24,
{
    reveal(be_bytes_u32);
    reveal(be_bytes_u64);
}

/// Appending `part` to `before + written` is appending `written + part` to
/// `before`. Returns `written + part`.
proof fn lemma_appended(before: Seq<u8>, written: Seq<u8>, part: Seq<u8>) -> (all: Seq<u8>)
    ensures
        all == written + part,
        before + written + part == before + all,
        all.len() == written.len() + part.len(),
{
    assert(before + written + part == before + (written + part));
    written + part
}

/// The address pattern takes sixteen bytes on the wire and the type tags
/// twenty.
pub proof fn lemma_string_wire_lengths()
    ensures
        string_wire("/Tracker/Pose").len() == 16,
        string_wire(",iidddddddddddddd").len() == 20,
{
    reveal_strlit("/Tracker/Pose");
    reveal_strlit(",iidddddddddddddd");
    vstd::string::is_ascii_spec_bytes("/Tracker/Pose");
    vstd::string::is_ascii_spec_bytes(",iidddddddddddddd");
}

/// A string is followed by one to four zero bytes and then ends on a
/// multiple of four; one whose length already is a multiple of four gets all
/// four.
pub proof fn law_string_padding(bytes: Seq<u8>)
    ensures
        1 <= pad_len(bytes.len()) <= 4,
        padded(bytes).len() == bytes.len() + pad_len(bytes.len()),
        padded(bytes).len() % 4 == 0,
        bytes.len() % 4 == 0 ==> pad_len(bytes.len()) == 4,
        padded(bytes).subrange(0, bytes.len() as int) == bytes,
        forall|i: int| bytes.len() <= i < padded(bytes).len() ==> padded(bytes)[i] == 0,
{
}

/// The type tags name the arguments in the order in which they are written:
/// two integers, then fourteen doubles.
pub proof fn law_type_tags()
    ensures
        ",iidddddddddddddd"@ == seq![',', 'i', 'i'] + Seq::new(14, |i: int| 'd'),
{
    reveal_strlit(",iidddddddddddddd");
    assert(",iidddddddddddddd"@ =~= seq![',', 'i', 'i'] + Seq::new(14, |i: int| 'd'));
}

/// Every pose takes the same room on the wire: sixteen bytes of address,
/// twenty of type tags, two integers and fourteen doubles.
pub proof fn law_pose_wire_length(message: PoseMessage)
    ensures
        message.spec_wire().len() == 156,
{
    lemma_string_wire_lengths();
    lemma_wire_lengths();
}

/// Lays `message` out as one datagram in `buf`, which is emptied first, so
/// that one buffer serves every send. Returns the datagram's length.
///
/// What is returned and what `buf` then holds are what `message.encode` gives
/// when it is handed an empty writer. So the datagram is the message's wire
/// form wherever encoding succeeds, and encoding a message whose `encode`
/// never fails, as that of [`PoseMessage`], never fails here.
pub fn encode_datagram<M: Message>(message: &M, buf: &mut Vec<u8>) -> (r: Result<
    usize,
    std::io::Error,
>)
    ensures
        exists|w: &mut OscPadWriter|
            (*w)@ == Seq::<u8>::empty() && (*final(w))@ == final(buf)@ && call_ensures(
                <M as Message>::encode,
                (message, w),
                r,
            ),
        r matches Ok(n) ==> final(buf)@ == message.wire() && n == message.wire().len(),
{
    buf.clear();
    let mut taken: Vec<u8> = Vec::new();
    std::mem::swap(buf, &mut taken);
    let mut w = OscPadWriter::new(taken);
    let r = message.encode(&mut w);
    *buf = w.into_inner();
    proof {
        assert(Seq::<u8>::empty() + message.wire() == message.wire());
    }
    r
}

} // verus!
