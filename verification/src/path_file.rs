//! The saved form of a camera path.
//!
//! A saved path is a count, a 32-bit unsigned number, followed by that many
//! keyframe records. A record is seven binary32 numbers, four bytes each:
//! the position x, y, z, then the orientation x, y, z, w. There is no header,
//! no version and no padding, and every number is written in one byte order,
//! which the caller names. Bytes after the last record are not looked at.

use vstd::prelude::*;
use crate::node::FreecamNode;
use crate::node::Quaternion;
use crate::node::Vector3;
use crate::scalar::Scalar;

verus! {

/// The number of bytes of the count.
pub const COUNT_BYTES: usize = 4;

/// The number of bytes of one keyframe record.
pub const NODE_BYTES: usize = 28;

/// The order in which the four bytes of a number are written.
#[derive(Clone, Copy, Debug, PartialEq, Eq, Structural)]
pub enum ByteOrder {
    /// The lowest byte first.
    Little,
    /// The highest byte first.
    Big,
}

/// Why a byte string is no saved path, or a path cannot be saved.
#[derive(Clone, Copy, Debug, PartialEq, Eq, Structural)]
pub enum PathFileError {
    /// There are fewer than four bytes, so there is no count.
    MissingCount { found: usize },
    /// The count asks for more records than the bytes hold.
    Truncated { count: u32, found: usize },
    /// The path has more keyframes than a count can say.
    TooManyNodes { len: usize },
}

/// The four bytes of a number, lowest first.
pub open spec fn low_first(w: u32) -> Seq<u8> {
    seq![
        (w % 256) as u8,
        ((w / 256) % 256) as u8,
        ((w / 65536) % 256) as u8,
        (w / 16777216) as u8,
    ]
}

/// The four bytes of a number in the given order.
pub open spec fn word_bytes(w: u32, order: ByteOrder) -> Seq<u8> {
    match order {
        ByteOrder::Little => low_first(w),
        ByteOrder::Big => low_first(w).reverse(),
    }
}

/// The number whose bytes, in the given order, are `b[at..at + 4]`.
pub open spec fn word_at(b: Seq<u8>, at: int, order: ByteOrder) -> u32
    recommends
        0 <= at,
        at + 4 <= b.len(),
{
    match order {
        ByteOrder::Little => (b[at] + 256 * b[at + 1] + 65536 * b[at + 2] + 16777216 * b[at + 3]) as u32,
        ByteOrder::Big => (b[at + 3] + 256 * b[at + 2] + 65536 * b[at + 1] + 16777216 * b[at]) as u32,
    }
}

/// The 28 bytes of one keyframe record.
pub open spec fn node_bytes(node: FreecamNode, order: ByteOrder) -> Seq<u8> {
    word_bytes(node.trans.x.bits, order) + word_bytes(node.trans.y.bits, order) + word_bytes(
        node.trans.z.bits,
        order,
    ) + word_bytes(node.rot.x.bits, order) + word_bytes(node.rot.y.bits, order) + word_bytes(
        node.rot.z.bits,
        order,
    ) + word_bytes(node.rot.w.bits, order)
}

/// The keyframe whose record is `b[at..at + 28]`.
pub open spec fn node_at(b: Seq<u8>, at: int, order: ByteOrder) -> FreecamNode
    recommends
        0 <= at,
        at + 28 <= b.len(),
{
    FreecamNode {
        trans: Vector3 {
            x: Scalar { bits: word_at(b, at, order) },
            y: Scalar { bits: word_at(b, at + 4, order) },
            z: Scalar { bits: word_at(b, at + 8, order) },
        },
        rot: Quaternion {
            x: Scalar { bits: word_at(b, at + 12, order) },
            y: Scalar { bits: word_at(b, at + 16, order) },
            z: Scalar { bits: word_at(b, at + 20, order) },
            w: Scalar { bits: word_at(b, at + 24, order) },
        },
    }
}

/// The records of a keyframe sequence, one after the other.
pub open spec fn records(nodes: Seq<FreecamNode>, order: ByteOrder) -> Seq<u8>
    decreases nodes.len(),
{
    if nodes.len() == 0 {
        Seq::empty()
    } else {
        records(nodes.drop_last(), order) + node_bytes(nodes.last(), order)
    }
}

/// The saved form of a keyframe sequence: the count, then the records.
pub open spec fn encoded(nodes: Seq<FreecamNode>, order: ByteOrder) -> Seq<u8>
    recommends
        nodes.len() <= u32::MAX,
{
    word_bytes(nodes.len() as u32, order) + records(nodes, order)
}

/// The count that a byte string starts with.
pub open spec fn count_of(b: Seq<u8>, order: ByteOrder) -> u32
    recommends
        b.len() >= 4,
{
    word_at(b, 0, order)
}

/// The first `count` keyframes that follow the count in a byte string.
pub open spec fn decoded(b: Seq<u8>, order: ByteOrder, count: nat) -> Seq<FreecamNode>
    recommends
        b.len() >= 4 + 28 * count,
{
    Seq::new(count, |i: int| node_at(b, 4 + 28 * i, order))
}

/// Whether a byte string holds the count and all the records the count asks for.
pub open spec fn well_formed(b: Seq<u8>, order: ByteOrder) -> bool {
    b.len() >= 4 && b.len() >= 4 + 28 * count_of(b, order)
}

/// A number's four bytes give the number back.
pub proof fn lemma_word_round_trip(w: u32, order: ByteOrder)
    ensures
        word_bytes(w, order).len() == 4,
        word_at(word_bytes(w, order), 0, order) == w,
{
    let lf = low_first(w);
    assert(lf.len() == 4);
    assert(lf.reverse().len() == 4);
    assert(lf.reverse()[0] == lf[3]);
    assert(lf.reverse()[1] == lf[2]);
    assert(lf.reverse()[2] == lf[1]);
    assert(lf.reverse()[3] == lf[0]);
    assert(lf[0] + 256 * lf[1] + 65536 * lf[2] + 16777216 * lf[3] == w);
}

/// Where four bytes of a string are the bytes of a number, the number is read there.
proof fn lemma_word_read_in_place(b: Seq<u8>, at: int, w: u32, order: ByteOrder)
    requires
        0 <= at,
        at + 4 <= b.len(),
        b.subrange(at, at + 4) == word_bytes(w, order),
    ensures
        word_at(b, at, order) == w,
{
    lemma_word_round_trip(w, order);
    let s = b.subrange(at, at + 4);
    assert(s[0] == b[at]);
    assert(s[1] == b[at + 1]);
    assert(s[2] == b[at + 2]);
    assert(s[3] == b[at + 3]);
}

/// A part of a byte string is not changed by what is joined behind the string.
proof fn lemma_part_of_front(a: Seq<u8>, b: Seq<u8>, from: int, to: int)
    requires
        0 <= from <= to <= a.len(),
    ensures
        (a + b).subrange(from, to) == a.subrange(from, to),
{
    assert((a + b).subrange(from, to) =~= a.subrange(from, to));
}

/// What is joined behind a byte string stands at the string's end.
proof fn lemma_part_at_end(a: Seq<u8>, b: Seq<u8>)
    ensures
        (a + b).subrange(a.len() as int, (a.len() + b.len()) as int) == b,
{
    assert((a + b).subrange(a.len() as int, (a.len() + b.len()) as int) =~= b);
}

/// Seven strings of four bytes each, joined, stand four bytes apart.
proof fn lemma_seven_parts(
    w0: Seq<u8>,
    w1: Seq<u8>,
    w2: Seq<u8>,
    w3: Seq<u8>,
    w4: Seq<u8>,
    w5: Seq<u8>,
    w6: Seq<u8>,
)
    requires
        w0.len() == 4,
        w1.len() == 4,
        w2.len() == 4,
        w3.len() == 4,
        w4.len() == 4,
        w5.len() == 4,
        w6.len() == 4,
    ensures
        (w0 + w1 + w2 + w3 + w4 + w5 + w6).len() == 28,
        (w0 + w1 + w2 + w3 + w4 + w5 + w6).subrange(0, 4) == w0,
        (w0 + w1 + w2 + w3 + w4 + w5 + w6).subrange(4, 8) == w1,
        (w0 + w1 + w2 + w3 + w4 + w5 + w6).subrange(8, 12) == w2,
        (w0 + w1 + w2 + w3 + w4 + w5 + w6).subrange(12, 16) == w3,
        (w0 + w1 + w2 + w3 + w4 + w5 + w6).subrange(16, 20) == w4,
        (w0 + w1 + w2 + w3 + w4 + w5 + w6).subrange(20, 24) == w5,
        (w0 + w1 + w2 + w3 + w4 + w5 + w6).subrange(24, 28) == w6,
{
    let head1 = w0;
    let head2 = head1 + w1;
    let head3 = head2 + w2;
    let head4 = head3 + w3;
    let head5 = head4 + w4;
    let head6 = head5 + w5;
    let head7 = head6 + w6;
    assert(head1.subrange(0, 4) =~= w0);
    lemma_part_at_end(head1, w1);
    lemma_part_at_end(head2, w2);
    lemma_part_at_end(head3, w3);
    lemma_part_at_end(head4, w4);
    lemma_part_at_end(head5, w5);
    lemma_part_at_end(head6, w6);
    lemma_part_of_front(head1, w1, 0, 4);
    lemma_part_of_front(head2, w2, 0, 4);
    lemma_part_of_front(head2, w2, 4, 8);
    lemma_part_of_front(head3, w3, 0, 4);
    lemma_part_of_front(head3, w3, 4, 8);
    lemma_part_of_front(head3, w3, 8, 12);
    lemma_part_of_front(head4, w4, 0, 4);
    lemma_part_of_front(head4, w4, 4, 8);
    lemma_part_of_front(head4, w4, 8, 12);
    lemma_part_of_front(head4, w4, 12, 16);
    lemma_part_of_front(head5, w5, 0, 4);
    lemma_part_of_front(head5, w5, 4, 8);
    lemma_part_of_front(head5, w5, 8, 12);
    lemma_part_of_front(head5, w5, 12, 16);
    lemma_part_of_front(head5, w5, 16, 20);
    lemma_part_of_front(head6, w6, 0, 4);
    lemma_part_of_front(head6, w6, 4, 8);
    lemma_part_of_front(head6, w6, 8, 12);
    lemma_part_of_front(head6, w6, 12, 16);
    lemma_part_of_front(head6, w6, 16, 20);
    lemma_part_of_front(head6, w6, 20, 24);
}

/// A number takes four bytes.
proof fn lemma_word_len(w: u32, order: ByteOrder)
    ensures
        word_bytes(w, order).len() == 4,
{
    assert(low_first(w).len() == 4);
    assert(low_first(w).reverse().len() == 4);
}

/// A record is 28 bytes long, and its seven numbers stand four bytes apart.
pub proof fn lemma_record_layout(node: FreecamNode, order: ByteOrder)
    ensures
        node_bytes(node, order).len() == 28,
        node_bytes(node, order).subrange(0, 4) == word_bytes(node.trans.x.bits, order),
        node_bytes(node, order).subrange(4, 8) == word_bytes(node.trans.y.bits, order),
        node_bytes(node, order).subrange(8, 12) == word_bytes(node.trans.z.bits, order),
        node_bytes(node, order).subrange(12, 16) == word_bytes(node.rot.x.bits, order),
        node_bytes(node, order).subrange(16, 20) == word_bytes(node.rot.y.bits, order),
        node_bytes(node, order).subrange(20, 24) == word_bytes(node.rot.z.bits, order),
        node_bytes(node, order).subrange(24, 28) == word_bytes(node.rot.w.bits, order),
{
    lemma_word_len(node.trans.x.bits, order);
    lemma_word_len(node.trans.y.bits, order);
    lemma_word_len(node.trans.z.bits, order);
    lemma_word_len(node.rot.x.bits, order);
    lemma_word_len(node.rot.y.bits, order);
    lemma_word_len(node.rot.z.bits, order);
    lemma_word_len(node.rot.w.bits, order);
    lemma_seven_parts(
        word_bytes(node.trans.x.bits, order),
        word_bytes(node.trans.y.bits, order),
        word_bytes(node.trans.z.bits, order),
        word_bytes(node.rot.x.bits, order),
        word_bytes(node.rot.y.bits, order),
        word_bytes(node.rot.z.bits, order),
        word_bytes(node.rot.w.bits, order),
    );
}

/// A part of the middle of three joined byte strings is a part of the middle one.
proof fn lemma_part_of_middle(a: Seq<u8>, m: Seq<u8>, c: Seq<u8>, from: int, to: int)
    requires
        0 <= from <= to <= m.len(),
    ensures
        (a + m + c).subrange(a.len() + from, a.len() + to) == m.subrange(from, to),
{
    assert((a + m + c).subrange(a.len() + from, a.len() + to) =~= m.subrange(from, to));
}

/// A number of a record is read where the record stands in a byte string.
proof fn lemma_record_word(
    before: Seq<u8>,
    record: Seq<u8>,
    after: Seq<u8>,
    from: int,
    w: u32,
    order: ByteOrder,
)
    requires
        0 <= from,
        from + 4 <= record.len(),
        record.subrange(from, from + 4) == word_bytes(w, order),
    ensures
        word_at(before + record + after, before.len() + from, order) == w,
{
    lemma_part_of_middle(before, record, after, from, from + 4);
    lemma_word_read_in_place(before + record + after, before.len() + from, w, order);
}

/// A record gives its keyframe back, wherever it stands.
pub proof fn lemma_node_round_trip(
    node: FreecamNode,
    order: ByteOrder,
    before: Seq<u8>,
    after: Seq<u8>,
)
    ensures
        node_bytes(node, order).len() == 28,
        node_at(before + node_bytes(node, order) + after, before.len() as int, order) == node,
{
    let record = node_bytes(node, order);
    lemma_record_layout(node, order);
    lemma_record_word(before, record, after, 0, node.trans.x.bits, order);
    lemma_record_word(before, record, after, 4, node.trans.y.bits, order);
    lemma_record_word(before, record, after, 8, node.trans.z.bits, order);
    lemma_record_word(before, record, after, 12, node.rot.x.bits, order);
    lemma_record_word(before, record, after, 16, node.rot.y.bits, order);
    lemma_record_word(before, record, after, 20, node.rot.z.bits, order);
    lemma_record_word(before, record, after, 24, node.rot.w.bits, order);
}

/// Joining byte strings does not depend on how the joins are grouped.
proof fn lemma_join_regroup(a: Seq<u8>, b: Seq<u8>, c: Seq<u8>)
    ensures
        (a + b) + c == a + (b + c),
{
    assert((a + b) + c =~= a + (b + c));
}

/// The records of `n` keyframes take `28 * n` bytes, and the record of the
/// keyframe `i` stands at the byte `28 * i`, whatever stands around the records.
pub proof fn lemma_records_hold_nodes(
    nodes: Seq<FreecamNode>,
    order: ByteOrder,
    before: Seq<u8>,
    after: Seq<u8>,
)
    ensures
        records(nodes, order).len() == 28 * nodes.len(),
        forall|i: int|
            0 <= i < nodes.len() ==> #[trigger] node_at(
                before + records(nodes, order) + after,
                before.len() + 28 * i,
                order,
            ) == nodes[i],
    decreases nodes.len(),
{
    if nodes.len() > 0 {
        let front = nodes.drop_last();
        let last = nodes.last();
        let tail = node_bytes(last, order);
        let inner = records(front, order);
        let b = before + records(nodes, order) + after;
        lemma_records_hold_nodes(front, order, before, tail + after);
        lemma_node_round_trip(last, order, before + inner, after);
        lemma_join_regroup(before, inner, tail);
        lemma_join_regroup(before + inner, tail, after);
        assert(records(nodes, order) == inner + tail);
        assert(b == before + inner + tail + after);
        assert(b == before + inner + (tail + after));
        assert((before + inner).len() == before.len() + 28 * front.len());
        assert forall|i: int| 0 <= i < nodes.len() implies #[trigger] node_at(
            b,
            before.len() + 28 * i,
            order,
        ) == nodes[i] by {
            if i < front.len() {
                assert(front[i] == nodes[i]);
            } else {
                assert(i == front.len());
                assert(nodes[i] == last);
            }
        }
    }
}

/// What was saved is read back: the saved form of a sequence starts with the
/// sequence's length, holds all its records, and gives every keyframe back
/// bit for bit, also when other bytes follow.
pub proof fn lemma_saved_path_round_trip(
    nodes: Seq<FreecamNode>,
    order: ByteOrder,
    after: Seq<u8>,
)
    requires
        nodes.len() <= u32::MAX,
    ensures
        encoded(nodes, order).len() == 4 + 28 * nodes.len(),
        count_of(encoded(nodes, order) + after, order) == nodes.len(),
        well_formed(encoded(nodes, order) + after, order),
        decoded(encoded(nodes, order) + after, order, nodes.len()) == nodes,
{
    let head = word_bytes(nodes.len() as u32, order);
    let b = encoded(nodes, order) + after;
    lemma_word_round_trip(nodes.len() as u32, order);
    lemma_records_hold_nodes(nodes, order, head, after);
    assert(b =~= head + records(nodes, order) + after);
    assert(b.subrange(0, 4) =~= head);
    lemma_word_read_in_place(b, 0, nodes.len() as u32, order);
    assert(decoded(b, order, nodes.len()) =~= nodes);
}

/// Appends the four bytes of a number.
pub fn push_word(out: &mut Vec<u8>, w: u32, order: ByteOrder)
    ensures
        final(out)@ == old(out)@ + word_bytes(w, order),
{
    let b0: u8 = (w % 256) as u8;
    let b1: u8 = ((w / 256) % 256) as u8;
    let b2: u8 = ((w / 65536) % 256) as u8;
    let b3: u8 = (w / 16777216) as u8;
    match order {
        ByteOrder::Little => {
            out.push(b0);
            out.push(b1);
            out.push(b2);
            out.push(b3);
            proof {
                assert(out@ =~= old(out)@ + low_first(w));
            }
        },
        ByteOrder::Big => {
            out.push(b3);
            out.push(b2);
            out.push(b1);
            out.push(b0);
            proof {
                assert(out@ =~= old(out)@ + low_first(w).reverse());
            }
        },
    }
}

/// Reads the number whose four bytes start at `at`.
pub fn read_word(buf: &[u8], at: usize, order: ByteOrder) -> (w: u32)
    requires
        at + 4 <= buf.len(),
    ensures
        w == word_at(buf@, at as int, order),
{
    let a: u32 = buf[at] as u32;
    let b: u32 = buf[at + 1] as u32;
    let c: u32 = buf[at + 2] as u32;
    let d: u32 = buf[at + 3] as u32;
    match order {
        ByteOrder::Little => a + 256 * b + 65536 * c + 16777216 * d,
        ByteOrder::Big => d + 256 * c + 65536 * b + 16777216 * a,
    }
}

/// Appends the record of one keyframe.
pub fn push_node(out: &mut Vec<u8>, node: &FreecamNode, order: ByteOrder)
    ensures
        final(out)@ == old(out)@ + node_bytes(*node, order),
{
    push_word(out, node.trans.x.bits, order);
    push_word(out, node.trans.y.bits, order);
    push_word(out, node.trans.z.bits, order);
    push_word(out, node.rot.x.bits, order);
    push_word(out, node.rot.y.bits, order);
    push_word(out, node.rot.z.bits, order);
    push_word(out, node.rot.w.bits, order);
    proof {
        assert(out@ =~= old(out)@ + node_bytes(*node, order));
    }
}

/// Reads the keyframe whose record starts at `at`.
pub fn read_node(buf: &[u8], at: usize, order: ByteOrder) -> (node: FreecamNode)
    requires
        at + 28 <= buf.len(),
    ensures
        node == node_at(buf@, at as int, order),
{
    FreecamNode {
        trans: Vector3 {
            x: Scalar { bits: read_word(buf, at, order) },
            y: Scalar { bits: read_word(buf, at + 4, order) },
            z: Scalar { bits: read_word(buf, at + 8, order) },
        },
        rot: Quaternion {
            x: Scalar { bits: read_word(buf, at + 12, order) },
            y: Scalar { bits: read_word(buf, at + 16, order) },
            z: Scalar { bits: read_word(buf, at + 20, order) },
            w: Scalar { bits: read_word(buf, at + 24, order) },
        },
    }
}

/// The count that is written for a path of `len` keyframes. A path with
/// more keyframes than a count can say cannot be saved.
pub fn count_for(len: usize) -> (r: Result<u32, PathFileError>)
    ensures
        match r {
            Ok(count) => len <= u32::MAX && count == len,
            Err(e) => len > u32::MAX && e == (PathFileError::TooManyNodes { len }),
        },
{
    if len > 0xffff_ffff {
        Err(PathFileError::TooManyNodes { len })
    } else {
        Ok(len as u32)
    }
}

/// Writes a keyframe sequence in its saved form.
///
/// Fails only when the sequence is longer than a count can say.
pub fn encode_path(nodes: &Vec<FreecamNode>, order: ByteOrder) -> (r: Result<
    Vec<u8>,
    PathFileError,
>)
    ensures
        match r {
            Ok(bytes) => nodes@.len() <= u32::MAX && bytes@ == encoded(nodes@, order),
            Err(e) => nodes@.len() > u32::MAX && e == (PathFileError::TooManyNodes {
                len: nodes.len(),
            }),
        },
{
    let len: usize = nodes.len();
    let count: u32 = match count_for(len) {
        Ok(count) => count,
        Err(e) => {
            return Err(e);
        },
    };
    let mut out: Vec<u8> = Vec::new();
    push_word(&mut out, count, order);
    let mut i: usize = 0;
    while i < len
        invariant
            len == nodes@.len(),
            len <= u32::MAX,
            i <= len,
            out@ == word_bytes(len as u32, order) + records(nodes@.take(i as int), order),
        decreases len - i,
    {
        let ghost sofar = out@;
        push_node(&mut out, &nodes[i], order);
        proof {
            let next = nodes@.take(i + 1);
            assert(next.drop_last() =~= nodes@.take(i as int));
            assert(next.last() == nodes@[i as int]);
            assert(out@ =~= word_bytes(len as u32, order) + records(next, order));
        }
        i = i + 1;
    }
    proof {
        assert(nodes@.take(len as int) =~= nodes@);
    }
    Ok(out)
}

/// Reads a saved path.
///
/// Succeeds exactly when the bytes hold a count and all the records that the
/// count asks for, and then gives those records' keyframes, in order.
pub fn decode_path(buf: &[u8], order: ByteOrder) -> (r: Result<Vec<FreecamNode>, PathFileError>)
    ensures
        match r {
            Ok(nodes) => well_formed(buf@, order) && nodes@ == decoded(
                buf@,
                order,
                count_of(buf@, order) as nat,
            ),
            Err(PathFileError::MissingCount { found }) => buf@.len() < 4 && found == buf@.len(),
            Err(PathFileError::Truncated { count, found }) => buf@.len() >= 4 && count == count_of(
                buf@,
                order,
            ) && found == buf@.len() && buf@.len() < 4 + 28 * count,
            Err(PathFileError::TooManyNodes { .. }) => false,
        },
{
    let found: usize = buf.len();
    if found < COUNT_BYTES {
        return Err(PathFileError::MissingCount { found });
    }
    let count: u32 = read_word(buf, 0, order);
    let needed: u64 = 4 + 28 * (count as u64);
    if (found as u64) < needed {
        return Err(PathFileError::Truncated { count, found });
    }
    let n: usize = count as usize;
    let mut nodes: Vec<FreecamNode> = Vec::new();
    let mut i: usize = 0;
    while i < n
        invariant
            n == count,
            found == buf@.len(),
            4 + 28 * n <= found,
            i <= n,
            nodes@ == decoded(buf@, order, i as nat),
        decreases n - i,
    {
        let at: usize = COUNT_BYTES + NODE_BYTES * i;
        let node: FreecamNode = read_node(buf, at, order);
        nodes.push(node);
        proof {
            assert(nodes@ =~= decoded(buf@, order, (i + 1) as nat));
        }
        i = i + 1;
    }
    Ok(nodes)
}

} // verus!
