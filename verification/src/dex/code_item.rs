use vstd::prelude::*;
use vstd::slice::slice_subrange;

use crate::dex::instruction::decode::{lemma_decode_keeps_opcode, try_decode_spec};
use crate::dex::instruction::Instruction;
use crate::dex::labels::{sorted_insert, Labels};
use crate::dex::type_list::clamp_to_usize;
use crate::errors::{DexParseError, InstructionError};
use crate::utils::{read_u16_le, read_u32_le, u16_le, u32_le};

verus! {

/// The code of one method: a header of sixteen bytes, the decoded
/// instructions, and the labels of their branch targets.
pub struct CodeItem {
    /// the number of registers used by this code
    pub registers_size: u16,
    /// the number of words of incoming arguments
    pub ins_size: u16,
    /// the number of words of outgoing argument space
    pub outs_size: u16,
    /// the number of try items that follow the instructions
    pub tries_size: u16,
    /// offset from the start of the file to the debug info, or 0
    pub debug_info_off: u32,
    /// size of the instructions list, in 16-bit code units
    pub insns_size: u32,
    /// the instructions that could be decoded, in order
    pub insns: Vec<Instruction>,
    /// the failure that ended decoding before the end of the instructions
    pub stopped_by: Option<InstructionError>,
    /// the branch targets inside the instructions, each with its label
    pub labels: Labels,
    /// the byte offsets of the branch instructions whose target lies outside
    /// the instructions, in order
    pub stray_branches: Vec<usize>,
}

/// The instructions that the bytes of `s` from `pos` on decode to, one after
/// the other. Decoding stops at the end of `s`, and before the first place
/// where no instruction can be decoded.
pub open spec fn decode_stream(s: Seq<u8>, pos: int) -> Seq<Instruction>
    decreases s.len() - pos,
{
    if pos < 0 || pos >= s.len() {
        Seq::empty()
    } else {
        match try_decode_spec(s.subrange(pos, s.len() as int)) {
            Ok(i) => if i.spec_size_bytes() >= 2 {
                seq![i] + decode_stream(s, pos + i.spec_size_bytes())
            } else {
                Seq::empty()
            },
            Err(_) => Seq::empty(),
        }
    }
}

/// The failure that ends the decoding of `s` from `pos` on, if decoding does
/// not reach the end of `s`.
pub open spec fn stream_error(s: Seq<u8>, pos: int) -> Option<InstructionError>
    decreases s.len() - pos,
{
    if pos < 0 || pos >= s.len() {
        None
    } else {
        match try_decode_spec(s.subrange(pos, s.len() as int)) {
            Ok(i) => if i.spec_size_bytes() >= 2 {
                stream_error(s, pos + i.spec_size_bytes())
            } else {
                None
            },
            Err(e) => Some(e),
        }
    }
}

/// The byte offset at which instruction number `k` of `insns` starts: the
/// lengths of the instructions before it, added up.
pub open spec fn offset_of(insns: Seq<Instruction>, k: int) -> int
    decreases k,
{
    if k <= 0 {
        0
    } else {
        offset_of(insns, k - 1) + insns[k - 1].spec_size_bytes()
    }
}

/// The byte offset that instruction number `k` of `insns` jumps to, if it is
/// a branch.
pub open spec fn target_at(insns: Seq<Instruction>, k: int) -> Option<int> {
    insns[k].spec_target(offset_of(insns, k))
}

/// Whether one of the first `n` instructions jumps to byte offset `t`, and
/// `t` lies inside the instructions or at their end.
pub open spec fn is_target(insns: Seq<Instruction>, limit: int, n: int, t: int) -> bool {
    0 <= t <= limit && exists|k: int| 0 <= k < n && #[trigger] target_at(insns, k) == Some(t)
}

/// The byte offsets of those among the first `n` instructions that jump to a
/// place before the instructions or behind their end.
pub open spec fn stray_branches_of(insns: Seq<Instruction>, limit: int, n: int) -> Seq<usize>
    decreases n,
{
    if n <= 0 {
        Seq::empty()
    } else {
        let rest = stray_branches_of(insns, limit, n - 1);
        match target_at(insns, n - 1) {
            Some(t) => if 0 <= t <= limit {
                rest
            } else {
                rest.push(offset_of(insns, n - 1) as usize)
            },
            None => rest,
        }
    }
}

/// The labelled targets of the first `n` instructions: the targets of their
/// branches that lie inside the instructions or at their end `limit`, in
/// ascending order, each once.
pub open spec fn label_targets(insns: Seq<Instruction>, limit: int, n: int) -> Seq<usize>
    decreases n,
{
    if n <= 0 {
        Seq::empty()
    } else {
        let rest = label_targets(insns, limit, n - 1);
        match target_at(insns, n - 1) {
            Some(t) => if 0 <= t <= limit {
                sorted_insert(rest, t as usize)
            } else {
                rest
            },
            None => rest,
        }
    }
}

/// The instructions decoded from a stream lie one after the other inside it.
pub proof fn lemma_decode_stream_fits(s: Seq<u8>, pos: int)
    requires
        0 <= pos <= s.len(),
        s.len() <= usize::MAX,
    ensures
        pos + offset_of(decode_stream(s, pos), decode_stream(s, pos).len() as int) <= s.len(),
    decreases s.len() - pos,
{
    let insns = decode_stream(s, pos);
    if pos < s.len() {
        let window = s.subrange(pos, s.len() as int);
        match try_decode_spec(window) {
            Ok(i) => {
                lemma_decode_keeps_opcode(window);
                let rest = decode_stream(s, pos + i.spec_size_bytes());
                lemma_decode_stream_fits(s, pos + i.spec_size_bytes());
                assert(insns == seq![i] + rest);
                lemma_offset_of_concat(seq![i], rest, rest.len() as int);
                assert(offset_of(seq![i], 1) == i.spec_size_bytes()) by {
                    reveal_with_fuel(offset_of, 2);
                }
            },
            Err(_) => {},
        }
    }
}

/// Offsets in a sequence that follows another are shifted by the length of
/// the first.
pub proof fn lemma_offset_of_concat(a: Seq<Instruction>, b: Seq<Instruction>, k: int)
    requires
        0 <= k <= b.len(),
    ensures
        offset_of(a + b, a.len() + k) == offset_of(a, a.len() as int) + offset_of(b, k),
    decreases k,
{
    if k == 0 {
        lemma_offset_of_prefix(a, a + b, a.len() as int);
    } else {
        lemma_offset_of_concat(a, b, k - 1);
        assert((a + b)[a.len() + k - 1] == b[k - 1]);
    }
}

/// An offset depends only on the instructions before it.
pub proof fn lemma_offset_of_prefix(a: Seq<Instruction>, b: Seq<Instruction>, k: int)
    requires
        0 <= k <= a.len() <= b.len(),
        forall|i: int| 0 <= i < k ==> a[i] == b[i],
    ensures
        offset_of(a, k) == offset_of(b, k),
    decreases k,
{
    if k > 0 {
        lemma_offset_of_prefix(a, b, k - 1);
    }
}

/// Whether a whole code item stands at the front of `s`: the header of
/// sixteen bytes and the instructions whose number the header gives.
pub open spec fn code_item_fits(s: Seq<u8>) -> bool {
    s.len() >= 16 && s.len() >= 16 + 2 * u32_le(s, 12)
}

/// The bytes of the instructions of the code item at the front of `s`.
pub open spec fn code_stream(s: Seq<u8>) -> Seq<u8> {
    s.subrange(16, 16 + 2 * u32_le(s, 12))
}

/// The instructions of the code item at the front of `s`.
pub open spec fn code_insns(s: Seq<u8>) -> Seq<Instruction> {
    decode_stream(code_stream(s), 0)
}

/// The labelled targets of the code item at the front of `s`.
pub open spec fn code_labels(s: Seq<u8>) -> Seq<usize> {
    label_targets(code_insns(s), 2 * u32_le(s, 12), code_insns(s).len() as int)
}

impl CodeItem {
    pub const NAME: &'static str = "code_item";

    /// The number of bytes that the method's instructions occupy.
    pub open spec fn insns_bytes(&self) -> int {
        2 * self.insns_size
    }

    /// The instructions lie inside the bytes that the header gives them.
    /// Every branch of the method either has a label at its target, or is
    /// listed among the stray branches because its target lies outside the
    /// instructions; and every label is the target of a branch.
    pub open spec fn labels_cover_branches(&self) -> bool {
        &&& offset_of(self.insns@, self.insns@.len() as int) <= self.insns_bytes() <= usize::MAX
        &&& self.labels.wf()
        &&& self.labels@ == label_targets(
            self.insns@,
            self.insns_bytes(),
            self.insns@.len() as int,
        )
        &&& forall|t: int|
            self.labels.contains(t) <==> is_target(
                self.insns@,
                self.insns_bytes(),
                self.insns@.len() as int,
                t,
            )
        &&& self.stray_branches@ == stray_branches_of(
            self.insns@,
            self.insns_bytes(),
            self.insns@.len() as int,
        )
    }

    /// Reads the code item at the front of `buffer`: the header, then the
    /// instructions, which are decoded one after the other until the end of
    /// the instructions or the first failure; bytes after the instructions
    /// are ignored. Fails where the buffer ends before the header does, or
    /// before the instructions do.
    pub fn try_parse_from_bytes_unsized(buffer: &[u8]) -> (r: Result<CodeItem, DexParseError>)
        ensures
            buffer@.len() < 16 ==> (r matches Err(
                DexParseError::InvalidElementSize { field, expected, actual },
            ) && field@ == "code_item"@ && expected == 16 && actual == buffer@.len()),
            buffer@.len() >= 16 && !code_item_fits(buffer@) ==> (r matches Err(
                DexParseError::InvalidElementSize { field, expected, actual },
            ) && field@ == "code_item"@ && expected == clamp_to_usize(
                16 + 2 * u32_le(buffer@, 12),
            ) && actual == buffer@.len()),
            code_item_fits(buffer@) ==> (r matches Ok(item) && {
                &&& item.registers_size == u16_le(buffer@, 0)
                &&& item.ins_size == u16_le(buffer@, 2)
                &&& item.outs_size == u16_le(buffer@, 4)
                &&& item.tries_size == u16_le(buffer@, 6)
                &&& item.debug_info_off == u32_le(buffer@, 8)
                &&& item.insns_size == u32_le(buffer@, 12)
                &&& item.insns@ == code_insns(buffer@)
                &&& item.stopped_by == stream_error(code_stream(buffer@), 0)
                &&& item.labels@ == code_labels(buffer@)
                &&& item.labels_cover_branches()
            }),
    {
        if buffer.len() < 16 {
            return Err(
                DexParseError::InvalidElementSize {
                    field: CodeItem::NAME,
                    expected: 16,
                    actual: buffer.len(),
                },
            );
        }
        let registers_size: u16 = read_u16_le(buffer, 0);
        let ins_size: u16 = read_u16_le(buffer, 2);
        let outs_size: u16 = read_u16_le(buffer, 4);
        let tries_size: u16 = read_u16_le(buffer, 6);
        let debug_info_off: u32 = read_u32_le(buffer, 8);
        let insns_size: u32 = read_u32_le(buffer, 12);

        let needed: u64 = 16 + 2 * (insns_size as u64);
        if (buffer.len() as u64) < needed {
            let expected: usize = if needed <= usize::MAX as u64 {
                needed as usize
            } else {
                usize::MAX
            };
            return Err(
                DexParseError::InvalidElementSize {
                    field: CodeItem::NAME,
                    expected,
                    actual: buffer.len(),
                },
            );
        }
        let insns_bytes: usize = (needed - 16) as usize;
        let stream: &[u8] = slice_subrange(buffer, 16, 16 + insns_bytes);
        let (insns, stopped_by) = decode_instructions(stream);
        let (labels, stray_branches) = collect_labels(&insns, insns_bytes);
        Ok(
            CodeItem {
                registers_size,
                ins_size,
                outs_size,
                tries_size,
                debug_info_off,
                insns_size,
                insns,
                stopped_by,
                labels,
                stray_branches,
            },
        )
    }
}

/// Decodes the instructions of `stream` one after the other, until its end
/// or the first failure, which is given back with them.
pub fn decode_instructions(stream: &[u8]) -> (r: (Vec<Instruction>, Option<InstructionError>))
    ensures
        r.0@ == decode_stream(stream@, 0),
        r.1 == stream_error(stream@, 0),
        offset_of(r.0@, r.0@.len() as int) <= stream@.len(),
{
    let mut insns: Vec<Instruction> = Vec::new();
    let mut stopped_by: Option<InstructionError> = None;
    let end: usize = stream.len();
    let mut pos: usize = 0;
    while pos < end
        invariant
            pos <= end,
            end == stream@.len(),
            decode_stream(stream@, 0) == insns@ + decode_stream(stream@, pos as int),
            stream_error(stream@, 0) == stream_error(stream@, pos as int),
            stopped_by is None,
        decreases end - pos,
    {
        match Instruction::try_decode(slice_subrange(stream, pos, end)) {
            Ok(insn) => {
                let size: usize = insn.size_bytes();
                proof {
                    let rest = decode_stream(stream@, pos + size);
                    assert(insns@ + (seq![insn] + rest) =~= insns@.push(insn) + rest);
                }
                insns.push(insn);
                pos += size;
            },
            Err(e) => {
                stopped_by = Some(e);
                proof {
                    assert(insns@ + Seq::<Instruction>::empty() =~= insns@);
                    lemma_decode_stream_fits(stream@, 0);
                }
                return (insns, stopped_by);
            },
        }
    }
    proof {
        assert(insns@ + Seq::<Instruction>::empty() =~= insns@);
        lemma_decode_stream_fits(stream@, 0);
    }
    (insns, stopped_by)
}

/// Collects the branch targets of `insns`, which take up to `limit` bytes. A
/// target from 0 to `limit` gets a label; the targets are numbered in
/// ascending order. A branch whose target lies elsewhere is listed by its own
/// byte offset. The byte offsets of the instructions must fit the machine's
/// word.
pub fn collect_labels(insns: &Vec<Instruction>, limit: usize) -> (r: (Labels, Vec<usize>))
    requires
        offset_of(insns@, insns@.len() as int) <= usize::MAX,
    ensures
        r.0.wf(),
        r.0@ == label_targets(insns@, limit as int, insns@.len() as int),
        forall|t: int| r.0.contains(t) <==> is_target(insns@, limit as int, insns@.len() as int, t),
        r.1@ == stray_branches_of(insns@, limit as int, insns@.len() as int),
{
    let mut labels: Labels = Labels::new();
    let mut stray: Vec<usize> = Vec::new();
    let mut pc: usize = 0;
    let mut k: usize = 0;
    assert forall|t: int| !is_target(insns@, limit as int, 0, t) by {}
    while k < insns.len()
        invariant
            k <= insns@.len(),
            pc == offset_of(insns@, k as int),
            offset_of(insns@, insns@.len() as int) <= usize::MAX,
            labels.wf(),
            labels@ == label_targets(insns@, limit as int, k as int),
            forall|t: int| labels.contains(t) <==> is_target(insns@, limit as int, k as int, t),
            stray@ == stray_branches_of(insns@, limit as int, k as int),
        decreases insns@.len() - k,
    {
        proof {
            lemma_offset_of_monotone(insns@, k as int + 1, insns@.len() as int);
        }
        let insn: &Instruction = &insns[k];
        let ghost old_labels = labels;
        match insn.offset() {
            Some(offset) => {
                let target: i128 = pc as i128 + 2 * (offset as i128);
                assert(target_at(insns@, k as int) == Some(target as int));
                if 0 <= target && target <= limit as i128 {
                    labels.insert(target as usize);
                    assert forall|t: int| labels.contains(t) <==> is_target(
                        insns@,
                        limit as int,
                        k as int + 1,
                        t,
                    ) by {
                        if is_target(insns@, limit as int, k as int + 1, t) {
                            let j = choose|j: int|
                                0 <= j < k + 1 && #[trigger] target_at(insns@, j) == Some(t);
                            if j < k {
                                assert(is_target(insns@, limit as int, k as int, t));
                            }
                        }
                        if old_labels.contains(t) {
                            assert(is_target(insns@, limit as int, k as int, t));
                        }
                    }
                } else {
                    stray.push(pc);
                    assert forall|t: int| labels.contains(t) <==> is_target(
                        insns@,
                        limit as int,
                        k as int + 1,
                        t,
                    ) by {
                        if is_target(insns@, limit as int, k as int + 1, t) {
                            let j = choose|j: int|
                                0 <= j < k + 1 && #[trigger] target_at(insns@, j) == Some(t);
                            if j < k {
                                assert(is_target(insns@, limit as int, k as int, t));
                            }
                        }
                        if labels.contains(t) {
                            assert(is_target(insns@, limit as int, k as int, t));
                        }
                    }
                }
            },
            None => {
                assert(target_at(insns@, k as int) is None);
                assert forall|t: int| labels.contains(t) <==> is_target(
                    insns@,
                    limit as int,
                    k as int + 1,
                    t,
                ) by {
                    if is_target(insns@, limit as int, k as int + 1, t) {
                        let j = choose|j: int|
                            0 <= j < k + 1 && #[trigger] target_at(insns@, j) == Some(t);
                        if j < k {
                            assert(is_target(insns@, limit as int, k as int, t));
                        }
                    }
                    if labels.contains(t) {
                        assert(is_target(insns@, limit as int, k as int, t));
                    }
                }
            },
        }
        pc += insn.size_bytes();
        k += 1;
    }
    (labels, stray)
}

/// Offsets grow with the instruction number.
pub proof fn lemma_offset_of_monotone(insns: Seq<Instruction>, i: int, j: int)
    requires
        0 <= i <= j,
    ensures
        offset_of(insns, i) <= offset_of(insns, j),
        0 <= offset_of(insns, i),
    decreases j,
{
    if i < j {
        lemma_offset_of_monotone(insns, i, j - 1);
    } else if i > 0 {
        lemma_offset_of_monotone(insns, i - 1, i - 1);
    }
}


/// A branch among the first `n` instructions whose target lies outside the
/// instructions stands among the stray branches.
pub proof fn lemma_stray_branch_listed(insns: Seq<Instruction>, limit: int, n: int, k: int)
    requires
        0 <= k < n,
        target_at(insns, k) matches Some(t) && !(0 <= t <= limit),
        0 <= offset_of(insns, k) <= usize::MAX,
    ensures
        stray_branches_of(insns, limit, n).contains(offset_of(insns, k) as usize),
    decreases n,
{
    let list = stray_branches_of(insns, limit, n);
    let rest = stray_branches_of(insns, limit, n - 1);
    if k == n - 1 {
        assert(list == rest.push(offset_of(insns, k) as usize));
        assert(list[list.len() - 1] == offset_of(insns, k) as usize);
    } else {
        lemma_stray_branch_listed(insns, limit, n - 1, k);
        let i = choose|i: int| 0 <= i < rest.len() && rest[i] == offset_of(insns, k) as usize;
        assert(list[i] == rest[i]);
    }
}

/// Label coverage: every branch of a code item that was read jumps to a
/// place with a label, or, where its target lies before the instructions or
/// behind their end, stands among the stray branches.
pub proof fn lemma_every_branch_is_covered(item: &CodeItem, k: int)
    requires
        item.labels_cover_branches(),
        0 <= k < item.insns@.len(),
    ensures
        match target_at(item.insns@, k) {
            Some(t) => if 0 <= t <= item.insns_bytes() {
                item.labels.id_of(t) is Some
            } else {
                item.stray_branches@.contains(offset_of(item.insns@, k) as usize)
            },
            None => true,
        },
{
    lemma_offset_of_monotone(item.insns@, k, item.insns@.len() as int);
    match target_at(item.insns@, k) {
        Some(t) => {
            if 0 <= t <= item.insns_bytes() {
                assert(is_target(item.insns@, item.insns_bytes(), item.insns@.len() as int, t));
                assert(item.labels.contains(t));
            } else {
                lemma_stray_branch_listed(
                    item.insns@,
                    item.insns_bytes(),
                    item.insns@.len() as int,
                    k,
                );
            }
        },
        None => {},
    }
}

} // verus!
