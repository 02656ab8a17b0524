use vstd::prelude::*;
use vstd::slice::slice_subrange;

use crate::dex::access_flags::{flag_names, AccessFlags, FlagContext, ALL_FLAGS, FLAG_COUNT};
use crate::dex::class_data_item::{class_data_at, ClassData, ClassDataItem};
use crate::dex::class_def_item::ClassDefItem;
use crate::dex::code_item::{
    code_insns, code_item_fits, code_labels, lemma_offset_of_monotone, offset_of, CodeItem,
};
use crate::dex::encoded::{EncodedField, EncodedMethod};
use crate::dex::instruction::Instruction;
use crate::dex::labels::{id_in, Labels};
use crate::dex::type_list::clamp_to_usize;
use crate::dex::Dex;
use crate::errors::{ClassWriteError, DexParseError, TableIdxError};
use crate::text::{decimal_digits, push_char, push_text, push_unsigned};

verus! {

/// A 64-bit index as an index into a pool. An index that no pool can hold
/// becomes the largest one.
pub open spec fn pool_index(idx: u64) -> usize {
    clamp_to_usize(idx as int)
}

fn to_pool_index(idx: u64) -> (r: usize)
    ensures
        r == pool_index(idx),
{
    if idx <= usize::MAX as u64 {
        idx as usize
    } else {
        usize::MAX
    }
}

/// The lines of one field: an empty line, then `.field`, the name, a colon
/// and the type. The field's index is checked first, then the index of its
/// type, then that of its name.
pub open spec fn field_entry_text(dex: Dex, field: EncodedField) -> Result<
    Seq<char>,
    TableIdxError,
> {
    let idx = pool_index(field.field_idx);
    if idx >= dex.field_ids@.len() {
        Err(TableIdxError::FieldId(idx))
    } else {
        let id = dex.field_ids@[idx as int];
        match dex.type_at(id.type_idx as int) {
            Err(e) => Err(e),
            Ok(field_type) => match dex.string_at(id.name_idx as int) {
                Err(e) => Err(e),
                Ok(name) => Ok("\n.field "@ + name + ":"@ + field_type + "\n"@),
            },
        }
    }
}

/// The lines of the first `n` fields of `fields`, or the first index error
/// among them.
pub open spec fn fields_text(dex: Dex, fields: Seq<EncodedField>, n: int) -> Result<
    Seq<char>,
    TableIdxError,
>
    decreases n,
{
    if n <= 0 {
        Ok(Seq::empty())
    } else {
        match fields_text(dex, fields, n - 1) {
            Err(e) => Err(e),
            Ok(front) => match field_entry_text(dex, fields[n - 1]) {
                Err(e) => Err(e),
                Ok(lines) => Ok(front + lines),
            },
        }
    }
}

/// The access flags of a method entry: those of its low 32 bits that are
/// flags.
pub open spec fn method_flags(method: EncodedMethod) -> u32 {
    ((method.access_flags % 0x1_0000_0000) as u32) & ALL_FLAGS
}

/// The line that opens a method, after an empty line: `.method`, the names
/// of its flags, its name and its prototype. The method's index is checked
/// first, then the index of its prototype, then that of its name. A
/// prototype that cannot be rendered is replaced by its error in round
/// brackets.
pub open spec fn method_head(dex: Dex, method: EncodedMethod) -> Result<Seq<char>, TableIdxError> {
    let idx = pool_index(method.method_idx);
    if idx >= dex.method_ids@.len() {
        Err(TableIdxError::MethodId(idx))
    } else {
        let id = dex.method_ids@[idx as int];
        if id.proto_idx >= dex.proto_ids@.len() {
            Err(TableIdxError::ProtoId(id.proto_idx as usize))
        } else {
            let parameters = match dex.proto_ids@[id.proto_idx as int].spec_text(dex) {
                Ok(text) => text,
                Err(e) => "("@ + e.spec_debug_text() + ")"@,
            };
            match dex.string_at(id.name_idx as int) {
                Err(e) => Err(e),
                Ok(name) => Ok(
                    "\n.method "@ + flag_names(
                        method_flags(method),
                        FlagContext::Method,
                        FLAG_COUNT as int,
                    ) + " "@ + name + parameters + "\n"@,
                ),
            }
        }
    }
}

/// The line of the label with number `id`.
pub open spec fn label_line(id: usize) -> Seq<char> {
    "  :L"@ + decimal_digits(id as nat) + "\n"@
}

/// The lines of one instruction that starts at byte `pc`: the line of its
/// label if it is a branch target, then the instruction itself. An
/// instruction that cannot be rendered has no line of its own.
#[verifier::opaque]
pub open spec fn instruction_lines(dex: Dex, insn: Instruction, pc: int, labels: Seq<usize>) -> Seq<
    char,
> {
    let label = match id_in(labels, pc) {
        Some(id) => label_line(id),
        None => Seq::empty(),
    };
    match insn.spec_text(dex, pc, labels) {
        Ok(line) => label + "    "@ + line + "\n"@,
        Err(_) => label,
    }
}

/// The lines of the first `n` instructions of a method. An instruction that
/// cannot be rendered is left out; the instructions behind it keep their
/// places.
pub open spec fn body_text(dex: Dex, insns: Seq<Instruction>, labels: Seq<usize>, n: int) -> Seq<
    char,
>
    decreases n,
{
    if n <= 0 {
        Seq::empty()
    } else {
        body_text(dex, insns, labels, n - 1) + instruction_lines(
            dex,
            insns[n - 1],
            offset_of(insns, n - 1),
            labels,
        )
    }
}

/// The lines of all instructions of a method, and the line of the label at
/// their end if a branch goes there.
pub open spec fn code_text(dex: Dex, insns: Seq<Instruction>, labels: Seq<usize>) -> Seq<char> {
    let body = body_text(dex, insns, labels, insns.len() as int);
    match id_in(labels, offset_of(insns, insns.len() as int)) {
        Some(id) => body + label_line(id),
        None => body,
    }
}

/// The bytes of the code of a method, from its code item on; `None` where no
/// whole code item stands at the method's code offset.
pub open spec fn method_code(dex: Dex, method: EncodedMethod) -> Option<Seq<u8>> {
    if 0 < method.code_off <= dex.raw@.len() && code_item_fits(
        dex.raw@.subrange(method.code_off as int, dex.raw@.len() as int),
    ) {
        Some(dex.raw@.subrange(method.code_off as int, dex.raw@.len() as int))
    } else {
        None
    }
}

/// The lines of one method: its opening line, its instructions, and
/// `.end method`. A method without code has no instructions. A method whose
/// code cannot be read is left out altogether.
#[verifier::opaque]
pub open spec fn method_entry_text(dex: Dex, method: EncodedMethod) -> Result<
    Seq<char>,
    TableIdxError,
> {
    match method_head(dex, method) {
        Err(e) => Err(e),
        Ok(head) => if method.code_off == 0 {
            Ok(head + ".end method\n"@)
        } else {
            match method_code(dex, method) {
                None => Ok(Seq::empty()),
                Some(code) => Ok(
                    head + code_text(dex, code_insns(code), code_labels(code)) + ".end method\n"@,
                ),
            }
        },
    }
}

/// The lines of the first `n` methods of `methods`, or the first index error
/// among them.
pub open spec fn methods_text(dex: Dex, methods: Seq<EncodedMethod>, n: int) -> Result<
    Seq<char>,
    TableIdxError,
>
    decreases n,
{
    if n <= 0 {
        Ok(Seq::empty())
    } else {
        match methods_text(dex, methods, n - 1) {
            Err(e) => Err(e),
            Ok(front) => match method_entry_text(dex, methods[n - 1]) {
                Err(e) => Err(e),
                Ok(lines) => Ok(front + lines),
            },
        }
    }
}

/// The two lines that open a class: `.class` with the names of its flags and
/// its descriptor, and `.super` with the descriptor of its superclass.
pub open spec fn class_head(access_flags: u32, class_name: Seq<char>, superclass_name: Seq<char>)
    -> Seq<char> {
    ".class "@ + flag_names(access_flags, FlagContext::Class, FLAG_COUNT as int) + " "@
        + class_name + "\n"@ + ".super "@ + superclass_name + "\n"@
}

/// A class as text: its opening lines, its static and instance fields, and
/// its direct and virtual methods. Fails where the access flags have a bit
/// that is no flag, and on the first index of a field or a method that lies
/// outside its pool.
pub open spec fn class_text(
    dex: Dex,
    class_name: Seq<char>,
    superclass_name: Seq<char>,
    data: ClassData,
    access_flags: u32,
) -> Result<Seq<char>, ClassWriteError> {
    if access_flags & !ALL_FLAGS != 0 {
        Err(ClassWriteError::InvalidAccessFlags(access_flags))
    } else {
        match fields_text(dex, data.static_fields, data.static_fields.len() as int) {
            Err(e) => Err(ClassWriteError::TableIdx(e)),
            Ok(static_fields) => match fields_text(
                dex,
                data.instance_fields,
                data.instance_fields.len() as int,
            ) {
                Err(e) => Err(ClassWriteError::TableIdx(e)),
                Ok(instance_fields) => match methods_text(
                    dex,
                    data.direct_methods,
                    data.direct_methods.len() as int,
                ) {
                    Err(e) => Err(ClassWriteError::TableIdx(e)),
                    Ok(direct_methods) => match methods_text(
                        dex,
                        data.virtual_methods,
                        data.virtual_methods.len() as int,
                    ) {
                        Err(e) => Err(ClassWriteError::TableIdx(e)),
                        Ok(virtual_methods) => Ok(
                            class_head(access_flags, class_name, superclass_name) + static_fields
                                + instance_fields + direct_methods + virtual_methods,
                        ),
                    },
                },
            },
        }
    }
}

/// An index error among the first fields is the index error of the list.
pub proof fn lemma_fields_text_error(dex: Dex, fields: Seq<EncodedField>, n: int, m: int)
    requires
        0 <= n <= m,
        fields_text(dex, fields, n) is Err,
    ensures
        fields_text(dex, fields, m) == fields_text(dex, fields, n),
    decreases m,
{
    if n < m {
        lemma_fields_text_error(dex, fields, n, m - 1);
    }
}

/// An index error among the first methods is the index error of the list.
pub proof fn lemma_methods_text_error(dex: Dex, methods: Seq<EncodedMethod>, n: int, m: int)
    requires
        0 <= n <= m,
        methods_text(dex, methods, n) is Err,
    ensures
        methods_text(dex, methods, m) == methods_text(dex, methods, n),
    decreases m,
{
    if n < m {
        lemma_methods_text_error(dex, methods, n, m - 1);
    }
}

fn field_entry(dex: &Dex, field: &EncodedField) -> (r: Result<String, TableIdxError>)
    ensures
        match field_entry_text(*dex, *field) {
            Ok(text) => r matches Ok(s) && s@ == text,
            Err(e) => r == Err::<String, TableIdxError>(e),
        },
{
    let idx: usize = to_pool_index(field.field_idx);
    if idx >= dex.field_ids.len() {
        return Err(TableIdxError::FieldId(idx));
    }
    let field_id = &dex.field_ids[idx];
    let field_type: &str = match dex.type_descriptor(field_id.type_idx as usize) {
        Ok(s) => s,
        Err(e) => {
            return Err(e);
        },
    };
    let field_name: &str = match dex.string(field_id.name_idx as usize) {
        Ok(s) => s,
        Err(e) => {
            return Err(e);
        },
    };
    let mut out: String = String::from_str("\n.field ");
    push_text(&mut out, field_name);
    push_text(&mut out, ":");
    push_text(&mut out, field_type);
    push_text(&mut out, "\n");
    Ok(out)
}

fn push_fields(out: &mut String, dex: &Dex, fields: &Vec<EncodedField>) -> (r: Result<
    (),
    TableIdxError,
>)
    ensures
        match fields_text(*dex, fields@, fields@.len() as int) {
            Ok(text) => r is Ok && final(out)@ == old(out)@ + text,
            Err(e) => r == Err::<(), TableIdxError>(e),
        },
{
    let ghost start = out@;
    let mut i: usize = 0;
    assert(start + Seq::<char>::empty() =~= start);
    while i < fields.len()
        invariant
            i <= fields@.len(),
            fields_text(*dex, fields@, i as int) matches Ok(text) && out@ == start + text,
        decreases fields@.len() - i,
    {
        let ghost front = fields_text(*dex, fields@, i as int)->Ok_0;
        match field_entry(dex, &fields[i]) {
            Ok(lines) => {
                push_text(out, lines.as_str());
                assert(out@ =~= start + (front + lines@));
            },
            Err(e) => {
                proof {
                    lemma_fields_text_error(*dex, fields@, i as int + 1, fields@.len() as int);
                }
                return Err(e);
            },
        }
        i += 1;
    }
    Ok(())
}

fn method_opening(dex: &Dex, method: &EncodedMethod) -> (r: Result<String, TableIdxError>)
    ensures
        match method_head(*dex, *method) {
            Ok(text) => r matches Ok(s) && s@ == text,
            Err(e) => r == Err::<String, TableIdxError>(e),
        },
{
    let idx: usize = to_pool_index(method.method_idx);
    if idx >= dex.method_ids.len() {
        return Err(TableIdxError::MethodId(idx));
    }
    let method_id = &dex.method_ids[idx];
    let proto_idx: usize = method_id.proto_idx as usize;
    if proto_idx >= dex.proto_ids.len() {
        return Err(TableIdxError::ProtoId(proto_idx));
    }
    let parameters: String = match dex.proto_ids[proto_idx].to_human_readable(dex) {
        Ok(text) => text,
        Err(e) => {
            let mut text: String = String::from_str("(");
            let error: String = e.debug_text();
            push_text(&mut text, error.as_str());
            push_text(&mut text, ")");
            text
        },
    };
    let method_name: &str = match dex.string(method_id.name_idx as usize) {
        Ok(s) => s,
        Err(e) => {
            return Err(e);
        },
    };
    let flags: AccessFlags = AccessFlags::from_bits_truncate(
        (method.access_flags % 0x1_0000_0000) as u32,
    );
    let flag_text: String = flags.to_human_readable_in(FlagContext::Method);
    let mut out: String = String::from_str("\n.method ");
    push_text(&mut out, flag_text.as_str());
    push_text(&mut out, " ");
    push_text(&mut out, method_name);
    push_text(&mut out, parameters.as_str());
    push_text(&mut out, "\n");
    Ok(out)
}

fn push_label_line(out: &mut String, id: usize)
    ensures
        final(out)@ == old(out)@ + label_line(id),
{
    push_text(out, "  :L");
    push_unsigned(out, id as u64);
    push_text(out, "\n");
    assert(out@ =~= old(out)@ + label_line(id));
}

fn push_instruction(out: &mut String, dex: &Dex, insn: &Instruction, pc: usize, labels: &Labels)
    requires
        labels.wf(),
    ensures
        final(out)@ == old(out)@ + instruction_lines(*dex, *insn, pc as int, labels@),
{
    let ghost start = out@;
    let mut lines: String = String::new();
    reveal(instruction_lines);
    match labels.get(pc) {
        Some(label_idx) => {
            push_label_line(&mut lines, label_idx);
            assert(lines@ =~= label_line(label_idx));
        },
        None => {},
    }
    match insn.to_human_readable(dex, pc, labels) {
        Ok(repr) => {
            push_text(&mut lines, "    ");
            push_text(&mut lines, repr.as_str());
            push_text(&mut lines, "\n");
        },
        Err(_) => {},
    }
    push_text(out, lines.as_str());
}

/// Appends the lines of the instructions of `code_item` to `out`.
fn push_code(out: &mut String, dex: &Dex, code_item: &CodeItem)
    requires
        code_item.labels_cover_branches(),
    ensures
        final(out)@ == old(out)@ + code_text(*dex, code_item.insns@, code_item.labels@),
{
    let ghost start = out@;
    let ghost insns = code_item.insns@;
    let ghost labels = code_item.labels@;
    let mut total_size: usize = 0;
    let mut k: usize = 0;
    assert(start + Seq::<char>::empty() =~= start);
    while k < code_item.insns.len()
        invariant
            k <= insns.len(),
            insns == code_item.insns@,
            labels == code_item.labels@,
            code_item.labels.wf(),
            total_size == offset_of(insns, k as int),
            offset_of(insns, insns.len() as int) <= usize::MAX,
            out@ == start + body_text(*dex, insns, labels, k as int),
        decreases insns.len() - k,
    {
        proof {
            lemma_offset_of_monotone(insns, k as int + 1, insns.len() as int);
        }
        let ghost front = body_text(*dex, insns, labels, k as int);
        let insn: &Instruction = &code_item.insns[k];
        push_instruction(out, dex, insn, total_size, &code_item.labels);
        assert(out@ =~= start + (front + instruction_lines(
            *dex,
            *insn,
            total_size as int,
            labels,
        )));
        total_size += insn.size_bytes();
        k += 1;
    }
    match code_item.labels.get(total_size) {
        Some(label_idx) => {
            push_label_line(out, label_idx);
            assert(out@ =~= start + (body_text(*dex, insns, labels, insns.len() as int)
                + label_line(label_idx)));
        },
        None => {},
    }
}

fn method_entry(dex: &Dex, method: &EncodedMethod) -> (r: Result<String, TableIdxError>)
    ensures
        match method_entry_text(*dex, *method) {
            Ok(text) => r matches Ok(s) && s@ == text,
            Err(e) => r == Err::<String, TableIdxError>(e),
        },
{
    reveal(method_entry_text);
    let mut out: String = match method_opening(dex, method) {
        Ok(head) => head,
        Err(e) => {
            return Err(e);
        },
    };
    let ghost head = out@;
    if method.code_off == 0 {
        push_text(&mut out, ".end method\n");
        return Ok(out);
    }
    let end: usize = dex.raw.len();
    if method.code_off > end as u64 {
        return Ok(String::new());
    }
    let code_item: CodeItem = match CodeItem::try_parse_from_bytes_unsized(
        slice_subrange(dex.raw, method.code_off as usize, end),
    ) {
        Ok(code_item) => code_item,
        Err(_) => {
            return Ok(String::new());
        },
    };
    push_code(&mut out, dex, &code_item);
    push_text(&mut out, ".end method\n");
    Ok(out)
}

fn push_methods(out: &mut String, dex: &Dex, methods: &Vec<EncodedMethod>) -> (r: Result<
    (),
    TableIdxError,
>)
    ensures
        match methods_text(*dex, methods@, methods@.len() as int) {
            Ok(text) => r is Ok && final(out)@ == old(out)@ + text,
            Err(e) => r == Err::<(), TableIdxError>(e),
        },
{
    let ghost start = out@;
    let mut i: usize = 0;
    assert(start + Seq::<char>::empty() =~= start);
    while i < methods.len()
        invariant
            i <= methods@.len(),
            methods_text(*dex, methods@, i as int) matches Ok(text) && out@ == start + text,
        decreases methods@.len() - i,
    {
        let ghost front = methods_text(*dex, methods@, i as int)->Ok_0;
        match method_entry(dex, &methods[i]) {
            Ok(lines) => {
                push_text(out, lines.as_str());
                assert(out@ =~= start + (front + lines@));
            },
            Err(e) => {
                proof {
                    lemma_methods_text_error(*dex, methods@, i as int + 1, methods@.len() as int);
                }
                return Err(e);
            },
        }
        i += 1;
    }
    Ok(())
}

/// Appends a class as text to `writer`: the lines `.class` and `.super`,
/// then each field, then each method with its instructions between its
/// labels. On failure nothing is appended.
pub fn write_class(
    writer: &mut String,
    dex: &Dex,
    class_name: &str,
    superclass_name: &str,
    class_data_item: &ClassDataItem,
    access_flags: u32,
) -> (r: Result<(), ClassWriteError>)
    ensures
        match class_text(*dex, class_name@, superclass_name@, class_data_item@, access_flags) {
            Ok(text) => r is Ok && final(writer)@ == old(writer)@ + text,
            Err(e) => r == Err::<(), ClassWriteError>(e) && final(writer)@ == old(writer)@,
        },
{
    let flags: AccessFlags = match AccessFlags::from_bits(access_flags) {
        Some(flags) => flags,
        None => {
            return Err(ClassWriteError::InvalidAccessFlags(access_flags));
        },
    };
    let flag_text: String = flags.to_human_readable_in(FlagContext::Class);
    let mut out: String = String::from_str(".class ");
    push_text(&mut out, flag_text.as_str());
    push_text(&mut out, " ");
    push_text(&mut out, class_name);
    push_text(&mut out, "\n");
    push_text(&mut out, ".super ");
    push_text(&mut out, superclass_name);
    push_text(&mut out, "\n");
    assert(out@ == class_head(access_flags, class_name@, superclass_name@));
    match push_fields(&mut out, dex, &class_data_item.static_fields) {
        Ok(()) => {},
        Err(e) => {
            return Err(ClassWriteError::TableIdx(e));
        },
    }
    match push_fields(&mut out, dex, &class_data_item.instance_fields) {
        Ok(()) => {},
        Err(e) => {
            return Err(ClassWriteError::TableIdx(e));
        },
    }
    match push_methods(&mut out, dex, &class_data_item.direct_methods) {
        Ok(()) => {},
        Err(e) => {
            return Err(ClassWriteError::TableIdx(e));
        },
    }
    match push_methods(&mut out, dex, &class_data_item.virtual_methods) {
        Ok(()) => {},
        Err(e) => {
            return Err(ClassWriteError::TableIdx(e));
        },
    }
    push_text(writer, out.as_str());
    Ok(())
}


/// The class data of a class: none where its offset is 0, else what stands
/// at its offset in the container's bytes.
pub open spec fn class_data_of(dex: Dex, class_def: ClassDefItem) -> Result<
    ClassData,
    DexParseError,
> {
    if class_def.class_data_off == 0 {
        Ok(
            ClassData {
                static_fields: Seq::empty(),
                instance_fields: Seq::empty(),
                direct_methods: Seq::empty(),
                virtual_methods: Seq::empty(),
            },
        )
    } else if class_def.class_data_off > dex.raw@.len() {
        Err(
            DexParseError::InvalidElementSize {
                field: "class_data_item",
                expected: class_def.class_data_off as usize,
                actual: dex.raw@.len() as usize,
            },
        )
    } else {
        class_data_at(dex.raw@.subrange(class_def.class_data_off as int, dex.raw@.len() as int))
    }
}

/// One class of the container as text. The index of the class's type is
/// checked first, then that of its superclass, then its class data is read,
/// then the class is rendered.
pub open spec fn disassembly(dex: Dex, class_def: ClassDefItem) -> Result<
    Seq<char>,
    ClassWriteError,
> {
    match dex.type_at(class_def.class_idx as int) {
        Err(e) => Err(ClassWriteError::TableIdx(e)),
        Ok(class_name) => match dex.type_at(class_def.superclass_idx as int) {
            Err(e) => Err(ClassWriteError::TableIdx(e)),
            Ok(superclass_name) => match class_data_of(dex, class_def) {
                Err(e) => Err(ClassWriteError::ClassData(e)),
                Ok(data) => class_text(
                    dex,
                    class_name,
                    superclass_name,
                    data,
                    class_def.access_flags,
                ),
            },
        },
    }
}

/// Reads the class data of a class from the container's bytes.
pub fn read_class_data(dex: &Dex, class_def: &ClassDefItem) -> (r: Result<
    ClassDataItem,
    DexParseError,
>)
    ensures
        match class_data_of(*dex, *class_def) {
            Ok(data) => r matches Ok(item) && item@ == data,
            Err(e) => r == Err::<ClassDataItem, DexParseError>(e),
        },
{
    let end: usize = dex.raw.len();
    let off: usize = class_def.class_data_off as usize;
    if off == 0 {
        return Ok(
            ClassDataItem {
                static_fields: Vec::new(),
                instance_fields: Vec::new(),
                direct_methods: Vec::new(),
                virtual_methods: Vec::new(),
            },
        );
    }
    if off > end {
        return Err(
            DexParseError::InvalidElementSize {
                field: "class_data_item",
                expected: off,
                actual: end,
            },
        );
    }
    ClassDataItem::try_parse_from_bytes(slice_subrange(dex.raw, off, end))
}

/// Renders one class of the container as text.
pub fn disassemble_class(dex: &Dex, class_def: &ClassDefItem) -> (r: Result<
    String,
    ClassWriteError,
>)
    ensures
        match disassembly(*dex, *class_def) {
            Ok(text) => r matches Ok(s) && s@ == text,
            Err(e) => r == Err::<String, ClassWriteError>(e),
        },
{
    let class_name: &str = match dex.type_descriptor(class_def.class_idx as usize) {
        Ok(s) => s,
        Err(e) => {
            return Err(ClassWriteError::TableIdx(e));
        },
    };
    let superclass_name: &str = match dex.type_descriptor(class_def.superclass_idx as usize) {
        Ok(s) => s,
        Err(e) => {
            return Err(ClassWriteError::TableIdx(e));
        },
    };
    let class_data_item: ClassDataItem = match read_class_data(dex, class_def) {
        Ok(item) => item,
        Err(e) => {
            return Err(ClassWriteError::ClassData(e));
        },
    };
    let mut out: String = String::new();
    match write_class(
        &mut out,
        dex,
        class_name,
        superclass_name,
        &class_data_item,
        class_def.access_flags,
    ) {
        Ok(()) => {
            assert(out@ =~= class_text(
                *dex,
                class_name@,
                superclass_name@,
                class_data_item@,
                class_def.access_flags,
            )->Ok_0);
            Ok(out)
        },
        Err(e) => Err(e),
    }
}

/// The name of the file for a class with descriptor `descriptor`: the
/// descriptor without its first and its last character, each `/` replaced by
/// `_`, and `.smali` behind it.
pub open spec fn file_name_of(descriptor: Seq<char>) -> Seq<char> {
    descriptor.subrange(1, descriptor.len() - 1).map_values(
        |c: char|
            if c == '/' {
                '_'
            } else {
                c
            },
    ) + ".smali"@
}

/// The name of the file for a class, or `None` for a descriptor of fewer
/// than two characters. The descriptor inside the text of the class is left
/// as it is.
pub fn class_file_name(descriptor: &str) -> (r: Option<String>)
    ensures
        descriptor@.len() < 2 ==> r is None,
        descriptor@.len() >= 2 ==> (r matches Some(name) && name@ == file_name_of(descriptor@)),
{
    let n: usize = descriptor.unicode_len();
    if n < 2 {
        return None;
    }
    let ghost inner = descriptor@.subrange(1, n - 1);
    let ghost renamed = inner.map_values(
        |c: char|
            if c == '/' {
                '_'
            } else {
                c
            },
    );
    let mut out: String = String::new();
    let mut i: usize = 1;
    while i < n - 1
        invariant
            1 <= i <= n - 1,
            n == descriptor@.len(),
            inner == descriptor@.subrange(1, n - 1),
            renamed == inner.map_values(
                |c: char|
                    if c == '/' {
                        '_'
                    } else {
                        c
                    },
            ),
            out@ == renamed.take(i - 1),
        decreases n - i,
    {
        let c: char = descriptor.get_char(i);
        if c == '/' {
            push_char(&mut out, '_');
        } else {
            push_char(&mut out, c);
        }
        assert(out@ =~= renamed.take(i as int));
        i += 1;
    }
    assert(renamed.take(n - 2) =~= renamed);
    push_text(&mut out, ".smali");
    Some(out)
}

} // verus!
