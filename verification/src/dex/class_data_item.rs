use vstd::prelude::*;

use crate::dex::encoded::{encoded_field_at, encoded_method_at, EncodedField, EncodedMethod};
use crate::errors::DexParseError;
use crate::utils::{
    decode_uleb128_at, encode_uleb128_spec, lemma_stands_at_split, lemma_uleb128_at_bounds,
    lemma_uleb128_bound_five, lemma_uleb128_roundtrip_at, push_uleb128, stands_at, uleb128_at,
    ULEB128_LIMIT,
};

verus! {

/// The fields and methods that a class defines.
///
/// Inside each list the entries are meant to be in strictly increasing order
/// of their index, and no method to be both direct and virtual. The file
/// stores each index as the difference to the one before it.
pub struct ClassDataItem {
    /// the static fields, in increasing order of `field_idx`
    pub static_fields: Vec<EncodedField>,
    /// the instance fields, in increasing order of `field_idx`
    pub instance_fields: Vec<EncodedField>,
    /// the direct methods, in increasing order of `method_idx`
    pub direct_methods: Vec<EncodedMethod>,
    /// the virtual methods, in increasing order of `method_idx`
    pub virtual_methods: Vec<EncodedMethod>,
}

/// The four lists of a class data item as sequences.
pub struct ClassData {
    pub static_fields: Seq<EncodedField>,
    pub instance_fields: Seq<EncodedField>,
    pub direct_methods: Seq<EncodedMethod>,
    pub virtual_methods: Seq<EncodedMethod>,
}

impl View for ClassDataItem {
    type V = ClassData;

    open spec fn view(&self) -> ClassData {
        ClassData {
            static_fields: self.static_fields@,
            instance_fields: self.instance_fields@,
            direct_methods: self.direct_methods@,
            virtual_methods: self.virtual_methods@,
        }
    }
}

/// The `count` field entries that stand one after the other from `pos` on,
/// the first after a field with index `prev`, and the position behind them.
pub open spec fn fields_at(s: Seq<u8>, pos: int, count: nat, prev: u64) -> Result<
    (Seq<EncodedField>, int),
    DexParseError,
>
    decreases count,
{
    if count == 0 {
        Ok((Seq::empty(), pos))
    } else {
        match encoded_field_at(s, pos, prev) {
            Err(e) => Err(e),
            Ok((field, next)) => match fields_at(s, next, (count - 1) as nat, field.field_idx) {
                Err(e) => Err(e),
                Ok((rest, end)) => Ok((seq![field] + rest, end)),
            },
        }
    }
}

/// The `count` method entries that stand one after the other from `pos` on,
/// the first after a method with index `prev`, and the position behind them.
pub open spec fn methods_at(s: Seq<u8>, pos: int, count: nat, prev: u64) -> Result<
    (Seq<EncodedMethod>, int),
    DexParseError,
>
    decreases count,
{
    if count == 0 {
        Ok((Seq::empty(), pos))
    } else {
        match encoded_method_at(s, pos, prev) {
            Err(e) => Err(e),
            Ok((method, next)) => match methods_at(s, next, (count - 1) as nat, method.method_idx) {
                Err(e) => Err(e),
                Ok((rest, end)) => Ok((seq![method] + rest, end)),
            },
        }
    }
}

/// `front` put before the entries of a result.
pub open spec fn after<T>(front: Seq<T>, r: Result<(Seq<T>, int), DexParseError>) -> Result<
    (Seq<T>, int),
    DexParseError,
> {
    match r {
        Ok((rest, end)) => Ok((front + rest, end)),
        Err(e) => Err(e),
    }
}

/// The count that stands at `pos` in `s` as a ULEB128 value, and the position
/// behind it. `field` names the count where it is missing.
pub open spec fn count_at(s: Seq<u8>, pos: int, field: &'static str) -> Result<
    (nat, int),
    DexParseError,
> {
    match uleb128_at(s, pos, 5) {
        None => Err(DexParseError::MalformedLeb128 { field }),
        Some((count, n)) => Ok((count, pos + n)),
    }
}

/// The four lists that stand one after the other from `pos` on, with the
/// given numbers of entries.
pub open spec fn lists_at(
    s: Seq<u8>,
    pos: int,
    n_static: nat,
    n_instance: nat,
    n_direct: nat,
    n_virtual: nat,
) -> Result<ClassData, DexParseError> {
    match fields_at(s, pos, n_static, 0) {
        Err(e) => Err(e),
        Ok((static_fields, after_static)) => match fields_at(s, after_static, n_instance, 0) {
            Err(e) => Err(e),
            Ok((instance_fields, after_instance)) => match methods_at(
                s,
                after_instance,
                n_direct,
                0,
            ) {
                Err(e) => Err(e),
                Ok((direct_methods, after_direct)) => match methods_at(
                    s,
                    after_direct,
                    n_virtual,
                    0,
                ) {
                    Err(e) => Err(e),
                    Ok((virtual_methods, after_virtual)) => Ok(
                        ClassData {
                            static_fields,
                            instance_fields,
                            direct_methods,
                            virtual_methods,
                        },
                    ),
                },
            },
        },
    }
}

/// The class data item at the front of `s`: four ULEB128 counts, then the
/// static fields, the instance fields, the direct methods and the virtual
/// methods. The first entry of each list holds its index itself, every other
/// entry the difference to the index before it.
pub open spec fn class_data_at(s: Seq<u8>) -> Result<ClassData, DexParseError> {
    match count_at(s, 0, "static_fields_size") {
        Err(e) => Err(e),
        Ok((n_static, a)) => match count_at(s, a, "instance_fields_size") {
            Err(e) => Err(e),
            Ok((n_instance, b)) => match count_at(s, b, "direct_methods_size") {
                Err(e) => Err(e),
                Ok((n_direct, c)) => match count_at(s, c, "virtual_methods_size") {
                    Err(e) => Err(e),
                    Ok((n_virtual, d)) => lists_at(s, d, n_static, n_instance, n_direct, n_virtual),
                },
            },
        },
    }
}

impl ClassDataItem {
    /// Reads `size` field entries from `*offset` on and moves `*offset`
    /// behind them. On failure `*offset` stays where it was.
    pub fn read_encoded_fields(buffer: &[u8], offset: &mut usize, size: u64) -> (r: Result<
        Vec<EncodedField>,
        DexParseError,
    >)
        ensures
            match fields_at(buffer@, *old(offset) as int, size as nat, 0) {
                Ok((fields, end)) => r matches Ok(v) && v@ == fields && *final(offset) == end,
                Err(e) => r == Err::<Vec<EncodedField>, DexParseError>(e) && *final(offset) == *old(
                    offset
                ),
            },
    {
        let ghost start = *offset as int;
        let mut encoded_fields: Vec<EncodedField> = Vec::new();
        let mut pos: usize = *offset;
        let mut prev: u64 = 0;
        let mut i: u64 = 0;
        assert(after(encoded_fields@, fields_at(buffer@, pos as int, size as nat, 0)) =~= fields_at(
            buffer@,
            start,
            size as nat,
            0,
        )) by {
            match fields_at(buffer@, start, size as nat, 0) {
                Ok((rest, end)) => {
                    assert(Seq::<EncodedField>::empty() + rest =~= rest);
                },
                Err(_) => {},
            }
        }
        while i < size
            invariant
                i <= size,
                *offset == start,
                fields_at(buffer@, start, size as nat, 0) == after(
                    encoded_fields@,
                    fields_at(buffer@, pos as int, (size - i) as nat, prev),
                ),
            decreases size - i,
        {
            let ghost before = encoded_fields@;
            match EncodedField::parse_from_bytes_with_offset(buffer, prev, &mut pos) {
                Ok(encoded_field) => {
                    prev = encoded_field.field_idx;
                    encoded_fields.push(encoded_field);
                    proof {
                        match fields_at(buffer@, pos as int, (size - i - 1) as nat, prev) {
                            Ok((rest, end)) => {
                                assert(before + (seq![encoded_field] + rest) =~= before.push(
                                    encoded_field,
                                ) + rest);
                            },
                            Err(_) => {},
                        }
                    }
                    i += 1;
                },
                Err(e) => {
                    return Err(e);
                },
            }
        }
        proof {
            assert(encoded_fields@ + Seq::<EncodedField>::empty() =~= encoded_fields@);
        }
        *offset = pos;
        Ok(encoded_fields)
    }

    /// Reads `size` method entries from `*offset` on and moves `*offset`
    /// behind them. On failure `*offset` stays where it was.
    pub fn read_encoded_methods(buffer: &[u8], offset: &mut usize, size: u64) -> (r: Result<
        Vec<EncodedMethod>,
        DexParseError,
    >)
        ensures
            match methods_at(buffer@, *old(offset) as int, size as nat, 0) {
                Ok((methods, end)) => r matches Ok(v) && v@ == methods && *final(offset) == end,
                Err(e) => r == Err::<Vec<EncodedMethod>, DexParseError>(e) && *final(offset)
                    == *old(offset),
            },
    {
        let ghost start = *offset as int;
        let mut encoded_methods: Vec<EncodedMethod> = Vec::new();
        let mut pos: usize = *offset;
        let mut prev: u64 = 0;
        let mut i: u64 = 0;
        assert(after(encoded_methods@, methods_at(buffer@, pos as int, size as nat, 0))
            =~= methods_at(buffer@, start, size as nat, 0)) by {
            match methods_at(buffer@, start, size as nat, 0) {
                Ok((rest, end)) => {
                    assert(Seq::<EncodedMethod>::empty() + rest =~= rest);
                },
                Err(_) => {},
            }
        }
        while i < size
            invariant
                i <= size,
                *offset == start,
                methods_at(buffer@, start, size as nat, 0) == after(
                    encoded_methods@,
                    methods_at(buffer@, pos as int, (size - i) as nat, prev),
                ),
            decreases size - i,
        {
            let ghost before = encoded_methods@;
            match EncodedMethod::parse_from_bytes_with_offset(buffer, prev, &mut pos) {
                Ok(encoded_method) => {
                    prev = encoded_method.method_idx;
                    encoded_methods.push(encoded_method);
                    proof {
                        match methods_at(buffer@, pos as int, (size - i - 1) as nat, prev) {
                            Ok((rest, end)) => {
                                assert(before + (seq![encoded_method] + rest) =~= before.push(
                                    encoded_method,
                                ) + rest);
                            },
                            Err(_) => {},
                        }
                    }
                    i += 1;
                },
                Err(e) => {
                    return Err(e);
                },
            }
        }
        proof {
            assert(encoded_methods@ + Seq::<EncodedMethod>::empty() =~= encoded_methods@);
        }
        *offset = pos;
        Ok(encoded_methods)
    }

    /// Reads the class data item at the front of `buffer`; bytes after it are
    /// ignored. Fails where a count or an entry is no complete ULEB128 value,
    /// or where an index leaves the 64-bit range.
    pub fn try_parse_from_bytes(buffer: &[u8]) -> (r: Result<ClassDataItem, DexParseError>)
        ensures
            match class_data_at(buffer@) {
                Ok(data) => r matches Ok(item) && item@ == data,
                Err(e) => r == Err::<ClassDataItem, DexParseError>(e),
            },
    {
        let mut offset: usize = 0;
        let (static_fields_size, bytes_used) = match decode_uleb128_at(buffer, offset) {
            Some(pair) => pair,
            None => {
                return Err(DexParseError::MalformedLeb128 { field: "static_fields_size" });
            },
        };
        offset += bytes_used;
        let (instance_fields_size, bytes_used) = match decode_uleb128_at(buffer, offset) {
            Some(pair) => pair,
            None => {
                return Err(DexParseError::MalformedLeb128 { field: "instance_fields_size" });
            },
        };
        offset += bytes_used;
        let (direct_methods_size, bytes_used) = match decode_uleb128_at(buffer, offset) {
            Some(pair) => pair,
            None => {
                return Err(DexParseError::MalformedLeb128 { field: "direct_methods_size" });
            },
        };
        offset += bytes_used;
        let (virtual_methods_size, bytes_used) = match decode_uleb128_at(buffer, offset) {
            Some(pair) => pair,
            None => {
                return Err(DexParseError::MalformedLeb128 { field: "virtual_methods_size" });
            },
        };
        offset += bytes_used;

        let static_fields: Vec<EncodedField> = match ClassDataItem::read_encoded_fields(
            buffer,
            &mut offset,
            static_fields_size,
        ) {
            Ok(v) => v,
            Err(e) => {
                return Err(e);
            },
        };
        let instance_fields: Vec<EncodedField> = match ClassDataItem::read_encoded_fields(
            buffer,
            &mut offset,
            instance_fields_size,
        ) {
            Ok(v) => v,
            Err(e) => {
                return Err(e);
            },
        };
        let direct_methods: Vec<EncodedMethod> = match ClassDataItem::read_encoded_methods(
            buffer,
            &mut offset,
            direct_methods_size,
        ) {
            Ok(v) => v,
            Err(e) => {
                return Err(e);
            },
        };
        let virtual_methods: Vec<EncodedMethod> = match ClassDataItem::read_encoded_methods(
            buffer,
            &mut offset,
            virtual_methods_size,
        ) {
            Ok(v) => v,
            Err(e) => {
                return Err(e);
            },
        };
        Ok(ClassDataItem { static_fields, instance_fields, direct_methods, virtual_methods })
    }
}



/// Whether the field entry `e` can be stored after an entry with index
/// `prev`: its index is not below `prev`, and the difference and its other
/// values fit into five ULEB128 bytes each.
pub open spec fn field_encodable(e: EncodedField, prev: int) -> bool {
    prev <= e.field_idx && e.field_idx - prev < ULEB128_LIMIT && e.access_flags < ULEB128_LIMIT
}

/// Whether the field entries of `list` can be stored one after the other,
/// the first after an entry with index `prev`.
pub open spec fn fields_encodable(list: Seq<EncodedField>, prev: int) -> bool
    decreases list.len(),
{
    list.len() == 0 || (field_encodable(list[0], prev) && fields_encodable(
        list.drop_first(),
        list[0].field_idx as int,
    ))
}

/// The bytes of the field entry `e` after an entry with index `prev`.
pub open spec fn encode_field(e: EncodedField, prev: int) -> Seq<u8> {
    encode_uleb128_spec((e.field_idx - prev) as nat) + encode_uleb128_spec(e.access_flags as nat)
}

/// The bytes of the field entries of `list`, the first after an entry with
/// index `prev`.
pub open spec fn encode_fields(list: Seq<EncodedField>, prev: int) -> Seq<u8>
    decreases list.len(),
{
    if list.len() == 0 {
        Seq::empty()
    } else {
        encode_field(list[0], prev) + encode_fields(list.drop_first(), list[0].field_idx as int)
    }
}

/// The index that the entry after `list` is stored against: that of the last
/// entry, or `prev` where there is none.
pub open spec fn last_field_idx(list: Seq<EncodedField>, prev: int) -> int {
    if list.len() == 0 {
        prev
    } else {
        list.last().field_idx as int
    }
}

/// A field entry is read back from its bytes.
pub proof fn lemma_field_roundtrip(s: Seq<u8>, pos: int, e: EncodedField, prev: u64)
    requires
        field_encodable(e, prev as int),
        stands_at(s, pos, encode_field(e, prev as int)),
    ensures
        encoded_field_at(s, pos, prev) == Ok::<(EncodedField, int), DexParseError>(
            (e, pos + encode_field(e, prev as int).len()),
        ),
{
    let e0 = encode_uleb128_spec((e.field_idx - prev) as nat);
    let e1 = encode_uleb128_spec(e.access_flags as nat);
    lemma_uleb128_bound_five();
    lemma_stands_at_split(s, pos, e0, e1);
    lemma_uleb128_roundtrip_at(s, pos, (e.field_idx - prev) as nat, 5);
    lemma_uleb128_roundtrip_at(s, pos + e0.len(), e.access_flags as nat, 5);
}

/// A list of field entries is read back from its bytes.
pub proof fn lemma_fields_roundtrip(s: Seq<u8>, pos: int, list: Seq<EncodedField>, prev: u64)
    requires
        fields_encodable(list, prev as int),
        stands_at(s, pos, encode_fields(list, prev as int)),
    ensures
        fields_at(s, pos, list.len(), prev) == Ok::<(Seq<EncodedField>, int), DexParseError>(
            (list, pos + encode_fields(list, prev as int).len()),
        ),
    decreases list.len(),
{
    if list.len() > 0 {
        let first = list[0];
        let rest = list.drop_first();
        let head = encode_field(first, prev as int);
        let tail = encode_fields(rest, first.field_idx as int);
        lemma_stands_at_split(s, pos, head, tail);
        lemma_field_roundtrip(s, pos, first, prev);
        lemma_fields_roundtrip(s, pos + head.len(), rest, first.field_idx);
        assert(seq![first] + rest =~= list);
        assert(rest.len() == (list.len() - 1) as nat);
        assert(encoded_field_at(s, pos, prev) == Ok::<(EncodedField, int), DexParseError>(
            (first, pos + head.len()),
        ));
        assert((head + tail).len() == head.len() + tail.len());
    } else {
        assert(list =~= Seq::<EncodedField>::empty());
    }
}

/// The field entries that were read from bytes can be stored again, and
/// their indices never decrease.
pub proof fn lemma_parsed_fields(s: Seq<u8>, pos: int, count: nat, prev: u64)
    requires
        fields_at(s, pos, count, prev) is Ok,
    ensures
        ({
            let list = fields_at(s, pos, count, prev)->Ok_0.0;
            &&& list.len() == count
            &&& fields_encodable(list, prev as int)
            &&& forall|i: int| 0 <= i < list.len() ==> prev <= #[trigger] list[i].field_idx
            &&& forall|i: int, j: int|
                0 <= i <= j < list.len() ==> list[i].field_idx <= list[j].field_idx
        }),
    decreases count,
{
    if count > 0 {
        lemma_uleb128_bound_five();
        lemma_uleb128_at_bounds(s, pos, 5);
        let n1 = uleb128_at(s, pos, 5)->Some_0.1;
        lemma_uleb128_at_bounds(s, pos + n1, 5);
        let (first, next) = encoded_field_at(s, pos, prev)->Ok_0;
        lemma_parsed_fields(s, next, (count - 1) as nat, first.field_idx);
        let rest = fields_at(s, next, (count - 1) as nat, first.field_idx)->Ok_0.0;
        let list = seq![first] + rest;
        assert(list.drop_first() =~= rest);
        assert forall|i: int| 0 <= i < list.len() implies prev <= #[trigger] list[i].field_idx by {
            if i > 0 {
                assert(list[i] == rest[i - 1]);
            }
        }
        assert forall|i: int, j: int| 0 <= i <= j < list.len() implies list[i].field_idx
            <= list[j].field_idx by {
            if i > 0 {
                assert(list[i] == rest[i - 1]);
                assert(list[j] == rest[j - 1]);
            } else if j > 0 {
                assert(list[j] == rest[j - 1]);
            }
        }
    }
}

/// Storing one more field entry appends its bytes.
pub proof fn lemma_encode_fields_push(list: Seq<EncodedField>, prev: int, e: EncodedField)
    ensures
        encode_fields(list.push(e), prev) == encode_fields(list, prev) + encode_field(
            e,
            last_field_idx(list, prev),
        ),
        fields_encodable(list.push(e), prev) <==> fields_encodable(list, prev) && field_encodable(
            e,
            last_field_idx(list, prev),
        ),
    decreases list.len(),
{
    let longer = list.push(e);
    reveal_with_fuel(encode_fields, 2);
    reveal_with_fuel(fields_encodable, 2);
    if list.len() == 0 {
        assert(longer.drop_first() =~= Seq::<EncodedField>::empty());
        assert(encode_fields(longer, prev) =~= encode_field(e, prev));
        assert(encode_fields(list, prev) + encode_field(e, prev) =~= encode_field(e, prev));
    } else {
        let rest = list.drop_first();
        assert(longer.drop_first() =~= rest.push(e));
        lemma_encode_fields_push(rest, list[0].field_idx as int, e);
        assert(last_field_idx(rest, list[0].field_idx as int) == last_field_idx(list, prev)) by {
            if rest.len() > 0 {
                assert(rest.last() == list.last());
            }
        }
        assert(encode_field(list[0], prev) + (encode_fields(rest, list[0].field_idx as int)
            + encode_field(e, last_field_idx(list, prev))) =~= (encode_field(list[0], prev)
            + encode_fields(rest, list[0].field_idx as int)) + encode_field(
            e,
            last_field_idx(list, prev),
        ));
    }
}

/// Appends the bytes of the field entries of `list` to `out`, or gives
/// `false` and leaves `out` as it was where they cannot be stored.
fn push_fields(out: &mut Vec<u8>, list: &Vec<EncodedField>) -> (ok: bool)
    ensures
        ok == fields_encodable(list@, 0),
        ok ==> final(out)@ == old(out)@ + encode_fields(list@, 0),
        !ok ==> final(out)@ == old(out)@,
{
    let ghost start = out@;
    let mut bytes: Vec<u8> = Vec::new();
    let mut prev: u64 = 0;
    let mut i: usize = 0;
    while i < list.len()
        invariant
            i <= list@.len(),
            out@ == start,
            fields_encodable(list@.take(i as int), 0),
            bytes@ == encode_fields(list@.take(i as int), 0),
            prev == last_field_idx(list@.take(i as int), 0),
        decreases list@.len() - i,
    {
        let e: EncodedField = list[i];
        proof {
            assert(list@.take(i as int + 1) =~= list@.take(i as int).push(e));
            lemma_encode_fields_push(list@.take(i as int), 0, e);
        }
        if e.field_idx < prev || e.field_idx - prev >= ULEB128_LIMIT || e.access_flags
            >= ULEB128_LIMIT {
            proof {
                if fields_encodable(list@, 0) {
                    lemma_fields_encodable_prefix(list@, 0, i as int + 1);
                }
            }
            return false;
        }
        push_uleb128(&mut bytes, e.field_idx - prev);
            push_uleb128(&mut bytes, e.access_flags);
        proof {
            assert(bytes@ =~= encode_fields(list@.take(i as int), 0) + encode_field(
                e,
                prev as int,
            ));
        }
        prev = e.field_idx;
        i += 1;
    }
    proof {
        assert(list@.take(i as int) =~= list@);
    }
    out.append(&mut bytes);
    true
}

/// A list that can be stored can be stored up to any of its entries.
pub proof fn lemma_fields_encodable_prefix(list: Seq<EncodedField>, prev: int, n: int)
    requires
        0 <= n <= list.len(),
        fields_encodable(list, prev),
    ensures
        fields_encodable(list.take(n), prev),
    decreases n,
{
    if n > 0 {
        lemma_fields_encodable_prefix(list.drop_first(), list[0].field_idx as int, n - 1);
        assert(list.take(n).drop_first() =~= list.drop_first().take(n - 1));
    }
}

/// Whether the method entry `e` can be stored after an entry with index
/// `prev`: its index is not below `prev`, and the difference and its other
/// values fit into five ULEB128 bytes each.
pub open spec fn method_encodable(e: EncodedMethod, prev: int) -> bool {
    prev <= e.method_idx && e.method_idx - prev < ULEB128_LIMIT && e.access_flags < ULEB128_LIMIT
        && e.code_off < ULEB128_LIMIT
}

/// Whether the method entries of `list` can be stored one after the other,
/// the first after an entry with index `prev`.
pub open spec fn methods_encodable(list: Seq<EncodedMethod>, prev: int) -> bool
    decreases list.len(),
{
    list.len() == 0 || (method_encodable(list[0], prev) && methods_encodable(
        list.drop_first(),
        list[0].method_idx as int,
    ))
}

/// The bytes of the method entry `e` after an entry with index `prev`.
pub open spec fn encode_method(e: EncodedMethod, prev: int) -> Seq<u8> {
    encode_uleb128_spec((e.method_idx - prev) as nat) + encode_uleb128_spec(e.access_flags as nat)
        + encode_uleb128_spec(e.code_off as nat)
}

/// The bytes of the method entries of `list`, the first after an entry with
/// index `prev`.
pub open spec fn encode_methods(list: Seq<EncodedMethod>, prev: int) -> Seq<u8>
    decreases list.len(),
{
    if list.len() == 0 {
        Seq::empty()
    } else {
        encode_method(list[0], prev) + encode_methods(list.drop_first(), list[0].method_idx as int)
    }
}

/// The index that the entry after `list` is stored against: that of the last
/// entry, or `prev` where there is none.
pub open spec fn last_method_idx(list: Seq<EncodedMethod>, prev: int) -> int {
    if list.len() == 0 {
        prev
    } else {
        list.last().method_idx as int
    }
}

/// A method entry is read back from its bytes.
pub proof fn lemma_method_roundtrip(s: Seq<u8>, pos: int, e: EncodedMethod, prev: u64)
    requires
        method_encodable(e, prev as int),
        stands_at(s, pos, encode_method(e, prev as int)),
    ensures
        encoded_method_at(s, pos, prev) == Ok::<(EncodedMethod, int), DexParseError>(
            (e, pos + encode_method(e, prev as int).len()),
        ),
{
    let e0 = encode_uleb128_spec((e.method_idx - prev) as nat);
    let e1 = encode_uleb128_spec(e.access_flags as nat);
    let e2 = encode_uleb128_spec(e.code_off as nat);
    lemma_uleb128_bound_five();
    lemma_stands_at_split(s, pos, e0 + e1, e2);
    lemma_stands_at_split(s, pos, e0, e1);
    lemma_uleb128_roundtrip_at(s, pos, (e.method_idx - prev) as nat, 5);
    lemma_uleb128_roundtrip_at(s, pos + e0.len(), e.access_flags as nat, 5);
    lemma_uleb128_roundtrip_at(s, pos + e0.len() + e1.len(), e.code_off as nat, 5);
}

/// A list of method entries is read back from its bytes.
pub proof fn lemma_methods_roundtrip(s: Seq<u8>, pos: int, list: Seq<EncodedMethod>, prev: u64)
    requires
        methods_encodable(list, prev as int),
        stands_at(s, pos, encode_methods(list, prev as int)),
    ensures
        methods_at(s, pos, list.len(), prev) == Ok::<(Seq<EncodedMethod>, int), DexParseError>(
            (list, pos + encode_methods(list, prev as int).len()),
        ),
    decreases list.len(),
{
    if list.len() > 0 {
        let first = list[0];
        let rest = list.drop_first();
        let head = encode_method(first, prev as int);
        let tail = encode_methods(rest, first.method_idx as int);
        lemma_stands_at_split(s, pos, head, tail);
        lemma_method_roundtrip(s, pos, first, prev);
        lemma_methods_roundtrip(s, pos + head.len(), rest, first.method_idx);
        assert(seq![first] + rest =~= list);
        assert(rest.len() == (list.len() - 1) as nat);
        assert(encoded_method_at(s, pos, prev) == Ok::<(EncodedMethod, int), DexParseError>(
            (first, pos + head.len()),
        ));
        assert((head + tail).len() == head.len() + tail.len());
    } else {
        assert(list =~= Seq::<EncodedMethod>::empty());
    }
}

/// The method entries that were read from bytes can be stored again, and
/// their indices never decrease.
pub proof fn lemma_parsed_methods(s: Seq<u8>, pos: int, count: nat, prev: u64)
    requires
        methods_at(s, pos, count, prev) is Ok,
    ensures
        ({
            let list = methods_at(s, pos, count, prev)->Ok_0.0;
            &&& list.len() == count
            &&& methods_encodable(list, prev as int)
            &&& forall|i: int| 0 <= i < list.len() ==> prev <= #[trigger] list[i].method_idx
            &&& forall|i: int, j: int|
                0 <= i <= j < list.len() ==> list[i].method_idx <= list[j].method_idx
        }),
    decreases count,
{
    if count > 0 {
        lemma_uleb128_bound_five();
        lemma_uleb128_at_bounds(s, pos, 5);
        let n1 = uleb128_at(s, pos, 5)->Some_0.1;
        lemma_uleb128_at_bounds(s, pos + n1, 5);
        let n2 = uleb128_at(s, pos + n1, 5)->Some_0.1;
        lemma_uleb128_at_bounds(s, pos + n1 + n2, 5);
        let (first, next) = encoded_method_at(s, pos, prev)->Ok_0;
        lemma_parsed_methods(s, next, (count - 1) as nat, first.method_idx);
        let rest = methods_at(s, next, (count - 1) as nat, first.method_idx)->Ok_0.0;
        let list = seq![first] + rest;
        assert(list.drop_first() =~= rest);
        assert forall|i: int| 0 <= i < list.len() implies prev <= #[trigger] list[i].method_idx by {
            if i > 0 {
                assert(list[i] == rest[i - 1]);
            }
        }
        assert forall|i: int, j: int| 0 <= i <= j < list.len() implies list[i].method_idx
            <= list[j].method_idx by {
            if i > 0 {
                assert(list[i] == rest[i - 1]);
                assert(list[j] == rest[j - 1]);
            } else if j > 0 {
                assert(list[j] == rest[j - 1]);
            }
        }
    }
}

/// Storing one more method entry appends its bytes.
pub proof fn lemma_encode_methods_push(list: Seq<EncodedMethod>, prev: int, e: EncodedMethod)
    ensures
        encode_methods(list.push(e), prev) == encode_methods(list, prev) + encode_method(
            e,
            last_method_idx(list, prev),
        ),
        methods_encodable(list.push(e), prev) <==> methods_encodable(list, prev)
            && method_encodable(e, last_method_idx(list, prev)),
    decreases list.len(),
{
    let longer = list.push(e);
    reveal_with_fuel(encode_methods, 2);
    reveal_with_fuel(methods_encodable, 2);
    if list.len() == 0 {
        assert(longer.drop_first() =~= Seq::<EncodedMethod>::empty());
        assert(encode_methods(longer, prev) =~= encode_method(e, prev));
        assert(encode_methods(list, prev) + encode_method(e, prev) =~= encode_method(e, prev));
    } else {
        let rest = list.drop_first();
        assert(longer.drop_first() =~= rest.push(e));
        lemma_encode_methods_push(rest, list[0].method_idx as int, e);
        assert(last_method_idx(rest, list[0].method_idx as int) == last_method_idx(list, prev)) by {
            if rest.len() > 0 {
                assert(rest.last() == list.last());
            }
        }
        assert(encode_method(list[0], prev) + (encode_methods(rest, list[0].method_idx as int)
            + encode_method(e, last_method_idx(list, prev))) =~= (encode_method(list[0], prev)
            + encode_methods(rest, list[0].method_idx as int)) + encode_method(
            e,
            last_method_idx(list, prev),
        ));
    }
}

/// Appends the bytes of the method entries of `list` to `out`, or gives
/// `false` and leaves `out` as it was where they cannot be stored.
fn push_methods(out: &mut Vec<u8>, list: &Vec<EncodedMethod>) -> (ok: bool)
    ensures
        ok == methods_encodable(list@, 0),
        ok ==> final(out)@ == old(out)@ + encode_methods(list@, 0),
        !ok ==> final(out)@ == old(out)@,
{
    let ghost start = out@;
    let mut bytes: Vec<u8> = Vec::new();
    let mut prev: u64 = 0;
    let mut i: usize = 0;
    while i < list.len()
        invariant
            i <= list@.len(),
            out@ == start,
            methods_encodable(list@.take(i as int), 0),
            bytes@ == encode_methods(list@.take(i as int), 0),
            prev == last_method_idx(list@.take(i as int), 0),
        decreases list@.len() - i,
    {
        let e: EncodedMethod = list[i];
        proof {
            assert(list@.take(i as int + 1) =~= list@.take(i as int).push(e));
            lemma_encode_methods_push(list@.take(i as int), 0, e);
        }
        if e.method_idx < prev || e.method_idx - prev >= ULEB128_LIMIT || e.access_flags
            >= ULEB128_LIMIT || e.code_off >= ULEB128_LIMIT {
            proof {
                if methods_encodable(list@, 0) {
                    lemma_methods_encodable_prefix(list@, 0, i as int + 1);
                }
            }
            return false;
        }
        push_uleb128(&mut bytes, e.method_idx - prev);
            push_uleb128(&mut bytes, e.access_flags);
            push_uleb128(&mut bytes, e.code_off);
        proof {
            assert(bytes@ =~= encode_methods(list@.take(i as int), 0) + encode_method(
                e,
                prev as int,
            ));
        }
        prev = e.method_idx;
        i += 1;
    }
    proof {
        assert(list@.take(i as int) =~= list@);
    }
    out.append(&mut bytes);
    true
}

/// A list that can be stored can be stored up to any of its entries.
pub proof fn lemma_methods_encodable_prefix(list: Seq<EncodedMethod>, prev: int, n: int)
    requires
        0 <= n <= list.len(),
        methods_encodable(list, prev),
    ensures
        methods_encodable(list.take(n), prev),
    decreases n,
{
    if n > 0 {
        lemma_methods_encodable_prefix(list.drop_first(), list[0].method_idx as int, n - 1);
        assert(list.take(n).drop_first() =~= list.drop_first().take(n - 1));
    }
}

impl ClassData {
    /// Whether the item can be stored: each list has fewer entries than a
    /// ULEB128 count of five bytes can express, and can be stored itself.
    pub open spec fn encodable(self) -> bool {
        &&& self.static_fields.len() < ULEB128_LIMIT
        &&& self.instance_fields.len() < ULEB128_LIMIT
        &&& self.direct_methods.len() < ULEB128_LIMIT
        &&& self.virtual_methods.len() < ULEB128_LIMIT
        &&& fields_encodable(self.static_fields, 0)
        &&& fields_encodable(self.instance_fields, 0)
        &&& methods_encodable(self.direct_methods, 0)
        &&& methods_encodable(self.virtual_methods, 0)
    }

    /// Whether the item is in order: inside each list the indices strictly
    /// increase, and no method is both direct and virtual.
    pub open spec fn valid(self) -> bool {
        &&& fields_increase(self.static_fields)
        &&& fields_increase(self.instance_fields)
        &&& methods_increase(self.direct_methods)
        &&& methods_increase(self.virtual_methods)
        &&& methods_disjoint(self.direct_methods, self.virtual_methods)
    }

    /// Whether inside each list no index is below the one before it.
    pub open spec fn never_decreasing(self) -> bool {
        &&& forall|i: int, j: int|
            0 <= i <= j < self.static_fields.len() ==> self.static_fields[i].field_idx
                <= self.static_fields[j].field_idx
        &&& forall|i: int, j: int|
            0 <= i <= j < self.instance_fields.len() ==> self.instance_fields[i].field_idx
                <= self.instance_fields[j].field_idx
        &&& forall|i: int, j: int|
            0 <= i <= j < self.direct_methods.len() ==> self.direct_methods[i].method_idx
                <= self.direct_methods[j].method_idx
        &&& forall|i: int, j: int|
            0 <= i <= j < self.virtual_methods.len() ==> self.virtual_methods[i].method_idx
                <= self.virtual_methods[j].method_idx
    }
}

/// The bytes of a class data item: the four counts, then the four lists,
/// each index as the difference to the one before it.
pub open spec fn encode_class_data(data: ClassData) -> Seq<u8> {
    encode_uleb128_spec(data.static_fields.len()) + encode_uleb128_spec(
        data.instance_fields.len(),
    ) + encode_uleb128_spec(data.direct_methods.len()) + encode_uleb128_spec(
        data.virtual_methods.len(),
    ) + encode_fields(data.static_fields, 0) + encode_fields(data.instance_fields, 0)
        + encode_methods(data.direct_methods, 0) + encode_methods(data.virtual_methods, 0)
}

/// A class data item is read back from its bytes, whatever follows them.
pub proof fn lemma_class_data_roundtrip(data: ClassData, s: Seq<u8>)
    requires
        data.encodable(),
        stands_at(s, 0, encode_class_data(data)),
    ensures
        class_data_at(s) == Ok::<ClassData, DexParseError>(data),
{
    let c1 = encode_uleb128_spec(data.static_fields.len());
    let c2 = encode_uleb128_spec(data.instance_fields.len());
    let c3 = encode_uleb128_spec(data.direct_methods.len());
    let c4 = encode_uleb128_spec(data.virtual_methods.len());
    let l1 = encode_fields(data.static_fields, 0);
    let l2 = encode_fields(data.instance_fields, 0);
    let l3 = encode_methods(data.direct_methods, 0);
    let l4 = encode_methods(data.virtual_methods, 0);
    lemma_uleb128_bound_five();
    lemma_stands_at_split(s, 0, c1 + c2 + c3 + c4 + l1 + l2 + l3, l4);
    lemma_stands_at_split(s, 0, c1 + c2 + c3 + c4 + l1 + l2, l3);
    lemma_stands_at_split(s, 0, c1 + c2 + c3 + c4 + l1, l2);
    lemma_stands_at_split(s, 0, c1 + c2 + c3 + c4, l1);
    lemma_stands_at_split(s, 0, c1 + c2 + c3, c4);
    lemma_stands_at_split(s, 0, c1 + c2, c3);
    lemma_stands_at_split(s, 0, c1, c2);
    lemma_uleb128_roundtrip_at(s, 0, data.static_fields.len(), 5);
    lemma_uleb128_roundtrip_at(s, c1.len() as int, data.instance_fields.len(), 5);
    lemma_uleb128_roundtrip_at(s, (c1.len() + c2.len()) as int, data.direct_methods.len(), 5);
    lemma_uleb128_roundtrip_at(
        s,
        (c1.len() + c2.len() + c3.len()) as int,
        data.virtual_methods.len(),
        5,
    );
    let lists_at = (c1.len() + c2.len() + c3.len() + c4.len()) as int;
    lemma_fields_roundtrip(s, lists_at, data.static_fields, 0);
    lemma_fields_roundtrip(s, lists_at + l1.len(), data.instance_fields, 0);
    lemma_methods_roundtrip(s, lists_at + l1.len() + l2.len(), data.direct_methods, 0);
    lemma_methods_roundtrip(s, lists_at + l1.len() + l2.len() + l3.len(), data.virtual_methods, 0);
}

/// A class data item that was read from bytes can be stored again, and
/// inside each of its lists no index is below the one before it.
pub proof fn lemma_parsed_class_data(s: Seq<u8>)
    requires
        class_data_at(s) is Ok,
    ensures
        class_data_at(s)->Ok_0.encodable(),
        class_data_at(s)->Ok_0.never_decreasing(),
{
    lemma_uleb128_bound_five();
    lemma_uleb128_at_bounds(s, 0, 5);
    let (n_static, a) = uleb128_at(s, 0, 5)->Some_0;
    lemma_uleb128_at_bounds(s, a as int, 5);
    let (n_instance, b) = uleb128_at(s, a as int, 5)->Some_0;
    lemma_uleb128_at_bounds(s, (a + b) as int, 5);
    let (n_direct, c) = uleb128_at(s, (a + b) as int, 5)->Some_0;
    lemma_uleb128_at_bounds(s, (a + b + c) as int, 5);
    let (n_virtual, d) = uleb128_at(s, (a + b + c) as int, 5)->Some_0;
    let lists_at = (a + b + c + d) as int;
    lemma_parsed_fields(s, lists_at, n_static, 0);
    let after_static = fields_at(s, lists_at, n_static, 0)->Ok_0.1;
    lemma_parsed_fields(s, after_static, n_instance, 0);
    let after_instance = fields_at(s, after_static, n_instance, 0)->Ok_0.1;
    lemma_parsed_methods(s, after_instance, n_direct, 0);
    let after_direct = methods_at(s, after_instance, n_direct, 0)->Ok_0.1;
    lemma_parsed_methods(s, after_direct, n_virtual, 0);
}

/// Reading a class data item, storing it again as differences, and reading
/// that gives the item that was read first.
pub proof fn lemma_reencoding_preserves(s: Seq<u8>)
    requires
        class_data_at(s) is Ok,
    ensures
        class_data_at(encode_class_data(class_data_at(s)->Ok_0)) == class_data_at(s),
{
    let data = class_data_at(s)->Ok_0;
    lemma_parsed_class_data(s);
    let bytes = encode_class_data(data);
    assert(bytes.subrange(0, bytes.len() as int) =~= bytes);
    lemma_class_data_roundtrip(data, bytes);
}

/// An item in order that can be stored is read back from its bytes as it
/// is, so the indices that the reader rebuilds from the stored differences
/// strictly increase inside each list.
pub proof fn lemma_valid_item_is_rebuilt_in_order(data: ClassData)
    requires
        data.valid(),
        data.encodable(),
    ensures
        class_data_at(encode_class_data(data)) matches Ok(read) && read == data && read.valid(),
{
    let bytes = encode_class_data(data);
    assert(bytes.subrange(0, bytes.len() as int) =~= bytes);
    lemma_class_data_roundtrip(data, bytes);
}

/// Whether the indices of `list` strictly increase.
pub open spec fn fields_increase(list: Seq<EncodedField>) -> bool {
    forall|i: int, j: int| 0 <= i < j < list.len() ==> list[i].field_idx < list[j].field_idx
}

/// Whether the indices of `list` strictly increase.
pub open spec fn methods_increase(list: Seq<EncodedMethod>) -> bool {
    forall|i: int, j: int| 0 <= i < j < list.len() ==> list[i].method_idx < list[j].method_idx
}

/// Whether no method of `a` has the index of a method of `b`.
pub open spec fn methods_disjoint(a: Seq<EncodedMethod>, b: Seq<EncodedMethod>) -> bool {
    forall|i: int, j: int|
        0 <= i < a.len() && 0 <= j < b.len() ==> a[i].method_idx != b[j].method_idx
}

fn check_fields_increase(list: &Vec<EncodedField>) -> (r: bool)
    ensures
        r == fields_increase(list@),
{
    let mut i: usize = 1;
    while i < list.len()
        invariant
            1 <= i,
            forall|a: int, b: int|
                0 <= a < b < i && b < list@.len() ==> list@[a].field_idx < list@[b].field_idx,
        decreases list@.len() - i,
    {
        if list[i - 1].field_idx >= list[i].field_idx {
            return false;
        }
        assert forall|a: int, b: int| 0 <= a < b < i + 1 implies list@[a].field_idx
            < list@[b].field_idx by {
            if b == i && a < i - 1 {
                assert(list@[a].field_idx < list@[i - 1].field_idx);
            }
        }
        i += 1;
    }
    true
}

fn check_methods_increase(list: &Vec<EncodedMethod>) -> (r: bool)
    ensures
        r == methods_increase(list@),
{
    let mut i: usize = 1;
    while i < list.len()
        invariant
            1 <= i,
            forall|a: int, b: int|
                0 <= a < b < i && b < list@.len() ==> list@[a].method_idx < list@[b].method_idx,
        decreases list@.len() - i,
    {
        if list[i - 1].method_idx >= list[i].method_idx {
            return false;
        }
        assert forall|a: int, b: int| 0 <= a < b < i + 1 implies list@[a].method_idx
            < list@[b].method_idx by {
            if b == i && a < i - 1 {
                assert(list@[a].method_idx < list@[i - 1].method_idx);
            }
        }
        i += 1;
    }
    true
}

fn check_methods_disjoint(a: &Vec<EncodedMethod>, b: &Vec<EncodedMethod>) -> (r: bool)
    requires
        methods_increase(a@),
        methods_increase(b@),
    ensures
        r == methods_disjoint(a@, b@),
{
    let mut i: usize = 0;
    let mut j: usize = 0;
    while i < a.len() && j < b.len()
        invariant
            i <= a@.len(),
            j <= b@.len(),
            methods_increase(a@),
            methods_increase(b@),
            forall|x: int, y: int|
                0 <= x < a@.len() && 0 <= y < b@.len() && (x < i || y < j) ==> a@[x].method_idx
                    != b@[y].method_idx,
        decreases a@.len() - i + b@.len() - j,
    {
        if a[i].method_idx == b[j].method_idx {
            return false;
        } else if a[i].method_idx < b[j].method_idx {
            assert forall|y: int| 0 <= y < b@.len() implies a@[i as int].method_idx
                != b@[y].method_idx by {
                if y > j {
                    assert(b@[j as int].method_idx < b@[y].method_idx);
                }
            }
            i += 1;
        } else {
            assert forall|x: int| 0 <= x < a@.len() implies a@[x].method_idx
                != b@[j as int].method_idx by {
                if x > i {
                    assert(a@[i as int].method_idx < a@[x].method_idx);
                }
            }
            j += 1;
        }
    }
    true
}

impl ClassDataItem {
    /// Whether the item is in order: inside each list the indices strictly
    /// increase, and no method is both direct and virtual.
    pub fn is_valid(&self) -> (r: bool)
        ensures
            r == self@.valid(),
    {
        check_fields_increase(&self.static_fields) && check_fields_increase(&self.instance_fields)
            && check_methods_increase(&self.direct_methods) && check_methods_increase(
            &self.virtual_methods,
        ) && check_methods_disjoint(&self.direct_methods, &self.virtual_methods)
    }

    /// The bytes of the item: the four counts, then the four lists, each
    /// index as the difference to the one before it. `None` where the item
    /// cannot be stored: an index is below the one before it, or a value
    /// needs more than five ULEB128 bytes.
    pub fn encode(&self) -> (r: Option<Vec<u8>>)
        ensures
            r is Some <==> self@.encodable(),
            r matches Some(bytes) ==> bytes@ == encode_class_data(self@),
    {
        if self.static_fields.len() as u64 >= ULEB128_LIMIT || self.instance_fields.len() as u64
            >= ULEB128_LIMIT || self.direct_methods.len() as u64 >= ULEB128_LIMIT
            || self.virtual_methods.len() as u64 >= ULEB128_LIMIT {
            return None;
        }
        let mut out: Vec<u8> = Vec::new();
        push_uleb128(&mut out, self.static_fields.len() as u64);
        push_uleb128(&mut out, self.instance_fields.len() as u64);
        push_uleb128(&mut out, self.direct_methods.len() as u64);
        push_uleb128(&mut out, self.virtual_methods.len() as u64);
        if !push_fields(&mut out, &self.static_fields) {
            return None;
        }
        if !push_fields(&mut out, &self.instance_fields) {
            return None;
        }
        if !push_methods(&mut out, &self.direct_methods) {
            return None;
        }
        if !push_methods(&mut out, &self.virtual_methods) {
            return None;
        }
        assert(out@ =~= encode_class_data(self@));
        Some(out)
    }
}

} // verus!
