use vstd::prelude::*;
use vstd::slice::slice_subrange;

use crate::dex::class_def_item::ClassDefItem;
use crate::dex::field_id_item::FieldIdItem;
use crate::dex::call_site_id_item::CallSiteIdItem;
use crate::dex::method_handle_item::MethodHandleItem;
use crate::dex::method_id_item::MethodIdItem;
use crate::dex::proto_id_item::ProtoIdItem;
use crate::dex::string::{mutf8_text, read_string_from_bytes, string_data_at};
use crate::traits::parse::TryParseFromBytes;
use crate::utils::{read_u16_le, read_u32_le, u16_le, u32_le};

verus! {

/// The texts of a list of strings.
pub open spec fn texts(v: Seq<String>) -> Seq<Seq<char>> {
    v.map_values(|s: String| s@)
}

/// The first `count` records of `size` bytes each from `off` on, as far as
/// they lie inside `raw` whole. A record that the bytes end before is left
/// out, and so are those behind it.
pub open spec fn pool_of<T: TryParseFromBytes>(
    raw: Seq<u8>,
    off: int,
    count: nat,
    size: nat,
) -> Seq<T>
    decreases count,
{
    if count == 0 {
        Seq::empty()
    } else {
        let front = pool_of::<T>(raw, off, (count - 1) as nat, size);
        let at = off + (count - 1) * size;
        if at + size <= raw.len() {
            front.push(T::spec_parse(raw.subrange(at, raw.len() as int)))
        } else {
            front
        }
    }
}

/// Once a record does not fit, no further record is added.
pub proof fn lemma_pool_ends<T: TryParseFromBytes>(
    raw: Seq<u8>,
    off: int,
    fitting: nat,
    count: nat,
    size: nat,
)
    requires
        fitting <= count,
        off >= 0,
        off + fitting * size + size > raw.len(),
    ensures
        pool_of::<T>(raw, off, count, size) == pool_of::<T>(raw, off, fitting, size),
    decreases count,
{
    if count > fitting {
        lemma_pool_ends::<T>(raw, off, fitting, (count - 1) as nat, size);
        assert(off + (count - 1) * size >= off + fitting * size) by (nonlinear_arith)
            requires
                count - 1 >= fitting,
        ;
    }
}

/// The text of the string whose identifier stands at `at`: the identifier is
/// the offset of the string's data. `None` where the bytes end before the
/// identifier does, or no string data can be read at the offset.
pub open spec fn string_entry(raw: Seq<u8>, at: int) -> Option<Seq<char>> {
    if 0 <= at && at + 4 <= raw.len() {
        match string_data_at(raw, u32_le(raw, at) as int) {
            Ok((declared, bytes)) => Some(mutf8_text(bytes)),
            Err(_) => None,
        }
    } else {
        None
    }
}

/// The strings of the first `count` identifiers from `off` on. An identifier
/// whose string cannot be read is left out.
pub open spec fn strings_of(raw: Seq<u8>, off: int, count: nat) -> Seq<Seq<char>>
    decreases count,
{
    if count == 0 {
        Seq::empty()
    } else {
        let front = strings_of(raw, off, (count - 1) as nat);
        match string_entry(raw, off + 4 * (count - 1)) {
            Some(text) => front.push(text),
            None => front,
        }
    }
}

/// Once an identifier lies behind the end of the bytes, no further string is
/// added.
pub proof fn lemma_strings_end(raw: Seq<u8>, off: int, fitting: nat, count: nat)
    requires
        fitting <= count,
        off >= 0,
        off + 4 * fitting + 4 > raw.len(),
    ensures
        strings_of(raw, off, count) == strings_of(raw, off, fitting),
    decreases count,
{
    if count > fitting {
        lemma_strings_end(raw, off, fitting, (count - 1) as nat);
    }
}

/// The descriptor of the type whose identifier stands at `at`: the identifier
/// is an index into `strings`. An index outside `strings` gives an empty
/// descriptor. `None` where the bytes end before the identifier does.
pub open spec fn type_entry(raw: Seq<u8>, at: int, strings: Seq<Seq<char>>) -> Option<Seq<char>> {
    if 0 <= at && at + 4 <= raw.len() {
        if u32_le(raw, at) < strings.len() {
            Some(strings[u32_le(raw, at) as int])
        } else {
            Some(Seq::empty())
        }
    } else {
        None
    }
}

/// The descriptors of the first `count` type identifiers from `off` on.
pub open spec fn types_of(raw: Seq<u8>, off: int, count: nat, strings: Seq<Seq<char>>) -> Seq<
    Seq<char>,
>
    decreases count,
{
    if count == 0 {
        Seq::empty()
    } else {
        let front = types_of(raw, off, (count - 1) as nat, strings);
        match type_entry(raw, off + 4 * (count - 1), strings) {
            Some(text) => front.push(text),
            None => front,
        }
    }
}

/// Once an identifier lies behind the end of the bytes, no further type is
/// added.
pub proof fn lemma_types_end(
    raw: Seq<u8>,
    off: int,
    fitting: nat,
    count: nat,
    strings: Seq<Seq<char>>,
)
    requires
        fitting <= count,
        off >= 0,
        off + 4 * fitting + 4 > raw.len(),
    ensures
        types_of(raw, off, count, strings) == types_of(raw, off, fitting, strings),
    decreases count,
{
    if count > fitting {
        lemma_types_end(raw, off, fitting, (count - 1) as nat, strings);
    }
}

/// Reads the string pool: `count` identifiers from `off` on, each the offset
/// of a string's data. A string that cannot be read is left out.
pub fn read_strings(buffer: &[u8], off: u32, count: u32) -> (r: Vec<String>)
    ensures
        texts(r@) == strings_of(buffer@, off as int, count as nat),
{
    let end: usize = buffer.len();
    let mut strings: Vec<String> = Vec::new();
    let mut i: u32 = 0;
    assert(texts(strings@) =~= Seq::<Seq<char>>::empty());
    while i < count
        invariant
            i <= count,
            end == buffer@.len(),
            texts(strings@) == strings_of(buffer@, off as int, i as nat),
        decreases count - i,
    {
        let at: u64 = off as u64 + 4 * (i as u64);
        if at + 4 > end as u64 {
            proof {
                lemma_strings_end(buffer@, off as int, i as nat, count as nat);
            }
            return strings;
        }
        let string_data_off: usize = read_u32_le(buffer, at as usize) as usize;
        let ghost before = strings@;
        match read_string_from_bytes(buffer, string_data_off) {
            Ok(text) => {
                strings.push(text);
                assert(texts(strings@) =~= texts(before).push(text@));
            },
            Err(_) => {},
        }
        i += 1;
    }
    strings
}

/// Reads the type pool: `count` identifiers from `off` on, each an index
/// into the string pool. An index outside the string pool gives an empty
/// descriptor, so that the types behind it keep their indices.
pub fn read_types(buffer: &[u8], off: u32, count: u32, strings: &Vec<String>) -> (r: Vec<String>)
    ensures
        texts(r@) == types_of(buffer@, off as int, count as nat, texts(strings@)),
{
    let end: usize = buffer.len();
    let mut types: Vec<String> = Vec::new();
    let mut i: u32 = 0;
    assert(texts(types@) =~= Seq::<Seq<char>>::empty());
    while i < count
        invariant
            i <= count,
            end == buffer@.len(),
            texts(types@) == types_of(buffer@, off as int, i as nat, texts(strings@)),
        decreases count - i,
    {
        let at: u64 = off as u64 + 4 * (i as u64);
        if at + 4 > end as u64 {
            proof {
                lemma_types_end(buffer@, off as int, i as nat, count as nat, texts(strings@));
            }
            return types;
        }
        let descriptor_idx: usize = read_u32_le(buffer, at as usize) as usize;
        let ghost before = types@;
        let descriptor: String = if descriptor_idx < strings.len() {
            strings[descriptor_idx].clone()
        } else {
            String::new()
        };
        types.push(descriptor);
        assert(texts(types@) =~= texts(before).push(descriptor@));
        i += 1;
    }
    types
}

/// Reads the prototype pool: `count` records of 12 bytes from `off` on. A
/// record that the bytes end before is left out, and so are those behind it.
pub fn read_proto_id_items(buffer: &[u8], off: u32, count: u32) -> (r: Vec<ProtoIdItem>)
    ensures
        r@ == pool_of::<ProtoIdItem>(buffer@, off as int, count as nat, 12),
{
    let end: usize = buffer.len();
    let mut items: Vec<ProtoIdItem> = Vec::new();
    let mut i: u32 = 0;
    while i < count
        invariant
            i <= count,
            end == buffer@.len(),
            items@ == pool_of::<ProtoIdItem>(buffer@, off as int, i as nat, 12),
        decreases count - i,
    {
        let at: u64 = off as u64 + 12 * (i as u64);
        if at + 12 > end as u64 {
            proof {
                lemma_pool_ends::<ProtoIdItem>(buffer@, off as int, i as nat, count as nat, 12);
            }
            return items;
        }
        let item: ProtoIdItem = ProtoIdItem::parse_from_bytes(
            slice_subrange(buffer, at as usize, end),
        );
        items.push(item);
        i += 1;
    }
    items
}

/// Reads the field pool: `count` records of 8 bytes from `off` on. A
/// record that the bytes end before is left out, and so are those behind it.
pub fn read_field_id_items(buffer: &[u8], off: u32, count: u32) -> (r: Vec<FieldIdItem>)
    ensures
        r@ == pool_of::<FieldIdItem>(buffer@, off as int, count as nat, 8),
{
    let end: usize = buffer.len();
    let mut items: Vec<FieldIdItem> = Vec::new();
    let mut i: u32 = 0;
    while i < count
        invariant
            i <= count,
            end == buffer@.len(),
            items@ == pool_of::<FieldIdItem>(buffer@, off as int, i as nat, 8),
        decreases count - i,
    {
        let at: u64 = off as u64 + 8 * (i as u64);
        if at + 8 > end as u64 {
            proof {
                lemma_pool_ends::<FieldIdItem>(buffer@, off as int, i as nat, count as nat, 8);
            }
            return items;
        }
        let item: FieldIdItem = FieldIdItem::parse_from_bytes(
            slice_subrange(buffer, at as usize, end),
        );
        items.push(item);
        i += 1;
    }
    items
}

/// Reads the method pool: `count` records of 8 bytes from `off` on. A
/// record that the bytes end before is left out, and so are those behind it.
pub fn read_method_id_items(buffer: &[u8], off: u32, count: u32) -> (r: Vec<MethodIdItem>)
    ensures
        r@ == pool_of::<MethodIdItem>(buffer@, off as int, count as nat, 8),
{
    let end: usize = buffer.len();
    let mut items: Vec<MethodIdItem> = Vec::new();
    let mut i: u32 = 0;
    while i < count
        invariant
            i <= count,
            end == buffer@.len(),
            items@ == pool_of::<MethodIdItem>(buffer@, off as int, i as nat, 8),
        decreases count - i,
    {
        let at: u64 = off as u64 + 8 * (i as u64);
        if at + 8 > end as u64 {
            proof {
                lemma_pool_ends::<MethodIdItem>(buffer@, off as int, i as nat, count as nat, 8);
            }
            return items;
        }
        let item: MethodIdItem = MethodIdItem::parse_from_bytes(
            slice_subrange(buffer, at as usize, end),
        );
        items.push(item);
        i += 1;
    }
    items
}

/// Reads the class definition pool: `count` records of 32 bytes from `off` on. A
/// record that the bytes end before is left out, and so are those behind it.
pub fn read_class_def_items(buffer: &[u8], off: u32, count: u32) -> (r: Vec<ClassDefItem>)
    ensures
        r@ == pool_of::<ClassDefItem>(buffer@, off as int, count as nat, 32),
{
    let end: usize = buffer.len();
    let mut items: Vec<ClassDefItem> = Vec::new();
    let mut i: u32 = 0;
    while i < count
        invariant
            i <= count,
            end == buffer@.len(),
            items@ == pool_of::<ClassDefItem>(buffer@, off as int, i as nat, 32),
        decreases count - i,
    {
        let at: u64 = off as u64 + 32 * (i as u64);
        if at + 32 > end as u64 {
            proof {
                lemma_pool_ends::<ClassDefItem>(buffer@, off as int, i as nat, count as nat, 32);
            }
            return items;
        }
        let item: ClassDefItem = ClassDefItem::parse_from_bytes(
            slice_subrange(buffer, at as usize, end),
        );
        items.push(item);
        i += 1;
    }
    items
}

/// The type code of the call site identifiers in the map list.
pub const TYPE_CALL_SITE_ID_ITEM: u16 = 0x0007;

/// The type code of the method handles in the map list.
pub const TYPE_METHOD_HANDLE_ITEM: u16 = 0x0008;

/// The number of entries that the map list at `map_off` announces: none
/// where the offset is 0 or the bytes end before the count does.
pub open spec fn map_count(raw: Seq<u8>, map_off: int) -> nat {
    if 0 < map_off && map_off + 4 <= raw.len() {
        u32_le(raw, map_off) as nat
    } else {
        0
    }
}

/// The count and the offset of the section with type code `code`, as the
/// first entry of that type among the first `n` entries of the map list
/// gives them. An entry has twelve bytes: the type code, two unused bytes,
/// the count and the offset. An entry that the bytes end before is passed
/// over.
pub open spec fn map_section(raw: Seq<u8>, map_off: int, code: u16, n: nat) -> Option<(u32, u32)>
    decreases n,
{
    if n == 0 {
        None
    } else {
        match map_section(raw, map_off, code, (n - 1) as nat) {
            Some(found) => Some(found),
            None => {
                let at = map_off + 4 + 12 * (n - 1);
                if at + 12 <= raw.len() && u16_le(raw, at) == code {
                    Some((u32_le(raw, at + 4), u32_le(raw, at + 8)))
                } else {
                    None
                }
            },
        }
    }
}

/// Once an entry lies behind the end of the bytes, no further entry is
/// looked at.
pub proof fn lemma_map_ends(raw: Seq<u8>, map_off: int, code: u16, fitting: nat, count: nat)
    requires
        fitting <= count,
        map_off >= 0,
        map_off + 4 + 12 * fitting + 12 > raw.len(),
    ensures
        map_section(raw, map_off, code, count) == map_section(raw, map_off, code, fitting),
    decreases count,
{
    if count > fitting {
        lemma_map_ends(raw, map_off, code, fitting, (count - 1) as nat);
    }
}

/// Looks up the section with type code `code` in the map list at `map_off`
/// and gives its count and its offset.
pub fn find_section(buffer: &[u8], map_off: u32, code: u16) -> (r: Option<(u32, u32)>)
    ensures
        r == map_section(buffer@, map_off as int, code, map_count(buffer@, map_off as int)),
{
    let end: usize = buffer.len();
    if map_off == 0 || map_off as u64 + 4 > end as u64 {
        return None;
    }
    let count: u32 = read_u32_le(buffer, map_off as usize);
    let mut i: u32 = 0;
    while i < count
        invariant
            i <= count,
            end == buffer@.len(),
            count == map_count(buffer@, map_off as int),
            map_section(buffer@, map_off as int, code, i as nat) is None,
        decreases count - i,
    {
        let at: u64 = map_off as u64 + 4 + 12 * (i as u64);
        if at + 12 > end as u64 {
            proof {
                lemma_map_ends(buffer@, map_off as int, code, i as nat, count as nat);
            }
            return None;
        }
        if read_u16_le(buffer, at as usize) == code {
            let size: u32 = read_u32_le(buffer, at as usize + 4);
            let offset: u32 = read_u32_le(buffer, at as usize + 8);
            proof {
                lemma_map_found(buffer@, map_off as int, code, i as nat + 1, count as nat);
            }
            return Some((size, offset));
        }
        i += 1;
    }
    None
}

/// A section that was found among the first entries is the section that the
/// whole list gives.
pub proof fn lemma_map_found(raw: Seq<u8>, map_off: int, code: u16, n: nat, count: nat)
    requires
        n <= count,
        map_section(raw, map_off, code, n) is Some,
    ensures
        map_section(raw, map_off, code, count) == map_section(raw, map_off, code, n),
    decreases count,
{
    if count > n {
        lemma_map_found(raw, map_off, code, n, (count - 1) as nat);
    }
}

/// The method handles of the container: the section of method handles that
/// the map list gives, or none where it gives none.
pub open spec fn method_handles_of(raw: Seq<u8>, map_off: int) -> Seq<MethodHandleItem> {
    match map_section(raw, map_off, TYPE_METHOD_HANDLE_ITEM, map_count(raw, map_off)) {
        Some((size, offset)) => pool_of::<MethodHandleItem>(raw, offset as int, size as nat, 8),
        None => Seq::empty(),
    }
}

/// The call sites of the container: the section of call site identifiers
/// that the map list gives, or none where it gives none.
pub open spec fn call_sites_of(raw: Seq<u8>, map_off: int) -> Seq<CallSiteIdItem> {
    match map_section(raw, map_off, TYPE_CALL_SITE_ID_ITEM, map_count(raw, map_off)) {
        Some((size, offset)) => pool_of::<CallSiteIdItem>(raw, offset as int, size as nat, 4),
        None => Seq::empty(),
    }
}

/// Reads the method handles that the map list at `map_off` points to.
pub fn read_method_handles(buffer: &[u8], map_off: u32) -> (r: Vec<MethodHandleItem>)
    ensures
        r@ == method_handles_of(buffer@, map_off as int),
{
    match find_section(buffer, map_off, TYPE_METHOD_HANDLE_ITEM) {
        Some((size, offset)) => read_method_handle_items(buffer, offset, size),
        None => Vec::new(),
    }
}

/// Reads the call sites that the map list at `map_off` points to.
pub fn read_call_sites(buffer: &[u8], map_off: u32) -> (r: Vec<CallSiteIdItem>)
    ensures
        r@ == call_sites_of(buffer@, map_off as int),
{
    match find_section(buffer, map_off, TYPE_CALL_SITE_ID_ITEM) {
        Some((size, offset)) => read_call_site_id_items(buffer, offset, size),
        None => Vec::new(),
    }
}

/// Reads the method handle pool: `count` records of 8 bytes from `off` on. A
/// record that the bytes end before is left out, and so are those behind it.
pub fn read_method_handle_items(buffer: &[u8], off: u32, count: u32) -> (r: Vec<MethodHandleItem>)
    ensures
        r@ == pool_of::<MethodHandleItem>(buffer@, off as int, count as nat, 8),
{
    let end: usize = buffer.len();
    let mut items: Vec<MethodHandleItem> = Vec::new();
    let mut i: u32 = 0;
    while i < count
        invariant
            i <= count,
            end == buffer@.len(),
            items@ == pool_of::<MethodHandleItem>(buffer@, off as int, i as nat, 8),
        decreases count - i,
    {
        let at: u64 = off as u64 + 8 * (i as u64);
        if at + 8 > end as u64 {
            proof {
                lemma_pool_ends::<MethodHandleItem>(buffer@, off as int, i as nat, count as nat, 8);
            }
            return items;
        }
        let item: MethodHandleItem = MethodHandleItem::parse_from_bytes(
            slice_subrange(buffer, at as usize, end),
        );
        items.push(item);
        i += 1;
    }
    items
}

/// Reads the call site pool: `count` records of 4 bytes from `off` on. A
/// record that the bytes end before is left out, and so are those behind it.
pub fn read_call_site_id_items(buffer: &[u8], off: u32, count: u32) -> (r: Vec<CallSiteIdItem>)
    ensures
        r@ == pool_of::<CallSiteIdItem>(buffer@, off as int, count as nat, 4),
{
    let end: usize = buffer.len();
    let mut items: Vec<CallSiteIdItem> = Vec::new();
    let mut i: u32 = 0;
    while i < count
        invariant
            i <= count,
            end == buffer@.len(),
            items@ == pool_of::<CallSiteIdItem>(buffer@, off as int, i as nat, 4),
        decreases count - i,
    {
        let at: u64 = off as u64 + 4 * (i as u64);
        if at + 4 > end as u64 {
            proof {
                lemma_pool_ends::<CallSiteIdItem>(buffer@, off as int, i as nat, count as nat, 4);
            }
            return items;
        }
        let item: CallSiteIdItem = CallSiteIdItem::parse_from_bytes(
            slice_subrange(buffer, at as usize, end),
        );
        items.push(item);
        i += 1;
    }
    items
}

} // verus!
