use vstd::prelude::*;

use crate::dex::call_site_id_item::CallSiteIdItem;
use crate::dex::class_def_item::ClassDefItem;
use crate::dex::field_id_item::FieldIdItem;
use crate::dex::header_item::HeaderItem;
use crate::dex::method_handle_item::MethodHandleItem;
use crate::dex::method_id_item::MethodIdItem;
use crate::dex::proto_id_item::ProtoIdItem;
use crate::dex::pools::{
    call_sites_of, method_handles_of, pool_of, read_call_sites, read_class_def_items,
    read_field_id_items, read_method_handles, read_method_id_items, read_proto_id_items,
    read_strings, read_types, strings_of, texts, types_of,
};
use crate::errors::{DexParseError, TableIdxError};
use crate::traits::parse::TryParseFromBytes;
use crate::text::{push_quoted, quoted};

pub mod access_flags;
pub mod call_site_id_item;
pub mod class_data_item;
pub mod class_def_item;
pub mod code_item;
pub mod encoded;
pub mod field_id_item;
pub mod header_item;
pub mod instruction;
pub mod labels;
pub mod method_handle_item;
pub mod method_id_item;
pub mod pools;
pub mod proto_id_item;
pub mod string;
pub mod type_list;

verus! {

/// A parsed container: the raw bytes and the pools that were read from them.
///
/// Pools refer to one another by plain indices. An index is checked against
/// its pool when it is used, not when the container is read.
pub struct Dex<'a> {
    pub raw: &'a [u8],
    pub header_item: HeaderItem,
    pub strings: Vec<String>,
    pub types: Vec<String>,
    pub proto_ids: Vec<ProtoIdItem>,
    pub field_ids: Vec<FieldIdItem>,
    pub method_ids: Vec<MethodIdItem>,
    pub class_defs: Vec<ClassDefItem>,
    pub method_handles: Vec<MethodHandleItem>,
    pub call_site_items: Vec<CallSiteIdItem>,
}

impl<'a> Dex<'a> {
    /// Whether the container holds what `raw` says: the header at its front,
    /// the pools that the header points to, and the method handles and call
    /// sites that the map list points to.
    pub open spec fn holds(self, raw: Seq<u8>) -> bool {
        let header = self.header_item;
        let strings = strings_of(
            raw,
            header.string_ids_off as int,
            header.string_ids_size as nat,
        );
        &&& self.raw@ == raw
        &&& header == HeaderItem::spec_parse(raw)
        &&& texts(self.strings@) == strings
        &&& texts(self.types@) == types_of(
            raw,
            header.type_ids_off as int,
            header.type_ids_size as nat,
            strings,
        )
        &&& self.proto_ids@ == pool_of::<ProtoIdItem>(
            raw,
            header.proto_ids_off as int,
            header.proto_ids_size as nat,
            12,
        )
        &&& self.field_ids@ == pool_of::<FieldIdItem>(
            raw,
            header.field_ids_off as int,
            header.field_ids_size as nat,
            8,
        )
        &&& self.method_ids@ == pool_of::<MethodIdItem>(
            raw,
            header.method_ids_off as int,
            header.method_ids_size as nat,
            8,
        )
        &&& self.class_defs@ == pool_of::<ClassDefItem>(
            raw,
            header.class_defs_off as int,
            header.class_defs_size as nat,
            32,
        )
        &&& self.method_handles@ == method_handles_of(raw, header.map_off as int)
        &&& self.call_site_items@ == call_sites_of(raw, header.map_off as int)
    }

    /// Reads a container: the header, then each pool that the header or the
    /// map list points to. Fails only where the bytes end before the header does. A pool
    /// entry that cannot be read is left out; an index that comes to lie
    /// outside its pool by that is reported where it is used.
    pub fn try_parse_from_bytes(buffer: &'a [u8]) -> (r: Result<Dex<'a>, DexParseError>)
        ensures
            buffer@.len() >= 112 ==> (r matches Ok(dex) && dex.holds(buffer@)),
            buffer@.len() < 112 ==> (r matches Err(
                DexParseError::InvalidElementSize { field, expected, actual },
            ) && field@ == "header_item"@ && expected == 112 && actual == buffer@.len()),
    {
        let header_item: HeaderItem = match HeaderItem::try_parse_from_bytes(buffer) {
            Ok(header) => header,
            Err(e) => {
                return Err(e);
            },
        };
        let strings: Vec<String> = read_strings(
            buffer,
            header_item.string_ids_off,
            header_item.string_ids_size,
        );
        let types: Vec<String> = read_types(
            buffer,
            header_item.type_ids_off,
            header_item.type_ids_size,
            &strings,
        );
        let proto_ids: Vec<ProtoIdItem> = read_proto_id_items(
            buffer,
            header_item.proto_ids_off,
            header_item.proto_ids_size,
        );
        let field_ids: Vec<FieldIdItem> = read_field_id_items(
            buffer,
            header_item.field_ids_off,
            header_item.field_ids_size,
        );
        let method_ids: Vec<MethodIdItem> = read_method_id_items(
            buffer,
            header_item.method_ids_off,
            header_item.method_ids_size,
        );
        let class_defs: Vec<ClassDefItem> = read_class_def_items(
            buffer,
            header_item.class_defs_off,
            header_item.class_defs_size,
        );
        let method_handles: Vec<MethodHandleItem> = read_method_handles(
            buffer,
            header_item.map_off,
        );
        let call_site_items: Vec<CallSiteIdItem> = read_call_sites(buffer, header_item.map_off);
        Ok(
            Dex {
                raw: buffer,
                header_item,
                strings,
                types,
                proto_ids,
                field_ids,
                method_ids,
                class_defs,
                method_handles,
                call_site_items,
            },
        )
    }

    /// Reads a container, as `try_parse_from_bytes` does.
    pub fn parse_from_bytes(buffer: &'a [u8]) -> (r: Result<Dex<'a>, DexParseError>)
        ensures
            buffer@.len() >= 112 ==> (r matches Ok(dex) && dex.holds(buffer@)),
            buffer@.len() < 112 ==> (r matches Err(
                DexParseError::InvalidElementSize { field, expected, actual },
            ) && field@ == "header_item"@ && expected == 112 && actual == buffer@.len()),
    {
        Dex::try_parse_from_bytes(buffer)
    }

    /// The string at `idx` of the string pool.
    pub open spec fn string_at(self, idx: int) -> Result<Seq<char>, TableIdxError> {
        if 0 <= idx < self.strings@.len() {
            Ok(self.strings@[idx]@)
        } else {
            Err(TableIdxError::String(idx as usize))
        }
    }

    /// The descriptor at `idx` of the type pool.
    pub open spec fn type_at(self, idx: int) -> Result<Seq<char>, TableIdxError> {
        if 0 <= idx < self.types@.len() {
            Ok(self.types@[idx]@)
        } else {
            Err(TableIdxError::Type(idx as usize))
        }
    }

    /// Looks up a string of the string pool.
    pub fn string(&self, idx: usize) -> (r: Result<&str, TableIdxError>)
        ensures
            match self.string_at(idx as int) {
                Ok(text) => r matches Ok(s) && s@ == text,
                Err(e) => r == Err::<&str, TableIdxError>(e),
            },
    {
        if idx < self.strings.len() {
            Ok(self.strings[idx].as_str())
        } else {
            Err(TableIdxError::String(idx))
        }
    }

    /// Looks up a descriptor of the type pool.
    pub fn type_descriptor(&self, idx: usize) -> (r: Result<&str, TableIdxError>)
        ensures
            match self.type_at(idx as int) {
                Ok(text) => r matches Ok(s) && s@ == text,
                Err(e) => r == Err::<&str, TableIdxError>(e),
            },
    {
        if idx < self.types.len() {
            Ok(self.types[idx].as_str())
        } else {
            Err(TableIdxError::Type(idx))
        }
    }

    /// The field at `idx` of the field pool as text.
    pub open spec fn field_text(self, idx: int) -> Result<Seq<char>, TableIdxError> {
        if 0 <= idx < self.field_ids@.len() {
            self.field_ids@[idx].spec_text(self)
        } else {
            Err(TableIdxError::FieldId(idx as usize))
        }
    }

    /// The method at `idx` of the method pool as text.
    pub open spec fn method_text(self, idx: int) -> Result<Seq<char>, TableIdxError> {
        if 0 <= idx < self.method_ids@.len() {
            self.method_ids@[idx].spec_text(self)
        } else {
            Err(TableIdxError::MethodId(idx as usize))
        }
    }

    /// The prototype at `idx` of the prototype pool as text.
    pub open spec fn proto_text(self, idx: int) -> Result<Seq<char>, TableIdxError> {
        if 0 <= idx < self.proto_ids@.len() {
            self.proto_ids@[idx].spec_text(self)
        } else {
            Err(TableIdxError::ProtoId(idx as usize))
        }
    }

    /// The call site at `idx` of the call site pool as text.
    pub open spec fn call_site_text(self, idx: int) -> Result<Seq<char>, TableIdxError> {
        if 0 <= idx < self.call_site_items@.len() {
            Ok(self.call_site_items@[idx].spec_text())
        } else {
            Err(TableIdxError::CallSite(idx as usize))
        }
    }

    /// The method handle at `idx` of the method handle pool as text.
    pub open spec fn method_handle_text(self, idx: int) -> Result<Seq<char>, TableIdxError> {
        if 0 <= idx < self.method_handles@.len() {
            Ok(self.method_handles@[idx].spec_text())
        } else {
            Err(TableIdxError::MethodHandle(idx as usize))
        }
    }

    /// Renders a string of the string pool as a string literal.
    pub fn quoted_string(&self, idx: usize) -> (r: Result<String, TableIdxError>)
        ensures
            match self.string_at(idx as int) {
                Ok(text) => r matches Ok(s) && s@ == quoted(text),
                Err(e) => r == Err::<String, TableIdxError>(e),
            },
    {
        match self.string(idx) {
            Ok(text) => {
                let mut out: String = String::new();
                push_quoted(&mut out, text);
                assert(out@ =~= quoted(text@));
                Ok(out)
            },
            Err(e) => Err(e),
        }
    }

    /// Copies a descriptor of the type pool.
    pub fn type_to_string(&self, idx: usize) -> (r: Result<String, TableIdxError>)
        ensures
            match self.type_at(idx as int) {
                Ok(text) => r matches Ok(s) && s@ == text,
                Err(e) => r == Err::<String, TableIdxError>(e),
            },
    {
        match self.type_descriptor(idx) {
            Ok(text) => Ok(String::from_str(text)),
            Err(e) => Err(e),
        }
    }

    /// Renders a field of the field pool.
    pub fn field_to_human_readable(&self, idx: usize) -> (r: Result<String, TableIdxError>)
        ensures
            match self.field_text(idx as int) {
                Ok(text) => r matches Ok(s) && s@ == text,
                Err(e) => r == Err::<String, TableIdxError>(e),
            },
    {
        if idx < self.field_ids.len() {
            self.field_ids[idx].to_human_readable(self)
        } else {
            Err(TableIdxError::FieldId(idx))
        }
    }

    /// Renders a method of the method pool.
    pub fn method_to_human_readable(&self, idx: usize) -> (r: Result<String, TableIdxError>)
        ensures
            match self.method_text(idx as int) {
                Ok(text) => r matches Ok(s) && s@ == text,
                Err(e) => r == Err::<String, TableIdxError>(e),
            },
    {
        if idx < self.method_ids.len() {
            self.method_ids[idx].to_human_readable(self)
        } else {
            Err(TableIdxError::MethodId(idx))
        }
    }

    /// Renders a prototype of the prototype pool.
    pub fn proto_to_human_readable(&self, idx: usize) -> (r: Result<String, TableIdxError>)
        ensures
            match self.proto_text(idx as int) {
                Ok(text) => r matches Ok(s) && s@ == text,
                Err(e) => r == Err::<String, TableIdxError>(e),
            },
    {
        if idx < self.proto_ids.len() {
            self.proto_ids[idx].to_human_readable(self)
        } else {
            Err(TableIdxError::ProtoId(idx))
        }
    }

    /// Renders a call site of the call site pool.
    pub fn call_site_to_human_readable(&self, idx: usize) -> (r: Result<String, TableIdxError>)
        ensures
            match self.call_site_text(idx as int) {
                Ok(text) => r matches Ok(s) && s@ == text,
                Err(e) => r == Err::<String, TableIdxError>(e),
            },
    {
        if idx < self.call_site_items.len() {
            let mut out: String = String::new();
            self.call_site_items[idx].push_human_readable(&mut out);
            assert(out@ =~= self.call_site_items@[idx as int].spec_text());
            Ok(out)
        } else {
            Err(TableIdxError::CallSite(idx))
        }
    }

    /// Renders a method handle of the method handle pool.
    pub fn method_handle_to_human_readable(&self, idx: usize) -> (r: Result<String, TableIdxError>)
        ensures
            match self.method_handle_text(idx as int) {
                Ok(text) => r matches Ok(s) && s@ == text,
                Err(e) => r == Err::<String, TableIdxError>(e),
            },
    {
        if idx < self.method_handles.len() {
            let mut out: String = String::new();
            self.method_handles[idx].push_human_readable(&mut out);
            assert(out@ =~= self.method_handles@[idx as int].spec_text());
            Ok(out)
        } else {
            Err(TableIdxError::MethodHandle(idx))
        }
    }
}

} // verus!
