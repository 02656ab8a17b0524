use vstd::prelude::*;

use crate::text::push_text;

verus! {

/// What carries a set of access flags. Two bits mean one thing on a field
/// and another on a method.
#[derive(Debug, PartialEq, Eq, Clone, Copy)]
pub enum FlagContext {
    Class,
    Field,
    Method,
}

/// A set of access flags, one bit each.
#[derive(Debug, PartialEq, Eq, Clone, Copy)]
pub struct AccessFlags {
    bits: u32,
}

/// The number of rows in the table of flags.
pub const FLAG_COUNT: usize = 17;

/// All bits that are flags.
pub const ALL_FLAGS: u32 = 0x3_7FFF;

/// Row `i` of the table of flags: the flag's bit and its name for `context`.
/// The rows are in the order in which the names are listed.
pub open spec fn flag_row(i: int, context: FlagContext) -> (u32, Seq<char>) {
    if i == 0 {
        (0x1u32, "public"@)
    } else if i == 1 {
        (0x2u32, "private"@)
    } else if i == 2 {
        (0x4u32, "protected"@)
    } else if i == 3 {
        (0x8u32, "static"@)
    } else if i == 4 {
        (0x10u32, "final"@)
    } else if i == 5 {
        (0x20u32, "synchronized"@)
    } else if i == 6 {
        (
            0x40u32,
            if context == FlagContext::Method {
                "bridge"@
            } else {
                "volatile"@
            },
        )
    } else if i == 7 {
        (
            0x80u32,
            if context == FlagContext::Method {
                "varargs"@
            } else {
                "transient"@
            },
        )
    } else if i == 8 {
        (0x100u32, "native"@)
    } else if i == 9 {
        (0x200u32, "interface"@)
    } else if i == 10 {
        (0x400u32, "abstract"@)
    } else if i == 11 {
        (0x800u32, "strict"@)
    } else if i == 12 {
        (0x1000u32, "synthetic"@)
    } else if i == 13 {
        (0x2000u32, "annotation"@)
    } else if i == 14 {
        (0x4000u32, "enum"@)
    } else if i == 15 {
        (0x1_0000u32, "constructor"@)
    } else {
        (0x2_0000u32, "declared_synchronized"@)
    }
}

/// The names of the flags of `bits` among the first `n` rows of the table,
/// in the table's order, separated by single spaces.
pub open spec fn flag_names(bits: u32, context: FlagContext, n: int) -> Seq<char>
    decreases n,
{
    if n <= 0 {
        Seq::empty()
    } else {
        let front = flag_names(bits, context, n - 1);
        let row = flag_row(n - 1, context);
        if bits & row.0 != row.0 {
            front
        } else if front.len() == 0 {
            row.1
        } else {
            front + seq![' '] + row.1
        }
    }
}

fn flag_entry(i: usize, context: FlagContext) -> (r: (u32, &'static str))
    requires
        i < FLAG_COUNT,
    ensures
        r.0 == flag_row(i as int, context).0,
        r.1@ == flag_row(i as int, context).1,
        r.1@.len() > 0,
{
    proof {
        reveal_strlit("public");
        reveal_strlit("private");
        reveal_strlit("protected");
        reveal_strlit("static");
        reveal_strlit("final");
        reveal_strlit("synchronized");
        reveal_strlit("bridge");
        reveal_strlit("volatile");
        reveal_strlit("varargs");
        reveal_strlit("transient");
        reveal_strlit("native");
        reveal_strlit("interface");
        reveal_strlit("abstract");
        reveal_strlit("strict");
        reveal_strlit("synthetic");
        reveal_strlit("annotation");
        reveal_strlit("enum");
        reveal_strlit("constructor");
        reveal_strlit("declared_synchronized");
    }
    let for_method: bool = match context {
        FlagContext::Method => true,
        _ => false,
    };
    match i {
        0 => (0x1, "public"),
        1 => (0x2, "private"),
        2 => (0x4, "protected"),
        3 => (0x8, "static"),
        4 => (0x10, "final"),
        5 => (0x20, "synchronized"),
        6 => (
            0x40,
            if for_method {
                "bridge"
            } else {
                "volatile"
            },
        ),
        7 => (
            0x80,
            if for_method {
                "varargs"
            } else {
                "transient"
            },
        ),
        8 => (0x100, "native"),
        9 => (0x200, "interface"),
        10 => (0x400, "abstract"),
        11 => (0x800, "strict"),
        12 => (0x1000, "synthetic"),
        13 => (0x2000, "annotation"),
        14 => (0x4000, "enum"),
        15 => (0x1_0000, "constructor"),
        _ => (0x2_0000, "declared_synchronized"),
    }
}

impl AccessFlags {
    pub const PUBLIC: u32 = 0x1;

    pub const PRIVATE: u32 = 0x2;

    pub const PROTECTED: u32 = 0x4;

    pub const STATIC: u32 = 0x8;

    pub const FINAL: u32 = 0x10;

    pub const SYNCHRONIZED: u32 = 0x20;

    pub const VOLATILE: u32 = 0x40;

    pub const BRIDGE: u32 = 0x40;

    pub const TRANSIENT: u32 = 0x80;

    pub const VARARGS: u32 = 0x80;

    pub const NATIVE: u32 = 0x100;

    pub const INTERFACE: u32 = 0x200;

    pub const ABSTRACT: u32 = 0x400;

    pub const STRICT: u32 = 0x800;

    pub const SYNTHETIC: u32 = 0x1000;

    pub const ANNOTATION: u32 = 0x2000;

    pub const ENUM: u32 = 0x4000;

    pub const CONSTRUCTOR: u32 = 0x1_0000;

    pub const DECLARED_SYNCHRONIZED: u32 = 0x2_0000;

    /// The bits of the set.
    pub closed spec fn spec_bits(&self) -> u32 {
        self.bits
    }

    /// The set with exactly the bits of `bits`, or `None` where `bits` has a
    /// bit that is no flag.
    pub fn from_bits(bits: u32) -> (r: Option<AccessFlags>)
        ensures
            bits & !ALL_FLAGS == 0 ==> (r matches Some(flags) && flags.spec_bits() == bits),
            bits & !ALL_FLAGS != 0 ==> r is None,
    {
        if bits & !ALL_FLAGS == 0 {
            Some(AccessFlags { bits })
        } else {
            None
        }
    }

    /// The set with the bits of `bits` that are flags.
    pub fn from_bits_truncate(bits: u32) -> (r: AccessFlags)
        ensures
            r.spec_bits() == bits & ALL_FLAGS,
    {
        AccessFlags { bits: bits & ALL_FLAGS }
    }

    /// The bits of the set.
    pub fn bits(&self) -> (r: u32)
        ensures
            r == self.spec_bits(),
    {
        self.bits
    }

    /// Whether every bit of `flag` is in the set.
    pub fn contains(&self, flag: u32) -> (r: bool)
        ensures
            r == (self.spec_bits() & flag == flag),
    {
        self.bits & flag == flag
    }

    /// The names of the flags in the set, in the table's order, separated by
    /// single spaces. The two bits whose meaning depends on the carrier are
    /// named as on a field: `volatile` and `transient`.
    pub fn to_human_readable(&self) -> (r: String)
        ensures
            r@ == flag_names(self.spec_bits(), FlagContext::Field, FLAG_COUNT as int),
    {
        self.to_human_readable_in(FlagContext::Field)
    }

    /// The names of the flags in the set as they read on `context`, in the
    /// table's order, separated by single spaces.
    pub fn to_human_readable_in(&self, context: FlagContext) -> (r: String)
        ensures
            r@ == flag_names(self.spec_bits(), context, FLAG_COUNT as int),
    {
        let mut out: String = String::new();
        let mut first: bool = true;
        let mut i: usize = 0;
        while i < FLAG_COUNT
            invariant
                i <= FLAG_COUNT,
                out@ == flag_names(self.spec_bits(), context, i as int),
                first <==> out@.len() == 0,
            decreases FLAG_COUNT - i,
        {
            let (mask, name) = flag_entry(i, context);
            if self.bits & mask == mask {
                if !first {
                    push_text(&mut out, " ");
                    proof {
                        reveal_strlit(" ");
                        assert(" "@ =~= seq![' ']);
                    }
                }
                push_text(&mut out, name);
                first = false;
                assert(out@ =~= flag_names(self.spec_bits(), context, i as int + 1));
            }
            i += 1;
        }
        out
    }
}

} // verus!
