use dex2smali::dex::access_flags::{AccessFlags, FlagContext};

fn names(bits: u32) -> String {
    AccessFlags::from_bits(bits).unwrap().to_human_readable()
}

#[test]
fn access_flags_names_in_table_order() {
    assert_eq!(names(0), "");
    assert_eq!(names(0x1), "public");
    assert_eq!(names(0x2), "private");
    assert_eq!(names(0x4), "protected");
    assert_eq!(names(0x8), "static");
    assert_eq!(names(0x10), "final");
    assert_eq!(names(0x20), "synchronized");
    assert_eq!(names(0x40), "volatile");
    assert_eq!(names(0x80), "transient");
    assert_eq!(names(0x100), "native");
    assert_eq!(names(0x200), "interface");
    assert_eq!(names(0x400), "abstract");
    assert_eq!(names(0x800), "strict");
    assert_eq!(names(0x1000), "synthetic");
    assert_eq!(names(0x2000), "annotation");
    assert_eq!(names(0x4000), "enum");
    assert_eq!(names(0x10000), "constructor");
    assert_eq!(names(0x20000), "declared_synchronized");
    assert_eq!(names(0x19), "public static final");
    assert_eq!(names(0x10001), "public constructor");
    assert_eq!(
        names(0x37FFF),
        "public private protected static final synchronized volatile transient native \
         interface abstract strict synthetic annotation enum constructor declared_synchronized"
    );
}

#[test]
fn access_flags_depend_on_the_carrier() {
    let flags = AccessFlags::from_bits(0xC1).unwrap();
    assert_eq!(
        flags.to_human_readable_in(FlagContext::Field),
        "public volatile transient"
    );
    assert_eq!(
        flags.to_human_readable_in(FlagContext::Method),
        "public bridge varargs"
    );
    assert_eq!(
        flags.to_human_readable_in(FlagContext::Class),
        "public volatile transient"
    );
    assert_eq!(flags.to_human_readable(), "public volatile transient");
}

#[test]
fn access_flags_from_bits() {
    assert_eq!(AccessFlags::from_bits(0x8000), None);
    assert_eq!(AccessFlags::from_bits(0x40000), None);
    assert_eq!(AccessFlags::from_bits(0xFFFF_FFFF), None);
    assert_eq!(AccessFlags::from_bits(0x37FFF).unwrap().bits(), 0x37FFF);
    assert_eq!(AccessFlags::from_bits(0).unwrap().bits(), 0);
    assert_eq!(AccessFlags::from_bits_truncate(0xFFFF_FFFF).bits(), 0x37FFF);
    assert_eq!(AccessFlags::from_bits_truncate(0x8011).bits(), 0x11);
}

#[test]
fn access_flags_contains() {
    let flags = AccessFlags::from_bits(AccessFlags::PUBLIC | AccessFlags::STATIC).unwrap();
    assert!(flags.contains(AccessFlags::PUBLIC));
    assert!(flags.contains(AccessFlags::STATIC));
    assert!(flags.contains(AccessFlags::PUBLIC | AccessFlags::STATIC));
    assert!(!flags.contains(AccessFlags::FINAL));
    assert!(!flags.contains(AccessFlags::PUBLIC | AccessFlags::FINAL));
    assert!(flags.contains(0));
    assert_eq!(AccessFlags::VOLATILE, AccessFlags::BRIDGE);
    assert_eq!(AccessFlags::TRANSIENT, AccessFlags::VARARGS);
    assert_eq!(AccessFlags::DECLARED_SYNCHRONIZED, 0x20000);
}
