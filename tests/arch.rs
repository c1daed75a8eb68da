use disasm::arch::{mos65xx, sysz};

#[test]
fn mos65xx_size_and_alignment() {
    assert_eq!(core::mem::size_of::<mos65xx::Details>(), 4);
    assert_eq!(core::mem::align_of::<mos65xx::Details>(), 4);
}

#[test]
fn sysz_size_and_alignment() {
    assert_eq!(core::mem::size_of::<sysz::Details>(), 4);
    assert_eq!(core::mem::align_of::<sysz::Details>(), 4);
}
