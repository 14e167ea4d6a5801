use dlhandle::cstr::to_nul_terminated;
use dlhandle::handle::FileHandle;
use dlhandle::loader::{
    dlclose, dlerror, dlopen, dlsym, RTLD_BINDING_MASK, RTLD_DEEPBIND, RTLD_GLOBAL, RTLD_LAZY,
    RTLD_LOCAL, RTLD_NODELETE, RTLD_NOLOAD, RTLD_NOW,
};

/// Stands in for the native open call: hands back a fixed address.
fn opened_at(address: usize) -> FileHandle {
    dlopen("", RTLD_LAZY).unwrap().finish(address)
}

#[test]
fn open_empty_path_lazy_reflects_native_result() {
    let req = dlopen("", RTLD_LAZY).unwrap();
    assert!(req.filename().is_none());
    assert_eq!(req.flags(), 0x0001);
    assert!(req.finish(0x1000).is_valid());

    let req = dlopen("", RTLD_LAZY).unwrap();
    assert!(!req.finish(0).is_valid());
}

#[test]
fn open_with_embedded_nul_is_refused() {
    let err = dlopen("lib\0bad", RTLD_NOW).err().unwrap();
    assert_eq!(err.nul_position(), 3);
}

#[test]
fn resolve_symbol_passes_address_through() {
    let handle = opened_at(0x7000);
    let req = dlsym(&handle, "my_symbol").unwrap();
    assert_eq!(req.handle(), 0x7000);
    assert_eq!(req.symbol(), b"my_symbol\0");
    // the handle is only borrowed and stays usable
    assert!(handle.is_valid());
    assert!(dlsym(&handle, "other").is_ok());
}

#[test]
fn close_consumes_the_handle() {
    let handle = opened_at(0xbeef);
    let req = dlclose(handle);
    assert_eq!(req.handle(), 0xbeef);
}

#[test]
fn open_path_is_nul_terminated() {
    let req = dlopen("libm.so.6", RTLD_NOW | RTLD_GLOBAL).unwrap();
    assert_eq!(req.filename(), Some(&b"libm.so.6\0"[..]));
    assert_eq!(req.flags(), 0x0102);
}

#[test]
fn open_passes_unknown_flag_bits_unchanged() {
    let req = dlopen("", 0x7fff_0000).unwrap();
    assert!(req.filename().is_none());
    assert_eq!(req.flags(), 0x7fff_0000);
}

#[test]
fn open_non_ascii_path_is_utf8_encoded() {
    let req = dlopen("é/lib.so", RTLD_LAZY).unwrap();
    assert_eq!(req.filename(), Some(&[0xc3, 0xa9, b'/', b'l', b'i', b'b', b'.', b's', b'o', 0][..]));
}

#[test]
fn symbol_with_embedded_nul_is_refused() {
    let handle = opened_at(0x7000);
    let err = dlsym(&handle, "\0").err().unwrap();
    assert_eq!(err.nul_position(), 0);
    let err = dlsym(&handle, "ab\0c\0").err().unwrap();
    assert_eq!(err.nul_position(), 2);
}

#[test]
fn nul_position_counts_bytes() {
    let err = dlopen("éé\0", RTLD_LAZY).err().unwrap();
    assert_eq!(err.nul_position(), 4);
}

#[test]
fn lookup_on_invalid_handle_is_not_checked() {
    let handle = FileHandle::invalid();
    let req = dlsym(&handle, "main").unwrap();
    assert_eq!(req.handle(), 0);
    assert_eq!(req.symbol(), b"main\0");
}

#[test]
fn invalid_handle_is_not_valid() {
    assert!(!FileHandle::invalid().is_valid());
    assert!(!FileHandle::invalid().is_valid());
    assert_eq!(dlclose(FileHandle::invalid()).handle(), 0);
    assert_eq!(dlclose(FileHandle::invalid()).handle(), 0);
}

#[test]
fn empty_text_converts_to_lone_nul() {
    assert_eq!(to_nul_terminated("").ok().unwrap(), vec![0u8]);
    assert_eq!(to_nul_terminated("ab").ok().unwrap(), vec![b'a', b'b', 0]);
}

#[test]
fn last_error_none_when_nothing_pending() {
    assert_eq!(dlerror(None).ok().unwrap(), None);
}

#[test]
fn last_error_decodes_message() {
    let msg = b"libfoo.so: cannot open shared object file";
    let text = dlerror(Some(&msg[..])).ok().unwrap().unwrap();
    assert_eq!(text, "libfoo.so: cannot open shared object file");
}

#[test]
fn last_error_decodes_multibyte_message() {
    let text = dlerror(Some(&[0x66, 0xc3, 0xa9, 0x65][..])).ok().unwrap().unwrap();
    assert_eq!(text, "fée");
}

#[test]
fn last_error_empty_message() {
    let text = dlerror(Some(&[][..])).ok().unwrap().unwrap();
    assert_eq!(text, "");
}

#[test]
fn last_error_invalid_utf8_keeps_bytes() {
    let bytes = [b'b', b'a', b'd', 0xff, 0xfe];
    let err = dlerror(Some(&bytes[..])).err().unwrap();
    assert_eq!(err.as_bytes(), &bytes[..]);
    // a truncated multi-byte sequence is refused too
    assert!(dlerror(Some(&[0xc3][..])).is_err());
    // so is an encoded surrogate
    assert!(dlerror(Some(&[0xed, 0xa0, 0x80][..])).is_err());
}

#[test]
fn flag_values() {
    assert_eq!(RTLD_LAZY, 0x0001);
    assert_eq!(RTLD_NOW, 0x0002);
    assert_eq!(RTLD_BINDING_MASK, 0x0003);
    assert_eq!(RTLD_NOLOAD, 0x0004);
    assert_eq!(RTLD_DEEPBIND, 0x0008);
    assert_eq!(RTLD_GLOBAL, 0x0100);
    assert_eq!(RTLD_LOCAL, 0);
    assert_eq!(RTLD_NODELETE, 0x1000);
    assert_eq!(RTLD_LAZY & RTLD_BINDING_MASK, RTLD_LAZY);
}
