//! The four loader operations: open, close, symbol lookup and the last error.
//!
//! Each operation that reaches the native layer is split in two. This module
//! checks the caller's input and states the one native call to make (a
//! request); the caller makes it and hands the native result back.
use vstd::prelude::*;
use vstd::slice::slice_to_vec;
use vstd::utf8::*;
use crate::cstr::{is_first_nul, nul_terminated, to_nul_terminated, NulError};
use crate::handle::FileHandle;

verus! {

/// Resolve symbols on first use.
pub const RTLD_LAZY: i32 = 0x00001;

/// Resolve all symbols when the module is opened.
pub const RTLD_NOW: i32 = 0x00002;

/// Isolates the lazy/now binding bits.
pub const RTLD_BINDING_MASK: i32 = 0x00003;

/// Only check whether the module is already loaded; do not load it.
pub const RTLD_NOLOAD: i32 = 0x00004;

/// Prefer the module's own symbols for its internal references.
pub const RTLD_DEEPBIND: i32 = 0x00008;

/// Make the module's symbols available to modules loaded later.
pub const RTLD_GLOBAL: i32 = 0x00100;

/// Keep the module's symbols private (the default).
pub const RTLD_LOCAL: i32 = 0;

/// Never fully unload the module, even after it is closed.
pub const RTLD_NODELETE: i32 = 0x01000;

/// The filename argument of the native open call for `path`: null for the
/// empty path, otherwise the path as a nul-terminated byte string.
pub open spec fn open_filename(path: Seq<char>) -> Option<Seq<u8>> {
    if path.len() == 0 {
        None
    } else {
        Some(nul_terminated(path))
    }
}

/// One native open call still to be made.
#[derive(Debug)]
pub struct OpenRequest {
    filename: Option<Vec<u8>>,
    flags: i32,
}

impl OpenRequest {
    /// The filename argument: `None` stands for the null pointer.
    pub closed spec fn spec_filename(&self) -> Option<Seq<u8>> {
        match &self.filename {
            Some(bytes) => Some(bytes@),
            None => None,
        }
    }

    pub closed spec fn spec_flags(&self) -> i32 {
        self.flags
    }

    /// The filename to pass, nul byte included; `None` means a null pointer.
    pub fn filename(&self) -> (r: Option<&[u8]>)
        ensures
            match (r, self.spec_filename()) {
                (Some(bytes), Some(expected)) => bytes@ == expected,
                (None, None) => true,
                _ => false,
            },
    {
        match &self.filename {
            Some(bytes) => Some(bytes.as_slice()),
            None => None,
        }
    }

    pub fn flags(&self) -> (r: i32)
        ensures
            r == self.spec_flags(),
    {
        self.flags
    }

    /// Takes the value that the native open call returned, null included,
    /// and makes it the handle's.
    pub fn finish(self, native: usize) -> (h: FileHandle)
        ensures
            h.native() == native,
    {
        FileHandle::from_native(native)
    }
}

/// One native symbol lookup still to be made.
#[derive(Debug)]
pub struct SymbolRequest {
    handle: usize,
    symbol: Vec<u8>,
}

impl SymbolRequest {
    pub closed spec fn spec_handle(&self) -> usize {
        self.handle
    }

    pub closed spec fn spec_symbol(&self) -> Seq<u8> {
        self.symbol@
    }

    /// The native handle to search, as given by the borrowed `FileHandle`.
    pub fn handle(&self) -> (r: usize)
        ensures
            r == self.spec_handle(),
    {
        self.handle
    }

    /// The symbol's name, nul byte included.
    pub fn symbol(&self) -> (r: &[u8])
        ensures
            r@ == self.spec_symbol(),
    {
        self.symbol.as_slice()
    }
}

/// One native close call still to be made. It owns the native value that the
/// closed handle wrapped.
#[derive(Debug)]
pub struct CloseRequest {
    handle: usize,
}

impl CloseRequest {
    pub closed spec fn spec_handle(&self) -> usize {
        self.handle
    }

    /// The native value to pass to the close call.
    pub fn handle(&self) -> (r: usize)
        ensures
            r == self.spec_handle(),
    {
        self.handle
    }
}

/// The native error message is not valid UTF-8. Its bytes are kept, so that
/// the caller still learns that an error was pending.
#[derive(Debug)]
pub struct Utf8Error {
    bytes: Vec<u8>,
}

impl Utf8Error {
    pub closed spec fn spec_bytes(&self) -> Seq<u8> {
        self.bytes@
    }

    /// The message's bytes as the native layer gave them.
    pub fn as_bytes(&self) -> (r: &[u8])
        ensures
            r@ == self.spec_bytes(),
    {
        self.bytes.as_slice()
    }
}

#[verifier::external_type_specification]
#[verifier::external_body]
pub struct ExStrUtf8Error(std::str::Utf8Error);

/// Relies on std::str::from_utf8: it succeeds exactly on valid UTF-8, and the
/// text it returns is made of the same bytes.
pub assume_specification[ std::str::from_utf8 ](v: &[u8]) -> (r: Result<
    &str,
    std::str::Utf8Error,
>)
    ensures
        r is Ok <==> valid_utf8(v@),
        r matches Ok(text) ==> encode_utf8(text@) == v@,
;

/// Prepares the native open call for `filename` with `flags`.
///
/// The empty path asks for a null filename, which the native layer takes to
/// mean the running program; any other path goes as a nul-terminated byte
/// string. The flags are passed on unchecked. A path that holds a nul
/// character is refused, and then no native call is to be made.
pub fn dlopen(filename: &str, flags: i32) -> (r: Result<OpenRequest, NulError>)
    ensures
        r is Ok <==> !filename@.contains('\0'),
        r matches Ok(req) ==> req.spec_filename() == open_filename(filename@)
            && req.spec_flags() == flags,
        r matches Err(e) ==> is_first_nul(encode_utf8(filename@), e.spec_nul_position() as int),
{
    if filename.is_empty() {
        proof {
            assert(!filename@.contains('\0'));
        }
        return Ok(OpenRequest { filename: None, flags });
    }
    match to_nul_terminated(filename) {
        Ok(bytes) => Ok(OpenRequest { filename: Some(bytes), flags }),
        Err(e) => Err(e),
    }
}

/// Releases `handle`: the handle is consumed, and the returned request holds
/// the native value to pass, once, to the native close call. That call's
/// status code is the caller's to read; 0 conventionally means success.
pub fn dlclose(handle: FileHandle) -> (r: CloseRequest)
    ensures
        r.spec_handle() == handle.native(),
{
    CloseRequest { handle: handle.native_value() }
}

/// Prepares the native lookup of `symbol` in `handle`.
///
/// The handle is not checked: an invalid one goes to the native layer as it
/// is. A name that holds a nul character is refused, and then no native call
/// is to be made. The address that the lookup returns, null included, is the
/// result: null may mean "not found" or a symbol bound to address zero.
pub fn dlsym(handle: &FileHandle, symbol: &str) -> (r: Result<SymbolRequest, NulError>)
    ensures
        r is Ok <==> !symbol@.contains('\0'),
        r matches Ok(req) ==> req.spec_handle() == handle.native()
            && req.spec_symbol() == nul_terminated(symbol@),
        r matches Err(e) ==> is_first_nul(encode_utf8(symbol@), e.spec_nul_position() as int),
{
    match to_nul_terminated(symbol) {
        Ok(bytes) => Ok(SymbolRequest { handle: handle.native_value(), symbol: bytes }),
        Err(e) => Err(e),
    }
}

/// Reads the native layer's last error, given the message that the native
/// last-error call returned: `None` for a null result, else the message's
/// bytes without the terminating nul.
///
/// No pending error gives `Ok(None)`; a message gives `Ok(Some(text))` with
/// the text it encodes, or, when it is not valid UTF-8, an error that keeps
/// its bytes.
pub fn dlerror(message: Option<&[u8]>) -> (r: Result<Option<String>, Utf8Error>)
    ensures
        match message {
            None => r matches Ok(None),
            Some(bytes) => match r {
                Ok(Some(text)) => valid_utf8(bytes@) && text@ == decode_utf8(bytes@),
                Ok(None) => false,
                Err(e) => !valid_utf8(bytes@) && e.spec_bytes() == bytes@,
            },
        },
{
    match message {
        None => Ok(None),
        Some(bytes) => match std::str::from_utf8(bytes) {
            Ok(text) => {
                proof {
                    decode_utf8_encode_utf8(bytes@);
                    encode_utf8_decode_utf8(text@);
                }
                Ok(Some(text.to_owned()))
            },
            Err(_) => Err(Utf8Error { bytes: slice_to_vec(bytes) }),
        },
    }
}

} // verus!
