use vstd::prelude::*;

verus! {

/// Why the first bytes of a file are not a WebAssembly module header.
#[derive(Debug, Clone, Copy, PartialEq, Eq)]
pub enum HeaderError {
    /// Fewer than the eight bytes of magic number and version.
    TooShort,
    /// The first four bytes are not `\0asm`.
    BadMagic,
}

/// The four magic bytes that open every WebAssembly binary: `\0asm`.
pub open spec fn spec_has_wasm_magic(data: Seq<u8>) -> bool {
    &&& data.len() >= 4
    &&& data[0] == 0x00u8
    &&& data[1] == 0x61u8
    &&& data[2] == 0x73u8
    &&& data[3] == 0x6du8
}

/// The little-endian `u32` made of four bytes.
pub open spec fn spec_u32_le(b0: u8, b1: u8, b2: u8, b3: u8) -> int {
    b0 as int + 0x100 * (b1 as int) + 0x10000 * (b2 as int) + 0x1000000 * (b3 as int)
}

/// What reading the header of `data` gives: the version number, or why there is none.
pub open spec fn spec_parse_wasm_header(data: Seq<u8>) -> Result<int, HeaderError> {
    if data.len() < 8 {
        Err(HeaderError::TooShort)
    } else if !spec_has_wasm_magic(data) {
        Err(HeaderError::BadMagic)
    } else {
        Ok(spec_u32_le(data[4], data[5], data[6], data[7]))
    }
}

/// Checks the eight-byte module header of `data` and returns the version
/// number stored little-endian in bytes 4..8.
pub fn parse_wasm_header(data: &[u8]) -> (res: Result<u32, HeaderError>)
    ensures
        match (res, spec_parse_wasm_header(data@)) {
            (Ok(v), Ok(w)) => v as int == w,
            (Err(e), Err(f)) => e == f,
            _ => false,
        },
{
    if data.len() < 8 {
        return Err(HeaderError::TooShort);
    }
    if !(data[0] == 0x00 && data[1] == 0x61 && data[2] == 0x73 && data[3] == 0x6d) {
        return Err(HeaderError::BadMagic);
    }
    let version: u32 = (data[4] as u32) | ((data[5] as u32) << 8u32) | ((data[6] as u32) << 16u32)
        | ((data[7] as u32) << 24u32);
    proof {
        let (b0, b1, b2, b3) = (data[4], data[5], data[6], data[7]);
        assert(((b0 as u32) | ((b1 as u32) << 8u32) | ((b2 as u32) << 16u32) | ((b3 as u32) << 24u32))
            as int == b0 as int + 0x100 * (b1 as int) + 0x10000 * (b2 as int) + 0x1000000 * (b3 as int))
            by (bit_vector);
    }
    Ok(version)
}

/// A header needs eight bytes, the first four `\0asm`; its version is the
/// number whose four little-endian bytes are bytes 4 to 7.
pub proof fn law_header_version_bytes(data: Seq<u8>)
    ensures
        data.len() < 8 ==> spec_parse_wasm_header(data) == Err::<int, HeaderError>(HeaderError::TooShort),
        data.len() >= 8 && !(data[0] == 0x00 && data[1] == 0x61 && data[2] == 0x73 && data[3] == 0x6d)
            ==> spec_parse_wasm_header(data) == Err::<int, HeaderError>(HeaderError::BadMagic),
        data.len() >= 8 && data[0] == 0x00 && data[1] == 0x61 && data[2] == 0x73 && data[3] == 0x6d ==> (
        spec_parse_wasm_header(data) matches Ok(v) && 0 <= v < 0x1_0000_0000 && v % 256 == data[4] && (v
            / 256) % 256 == data[5] && (v / 65536) % 256 == data[6] && v / 16777216 == data[7]),
{
    if data.len() >= 8 {
        let (b0, b1, b2, b3) = (data[4] as int, data[5] as int, data[6] as int, data[7] as int);
        let v = b0 + 0x100 * b1 + 0x10000 * b2 + 0x1000000 * b3;
        assert(0 <= v < 0x1_0000_0000 && v % 256 == b0 && (v / 256) % 256 == b1 && (v / 65536) % 256
            == b2 && v / 16777216 == b3) by (nonlinear_arith)
            requires
                0 <= b0 < 256,
                0 <= b1 < 256,
                0 <= b2 < 256,
                0 <= b3 < 256,
                v == b0 + 0x100 * b1 + 0x10000 * b2 + 0x1000000 * b3,
        ;
    }
}

} // verus!
