//! Validation of the descriptive metadata of the token: name, symbol and
//! URI bounds, and the URI scheme check. Registering the metadata itself is
//! an external collaborator's job; only the rules live here.

use vstd::prelude::*;
use vstd::string::StringSliceAdditionalSpecFns;

use crate::error::ErrorCode;

verus! {

/// ASCII lower-casing of one byte; other bytes pass through.
pub open spec fn ascii_lower(b: u8) -> u8 {
    if 'A' as u8 <= b <= 'Z' as u8 {
        (b + 32) as u8
    } else {
        b
    }
}

/// Whether the bytes start with `https://`, letters compared
/// case-insensitively.
pub open spec fn has_https_prefix(b: Seq<u8>) -> bool {
    &&& b.len() >= 8
    &&& ascii_lower(b[0]) == 'h' as u8
    &&& ascii_lower(b[1]) == 't' as u8
    &&& ascii_lower(b[2]) == 't' as u8
    &&& ascii_lower(b[3]) == 'p' as u8
    &&& ascii_lower(b[4]) == 's' as u8
    &&& b[5] == ':' as u8
    &&& b[6] == '/' as u8
    &&& b[7] == '/' as u8
}

/// Whether the bytes start with `ipfs://`, letters compared
/// case-insensitively.
pub open spec fn has_ipfs_prefix(b: Seq<u8>) -> bool {
    &&& b.len() >= 7
    &&& ascii_lower(b[0]) == 'i' as u8
    &&& ascii_lower(b[1]) == 'p' as u8
    &&& ascii_lower(b[2]) == 'f' as u8
    &&& ascii_lower(b[3]) == 's' as u8
    &&& b[4] == ':' as u8
    &&& b[5] == '/' as u8
    &&& b[6] == '/' as u8
}

/// Why a metadata triple is rejected, if it is, in the order the checks
/// run. Lengths are byte lengths.
pub open spec fn metadata_error(name: Seq<u8>, symbol: Seq<u8>, uri: Seq<u8>) -> Option<
    ErrorCode,
> {
    if name.len() == 0 {
        Some(ErrorCode::NameEmpty)
    } else if name.len() > 32 {
        Some(ErrorCode::NameTooLong)
    } else if symbol.len() == 0 {
        Some(ErrorCode::SymbolEmpty)
    } else if symbol.len() > 10 {
        Some(ErrorCode::SymbolTooLong)
    } else if uri.len() == 0 {
        Some(ErrorCode::UriEmpty)
    } else if uri.len() > 200 {
        Some(ErrorCode::UriTooLong)
    } else if !(has_https_prefix(uri) || has_ipfs_prefix(uri)) {
        Some(ErrorCode::InvalidUriFormat)
    } else {
        None
    }
}

/// ASCII lower-casing of one byte.
fn ascii_lower_byte(b: u8) -> (r: u8)
    ensures
        r == ascii_lower(b),
{
    if b >= 'A' as u8 && b <= 'Z' as u8 {
        b + 32
    } else {
        b
    }
}

/// Whether the URI starts with `https://` or `ipfs://`, compared
/// case-insensitively as the registration rules ask.
fn has_valid_uri_prefix(uri: &[u8]) -> (r: bool)
    ensures
        r == (has_https_prefix(uri@) || has_ipfs_prefix(uri@)),
{
    if uri.len() >= 8 {
        let https = ascii_lower_byte(uri[0]) == 'h' as u8 && ascii_lower_byte(uri[1]) == 't' as u8
            && ascii_lower_byte(uri[2]) == 't' as u8 && ascii_lower_byte(uri[3]) == 'p' as u8
            && ascii_lower_byte(uri[4]) == 's' as u8 && uri[5] == ':' as u8 && uri[6] == '/' as u8
            && uri[7] == '/' as u8;
        if https {
            return true;
        }
    }
    if uri.len() >= 7 {
        let ipfs = ascii_lower_byte(uri[0]) == 'i' as u8 && ascii_lower_byte(uri[1]) == 'p' as u8
            && ascii_lower_byte(uri[2]) == 'f' as u8 && ascii_lower_byte(uri[3]) == 's' as u8
            && uri[4] == ':' as u8 && uri[5] == '/' as u8 && uri[6] == '/' as u8;
        if ipfs {
            return true;
        }
    }
    false
}

/// Validates a metadata triple: rejects an empty or overlong name, symbol
/// or URI, and a URI that names neither of the two accepted schemes.
pub fn validate_metadata(name: &str, symbol: &str, uri: &str) -> (r: Result<(), ErrorCode>)
    ensures
        match r {
            Ok(()) => metadata_error(name.spec_bytes(), symbol.spec_bytes(), uri.spec_bytes())
                is None,
            Err(e) => metadata_error(name.spec_bytes(), symbol.spec_bytes(), uri.spec_bytes())
                == Some(e),
        },
{
    let name_bytes = name.as_bytes();
    let symbol_bytes = symbol.as_bytes();
    let uri_bytes = uri.as_bytes();
    if name_bytes.len() == 0 {
        return Err(ErrorCode::NameEmpty);
    }
    if name_bytes.len() > 32 {
        return Err(ErrorCode::NameTooLong);
    }
    if symbol_bytes.len() == 0 {
        return Err(ErrorCode::SymbolEmpty);
    }
    if symbol_bytes.len() > 10 {
        return Err(ErrorCode::SymbolTooLong);
    }
    if uri_bytes.len() == 0 {
        return Err(ErrorCode::UriEmpty);
    }
    if uri_bytes.len() > 200 {
        return Err(ErrorCode::UriTooLong);
    }
    if !has_valid_uri_prefix(uri_bytes) {
        return Err(ErrorCode::InvalidUriFormat);
    }
    Ok(())
}

} // verus!
