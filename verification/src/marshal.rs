use vstd::prelude::*;
use vstd::string::StrSliceExecFns;
use vstd::string::StringSliceAdditionalSpecFns;

verus! {

/// A byte string can cross a nul-terminated foreign boundary exactly when it
/// holds no nul byte of its own.
pub open spec fn marshallable(bytes: Seq<u8>) -> bool {
    forall|i: int| 0 <= i < bytes.len() ==> bytes[i] != 0
}

/// The representation a nul-terminated boundary receives: the bytes themselves
/// followed by the terminator.
pub open spec fn marshalled(bytes: Seq<u8>) -> Seq<u8> {
    bytes.push(0)
}

/// Marshals a symbol name for a foreign boundary that speaks nul-terminated
/// byte strings. Fails exactly when the name itself holds a nul byte, since
/// such a name cannot be represented at that boundary.
pub fn marshal_symbol(symbol: &str) -> (r: Option<Vec<u8>>)
    ensures
        match r {
            Some(v) => marshallable(symbol.spec_bytes()) && v@ == marshalled(
                symbol.spec_bytes(),
            ),
            None => !marshallable(symbol.spec_bytes()),
        },
{
    let mut bytes = symbol.as_bytes_vec();
    let n = bytes.len();
    let mut i: usize = 0;
    while i < n
        invariant
            bytes@ == symbol.spec_bytes(),
            n == bytes@.len(),
            0 <= i <= n,
            forall|j: int| 0 <= j < i ==> bytes@[j] != 0,
        decreases n - i,
    {
        if bytes[i] == 0 {
            return None;
        }
        i += 1;
    }
    bytes.push(0);
    Some(bytes)
}

/// The sentinel pre-loaded into each out-parameter before a sentinel-convention
/// size callback runs: the largest representable dimension.
pub const DIMENSION_SENTINEL: u32 = 0xFFFF_FFFF;

/// Interprets the out-parameters left behind by a sentinel-convention size
/// callback. A coordinate still at the sentinel means the callback never wrote
/// it and broke its contract: no dimension may be reported in that case, since
/// there is no sane default to substitute.
pub fn check_reported_dimensions(width: u32, height: u32) -> (r: Option<(u32, u32)>)
    ensures
        width != DIMENSION_SENTINEL && height != DIMENSION_SENTINEL ==> r == Some(
            (width, height),
        ),
        width == DIMENSION_SENTINEL || height == DIMENSION_SENTINEL ==> r is None,
{
    if width == DIMENSION_SENTINEL || height == DIMENSION_SENTINEL {
        None
    } else {
        Some((width, height))
    }
}

} // verus!
