//! The registry of raster element types the engine understands.
use vstd::prelude::*;

verus! {

/// An element type of a raster, as the engine distinguishes them.
#[derive(Clone, Copy, Debug, PartialEq, Eq, Structural)]
pub enum PixelKind {
    U8,
    I8,
    U16,
    I16,
    U32,
    I32,
    U64,
    I64,
    F32,
    F64,
}

/// The largest code in use.
pub const MAX_CODE: u8 = 10;

impl PixelKind {
    /// The stable code that selects the engine's entry points for this type.
    pub open spec fn spec_code(self) -> u8 {
        match self {
            PixelKind::U8 => 1,
            PixelKind::I8 => 2,
            PixelKind::U16 => 3,
            PixelKind::I16 => 4,
            PixelKind::U32 => 5,
            PixelKind::I32 => 6,
            PixelKind::U64 => 7,
            PixelKind::I64 => 8,
            PixelKind::F32 => 9,
            PixelKind::F64 => 10,
        }
    }

    pub fn code(&self) -> (c: u8)
        ensures
            c == self.spec_code(),
    {
        match self {
            PixelKind::U8 => 1,
            PixelKind::I8 => 2,
            PixelKind::U16 => 3,
            PixelKind::I16 => 4,
            PixelKind::U32 => 5,
            PixelKind::I32 => 6,
            PixelKind::U64 => 7,
            PixelKind::I64 => 8,
            PixelKind::F32 => 9,
            PixelKind::F64 => 10,
        }
    }

    /// The element type that a code selects, if any.
    pub fn from_code(c: u8) -> (r: Option<PixelKind>)
        ensures
            r.is_some() <==> 1 <= c <= MAX_CODE,
            r matches Some(k) ==> k.spec_code() == c,
    {
        match c {
            1 => Some(PixelKind::U8),
            2 => Some(PixelKind::I8),
            3 => Some(PixelKind::U16),
            4 => Some(PixelKind::I16),
            5 => Some(PixelKind::U32),
            6 => Some(PixelKind::I32),
            7 => Some(PixelKind::U64),
            8 => Some(PixelKind::I64),
            9 => Some(PixelKind::F32),
            10 => Some(PixelKind::F64),
            _ => None,
        }
    }
}

/// Every code is a small positive number, and no two element types share one,
/// so a code read back names exactly the type it was taken from.
pub proof fn lemma_codes_distinct(a: PixelKind, b: PixelKind)
    ensures
        1 <= a.spec_code() <= MAX_CODE,
        a.spec_code() == b.spec_code() ==> a == b,
{
}

/// A numeric type whose rasters the engine can register and resample.
pub trait PixelType: Copy {
    /// The element type this Rust type stands for.
    spec fn spec_kind() -> PixelKind;

    fn kind() -> (k: PixelKind)
        ensures
            k == Self::spec_kind(),
    ;
}

impl PixelType for u8 {
    open spec fn spec_kind() -> PixelKind {
        PixelKind::U8
    }

    fn kind() -> (k: PixelKind) {
        PixelKind::U8
    }
}

impl PixelType for i8 {
    open spec fn spec_kind() -> PixelKind {
        PixelKind::I8
    }

    fn kind() -> (k: PixelKind) {
        PixelKind::I8
    }
}

impl PixelType for u16 {
    open spec fn spec_kind() -> PixelKind {
        PixelKind::U16
    }

    fn kind() -> (k: PixelKind) {
        PixelKind::U16
    }
}

impl PixelType for i16 {
    open spec fn spec_kind() -> PixelKind {
        PixelKind::I16
    }

    fn kind() -> (k: PixelKind) {
        PixelKind::I16
    }
}

impl PixelType for u32 {
    open spec fn spec_kind() -> PixelKind {
        PixelKind::U32
    }

    fn kind() -> (k: PixelKind) {
        PixelKind::U32
    }
}

impl PixelType for i32 {
    open spec fn spec_kind() -> PixelKind {
        PixelKind::I32
    }

    fn kind() -> (k: PixelKind) {
        PixelKind::I32
    }
}

impl PixelType for u64 {
    open spec fn spec_kind() -> PixelKind {
        PixelKind::U64
    }

    fn kind() -> (k: PixelKind) {
        PixelKind::U64
    }
}

impl PixelType for i64 {
    open spec fn spec_kind() -> PixelKind {
        PixelKind::I64
    }

    fn kind() -> (k: PixelKind) {
        PixelKind::I64
    }
}

/// A platform-width unsigned integer is served as the fixed-width type of
/// the same size.
impl PixelType for usize {
    open spec fn spec_kind() -> PixelKind {
        if usize::BITS == 64 {
            PixelKind::U64
        } else {
            PixelKind::U32
        }
    }

    fn kind() -> (k: PixelKind) {
        if usize::BITS == 64 {
            PixelKind::U64
        } else {
            PixelKind::U32
        }
    }
}

/// A platform-width signed integer is served as the fixed-width type of the
/// same size.
impl PixelType for isize {
    open spec fn spec_kind() -> PixelKind {
        if usize::BITS == 64 {
            PixelKind::I64
        } else {
            PixelKind::I32
        }
    }

    fn kind() -> (k: PixelKind) {
        if usize::BITS == 64 {
            PixelKind::I64
        } else {
            PixelKind::I32
        }
    }
}

} // verus!
