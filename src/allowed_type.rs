use vstd::prelude::*;

verus! {

/// The scalar kinds a configuration value can be coerced into.
#[derive(Debug, Clone, Copy, PartialEq, Eq, Structural)]
pub enum AllowedTypeMarker {
    String,
    Char,
    U8,
    U16,
    U32,
    U64,
    U128,
    I8,
    I16,
    I32,
    I64,
    I128,
    Bool,
    F32,
    F64,
}

/// The kind a Rust scalar type name stands for, if it stands for one.
pub open spec fn marker_named(name: Seq<char>) -> Option<AllowedTypeMarker> {
    if name == "String"@ {
        Some(AllowedTypeMarker::String)
    } else if name == "char"@ {
        Some(AllowedTypeMarker::Char)
    } else if name == "u8"@ {
        Some(AllowedTypeMarker::U8)
    } else if name == "u16"@ {
        Some(AllowedTypeMarker::U16)
    } else if name == "u32"@ {
        Some(AllowedTypeMarker::U32)
    } else if name == "u64"@ {
        Some(AllowedTypeMarker::U64)
    } else if name == "u128"@ {
        Some(AllowedTypeMarker::U128)
    } else if name == "i8"@ {
        Some(AllowedTypeMarker::I8)
    } else if name == "i16"@ {
        Some(AllowedTypeMarker::I16)
    } else if name == "i32"@ {
        Some(AllowedTypeMarker::I32)
    } else if name == "i64"@ {
        Some(AllowedTypeMarker::I64)
    } else if name == "i128"@ {
        Some(AllowedTypeMarker::I128)
    } else if name == "bool"@ {
        Some(AllowedTypeMarker::Bool)
    } else if name == "f32"@ {
        Some(AllowedTypeMarker::F32)
    } else if name == "f64"@ {
        Some(AllowedTypeMarker::F64)
    } else {
        None
    }
}

impl AllowedTypeMarker {
    /// The kind a Rust scalar type name (`String`, `char`, `u8`, ...,
    /// `bool`) stands for; any other name stands for none.
    pub fn from_type_name(name: &str) -> (r: Option<AllowedTypeMarker>)
        ensures
            r == marker_named(name@),
    {
        let n = name.to_owned();
        if n == "String".to_owned() {
            Some(AllowedTypeMarker::String)
        } else if n == "char".to_owned() {
            Some(AllowedTypeMarker::Char)
        } else if n == "u8".to_owned() {
            Some(AllowedTypeMarker::U8)
        } else if n == "u16".to_owned() {
            Some(AllowedTypeMarker::U16)
        } else if n == "u32".to_owned() {
            Some(AllowedTypeMarker::U32)
        } else if n == "u64".to_owned() {
            Some(AllowedTypeMarker::U64)
        } else if n == "u128".to_owned() {
            Some(AllowedTypeMarker::U128)
        } else if n == "i8".to_owned() {
            Some(AllowedTypeMarker::I8)
        } else if n == "i16".to_owned() {
            Some(AllowedTypeMarker::I16)
        } else if n == "i32".to_owned() {
            Some(AllowedTypeMarker::I32)
        } else if n == "i64".to_owned() {
            Some(AllowedTypeMarker::I64)
        } else if n == "i128".to_owned() {
            Some(AllowedTypeMarker::I128)
        } else if n == "bool".to_owned() {
            Some(AllowedTypeMarker::Bool)
        } else if n == "f32".to_owned() {
            Some(AllowedTypeMarker::F32)
        } else if n == "f64".to_owned() {
            Some(AllowedTypeMarker::F64)
        } else {
            None
        }
    }
}

/// The tag that a resolved field carries: one of the allowed scalar kinds.
pub type FieldMarker = AllowedTypeMarker;

/// A scalar value coerced out of a document.
///
/// Floating-point values are carried as their IEEE-754 bit patterns: `F32`
/// holds the bits of an `f32`, `F64` those of an `f64`.
#[derive(Debug, Clone, PartialEq, Eq)]
pub enum AllowedType {
    String(String),
    Char(char),
    U8(u8),
    U16(u16),
    U32(u32),
    U64(u64),
    U128(u128),
    I8(i8),
    I16(i16),
    I32(i32),
    I64(i64),
    I128(i128),
    Bool(bool),
    F32(u32),
    F64(u64),
}

/// The mathematical model of an [`AllowedType`]: strings become character
/// sequences, everything else stays as it is.
pub enum ScalarView {
    String(Seq<char>),
    Char(char),
    U8(u8),
    U16(u16),
    U32(u32),
    U64(u64),
    U128(u128),
    I8(i8),
    I16(i16),
    I32(i32),
    I64(i64),
    I128(i128),
    Bool(bool),
    F32(u32),
    F64(u64),
}

impl ScalarView {
    /// The kind of this scalar.
    pub open spec fn marker(self) -> AllowedTypeMarker {
        match self {
            ScalarView::String(_) => AllowedTypeMarker::String,
            ScalarView::Char(_) => AllowedTypeMarker::Char,
            ScalarView::U8(_) => AllowedTypeMarker::U8,
            ScalarView::U16(_) => AllowedTypeMarker::U16,
            ScalarView::U32(_) => AllowedTypeMarker::U32,
            ScalarView::U64(_) => AllowedTypeMarker::U64,
            ScalarView::U128(_) => AllowedTypeMarker::U128,
            ScalarView::I8(_) => AllowedTypeMarker::I8,
            ScalarView::I16(_) => AllowedTypeMarker::I16,
            ScalarView::I32(_) => AllowedTypeMarker::I32,
            ScalarView::I64(_) => AllowedTypeMarker::I64,
            ScalarView::I128(_) => AllowedTypeMarker::I128,
            ScalarView::Bool(_) => AllowedTypeMarker::Bool,
            ScalarView::F32(_) => AllowedTypeMarker::F32,
            ScalarView::F64(_) => AllowedTypeMarker::F64,
        }
    }
}

impl View for AllowedType {
    type V = ScalarView;

    open spec fn view(&self) -> ScalarView {
        match self {
            AllowedType::String(s) => ScalarView::String(s@),
            AllowedType::Char(c) => ScalarView::Char(*c),
            AllowedType::U8(x) => ScalarView::U8(*x),
            AllowedType::U16(x) => ScalarView::U16(*x),
            AllowedType::U32(x) => ScalarView::U32(*x),
            AllowedType::U64(x) => ScalarView::U64(*x),
            AllowedType::U128(x) => ScalarView::U128(*x),
            AllowedType::I8(x) => ScalarView::I8(*x),
            AllowedType::I16(x) => ScalarView::I16(*x),
            AllowedType::I32(x) => ScalarView::I32(*x),
            AllowedType::I64(x) => ScalarView::I64(*x),
            AllowedType::I128(x) => ScalarView::I128(*x),
            AllowedType::Bool(b) => ScalarView::Bool(*b),
            AllowedType::F32(x) => ScalarView::F32(*x),
            AllowedType::F64(x) => ScalarView::F64(*x),
        }
    }
}

impl AllowedType {
    /// The kind of this value.
    pub fn marker(&self) -> (r: AllowedTypeMarker)
        ensures
            r == self@.marker(),
    {
        match self {
            AllowedType::String(_) => AllowedTypeMarker::String,
            AllowedType::Char(_) => AllowedTypeMarker::Char,
            AllowedType::U8(_) => AllowedTypeMarker::U8,
            AllowedType::U16(_) => AllowedTypeMarker::U16,
            AllowedType::U32(_) => AllowedTypeMarker::U32,
            AllowedType::U64(_) => AllowedTypeMarker::U64,
            AllowedType::U128(_) => AllowedTypeMarker::U128,
            AllowedType::I8(_) => AllowedTypeMarker::I8,
            AllowedType::I16(_) => AllowedTypeMarker::I16,
            AllowedType::I32(_) => AllowedTypeMarker::I32,
            AllowedType::I64(_) => AllowedTypeMarker::I64,
            AllowedType::I128(_) => AllowedTypeMarker::I128,
            AllowedType::Bool(_) => AllowedTypeMarker::Bool,
            AllowedType::F32(_) => AllowedTypeMarker::F32,
            AllowedType::F64(_) => AllowedTypeMarker::F64,
        }
    }

    /// The string this value holds, if it is a string.
    pub fn get_string(&self) -> (r: Option<String>)
        ensures
            match r {
                Some(s) => self@ == ScalarView::String(s@),
                None => !(self@ is String),
            },
    {
        match self {
            AllowedType::String(s) => Some(s.clone()),
            _ => None,
        }
    }

    /// The character this value holds, if it is a character.
    pub fn get_char(&self) -> (r: Option<char>)
        ensures
            r == (match self@ {
                ScalarView::Char(x) => Some(x),
                _ => None,
            }),
    {
        match self {
            AllowedType::Char(x) => Some(*x),
            _ => None,
        }
    }

    /// The `u8` this value holds, if it is a `u8`.
    pub fn get_u8(&self) -> (r: Option<u8>)
        ensures
            r == (match self@ {
                ScalarView::U8(x) => Some(x),
                _ => None,
            }),
    {
        match self {
            AllowedType::U8(x) => Some(*x),
            _ => None,
        }
    }

    /// The `u16` this value holds, if it is a `u16`.
    pub fn get_u16(&self) -> (r: Option<u16>)
        ensures
            r == (match self@ {
                ScalarView::U16(x) => Some(x),
                _ => None,
            }),
    {
        match self {
            AllowedType::U16(x) => Some(*x),
            _ => None,
        }
    }

    /// The `u32` this value holds, if it is a `u32`.
    pub fn get_u32(&self) -> (r: Option<u32>)
        ensures
            r == (match self@ {
                ScalarView::U32(x) => Some(x),
                _ => None,
            }),
    {
        match self {
            AllowedType::U32(x) => Some(*x),
            _ => None,
        }
    }

    /// The `u64` this value holds, if it is a `u64`.
    pub fn get_u64(&self) -> (r: Option<u64>)
        ensures
            r == (match self@ {
                ScalarView::U64(x) => Some(x),
                _ => None,
            }),
    {
        match self {
            AllowedType::U64(x) => Some(*x),
            _ => None,
        }
    }

    /// The `u128` this value holds, if it is a `u128`.
    pub fn get_u128(&self) -> (r: Option<u128>)
        ensures
            r == (match self@ {
                ScalarView::U128(x) => Some(x),
                _ => None,
            }),
    {
        match self {
            AllowedType::U128(x) => Some(*x),
            _ => None,
        }
    }

    /// The `i8` this value holds, if it is an `i8`.
    pub fn get_i8(&self) -> (r: Option<i8>)
        ensures
            r == (match self@ {
                ScalarView::I8(x) => Some(x),
                _ => None,
            }),
    {
        match self {
            AllowedType::I8(x) => Some(*x),
            _ => None,
        }
    }

    /// The `i16` this value holds, if it is an `i16`.
    pub fn get_i16(&self) -> (r: Option<i16>)
        ensures
            r == (match self@ {
                ScalarView::I16(x) => Some(x),
                _ => None,
            }),
    {
        match self {
            AllowedType::I16(x) => Some(*x),
            _ => None,
        }
    }

    /// The `i32` this value holds, if it is an `i32`.
    pub fn get_i32(&self) -> (r: Option<i32>)
        ensures
            r == (match self@ {
                ScalarView::I32(x) => Some(x),
                _ => None,
            }),
    {
        match self {
            AllowedType::I32(x) => Some(*x),
            _ => None,
        }
    }

    /// The `i64` this value holds, if it is an `i64`.
    pub fn get_i64(&self) -> (r: Option<i64>)
        ensures
            r == (match self@ {
                ScalarView::I64(x) => Some(x),
                _ => None,
            }),
    {
        match self {
            AllowedType::I64(x) => Some(*x),
            _ => None,
        }
    }

    /// The `i128` this value holds, if it is an `i128`.
    pub fn get_i128(&self) -> (r: Option<i128>)
        ensures
            r == (match self@ {
                ScalarView::I128(x) => Some(x),
                _ => None,
            }),
    {
        match self {
            AllowedType::I128(x) => Some(*x),
            _ => None,
        }
    }

    /// The boolean this value holds, if it is a boolean.
    pub fn get_bool(&self) -> (r: Option<bool>)
        ensures
            r == (match self@ {
                ScalarView::Bool(x) => Some(x),
                _ => None,
            }),
    {
        match self {
            AllowedType::Bool(x) => Some(*x),
            _ => None,
        }
    }

    /// The bit pattern of the `f32` this value holds, if it holds one.
    pub fn get_f32_bits(&self) -> (r: Option<u32>)
        ensures
            r == (match self@ {
                ScalarView::F32(x) => Some(x),
                _ => None,
            }),
    {
        match self {
            AllowedType::F32(x) => Some(*x),
            _ => None,
        }
    }

    /// The bit pattern of the `f64` this value holds, if it holds one.
    pub fn get_f64_bits(&self) -> (r: Option<u64>)
        ensures
            r == (match self@ {
                ScalarView::F64(x) => Some(x),
                _ => None,
            }),
    {
        match self {
            AllowedType::F64(x) => Some(*x),
            _ => None,
        }
    }
}

} // verus!
