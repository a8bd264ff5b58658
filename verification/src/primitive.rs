//! The scalar types of the source language.

use vstd::prelude::*;
use crate::text::str_eq;

verus! {

/// A scalar type: what an array holds and what passes by value.
#[derive(Debug, Clone, Copy, PartialEq, Eq, Structural)]
pub enum Primitive {
    I8,
    I16,
    I32,
    I64,
    U8,
    U16,
    U32,
    U64,
    F16,
    F32,
    F64,
    Bool,
}

impl Primitive {
    /// The type's name in a manifest.
    pub open spec fn name(self) -> Seq<char> {
        match self {
            Primitive::I8 => "i8"@,
            Primitive::I16 => "i16"@,
            Primitive::I32 => "i32"@,
            Primitive::I64 => "i64"@,
            Primitive::U8 => "u8"@,
            Primitive::U16 => "u16"@,
            Primitive::U32 => "u32"@,
            Primitive::U64 => "u64"@,
            Primitive::F16 => "f16"@,
            Primitive::F32 => "f32"@,
            Primitive::F64 => "f64"@,
            Primitive::Bool => "bool"@,
        }
    }

    /// The type's spelling in the systems-language bindings.
    pub open spec fn rust_name(self) -> Seq<char> {
        match self {
            Primitive::I8 => "i8"@,
            Primitive::I16 => "i16"@,
            Primitive::I32 => "i32"@,
            Primitive::I64 => "i64"@,
            Primitive::U8 => "u8"@,
            Primitive::U16 => "u16"@,
            Primitive::U32 => "u32"@,
            Primitive::U64 => "u64"@,
            Primitive::F16 => "half::f16"@,
            Primitive::F32 => "f32"@,
            Primitive::F64 => "f64"@,
            Primitive::Bool => "bool"@,
        }
    }

    /// The type of the values that stand for the type in the ML-family
    /// bindings.
    pub open spec fn ocaml_name(self) -> Seq<char> {
        match self {
            Primitive::I8 => "int"@,
            Primitive::I16 => "int"@,
            Primitive::I32 => "int32"@,
            Primitive::I64 => "int64"@,
            Primitive::U8 => "Unsigned.uint8"@,
            Primitive::U16 => "Unsigned.uint16"@,
            Primitive::U32 => "Unsigned.uint32"@,
            Primitive::U64 => "Unsigned.uint64"@,
            Primitive::F16 => "Unsigned.uint16"@,
            Primitive::F32 => "float"@,
            Primitive::F64 => "float"@,
            Primitive::Bool => "bool"@,
        }
    }

    /// The description of the type's C representation in the ML-family
    /// bindings.
    pub open spec fn ctypes_name(self) -> Seq<char> {
        match self {
            Primitive::I8 => "int8_t"@,
            Primitive::I16 => "int16_t"@,
            Primitive::I32 => "int32_t"@,
            Primitive::I64 => "int64_t"@,
            Primitive::U8 => "uint8_t"@,
            Primitive::U16 => "uint16_t"@,
            Primitive::U32 => "uint32_t"@,
            Primitive::U64 => "uint64_t"@,
            Primitive::F16 => "uint16_t"@,
            Primitive::F32 => "float"@,
            Primitive::F64 => "double"@,
            Primitive::Bool => "bool"@,
        }
    }

    /// The part that the type gives to the name of an array wrapper.
    pub open spec fn tag(self) -> Seq<char> {
        match self {
            Primitive::I8 => "I8"@,
            Primitive::I16 => "I16"@,
            Primitive::I32 => "I32"@,
            Primitive::I64 => "I64"@,
            Primitive::U8 => "U8"@,
            Primitive::U16 => "U16"@,
            Primitive::U32 => "U32"@,
            Primitive::U64 => "U64"@,
            Primitive::F16 => "F16"@,
            Primitive::F32 => "F32"@,
            Primitive::F64 => "F64"@,
            Primitive::Bool => "Bool"@,
        }
    }

    /// The type's name in a manifest.
    pub fn to_str(&self) -> (r: &'static str)
        ensures
            r@ == self.name(),
    {
        match self {
            Primitive::I8 => "i8",
            Primitive::I16 => "i16",
            Primitive::I32 => "i32",
            Primitive::I64 => "i64",
            Primitive::U8 => "u8",
            Primitive::U16 => "u16",
            Primitive::U32 => "u32",
            Primitive::U64 => "u64",
            Primitive::F16 => "f16",
            Primitive::F32 => "f32",
            Primitive::F64 => "f64",
            Primitive::Bool => "bool",
        }
    }

    /// The type's spelling in the systems-language bindings.
    pub fn rust_type(&self) -> (r: &'static str)
        ensures
            r@ == self.rust_name(),
    {
        match self {
            Primitive::I8 => "i8",
            Primitive::I16 => "i16",
            Primitive::I32 => "i32",
            Primitive::I64 => "i64",
            Primitive::U8 => "u8",
            Primitive::U16 => "u16",
            Primitive::U32 => "u32",
            Primitive::U64 => "u64",
            Primitive::F16 => "half::f16",
            Primitive::F32 => "f32",
            Primitive::F64 => "f64",
            Primitive::Bool => "bool",
        }
    }

    /// The type of the values that stand for the type in the ML-family
    /// bindings.
    pub fn ocaml_type(&self) -> (r: &'static str)
        ensures
            r@ == self.ocaml_name(),
    {
        match self {
            Primitive::I8 => "int",
            Primitive::I16 => "int",
            Primitive::I32 => "int32",
            Primitive::I64 => "int64",
            Primitive::U8 => "Unsigned.uint8",
            Primitive::U16 => "Unsigned.uint16",
            Primitive::U32 => "Unsigned.uint32",
            Primitive::U64 => "Unsigned.uint64",
            Primitive::F16 => "Unsigned.uint16",
            Primitive::F32 => "float",
            Primitive::F64 => "float",
            Primitive::Bool => "bool",
        }
    }

    /// The description of the type's C representation in the ML-family
    /// bindings.
    pub fn ctypes_type(&self) -> (r: &'static str)
        ensures
            r@ == self.ctypes_name(),
    {
        match self {
            Primitive::I8 => "int8_t",
            Primitive::I16 => "int16_t",
            Primitive::I32 => "int32_t",
            Primitive::I64 => "int64_t",
            Primitive::U8 => "uint8_t",
            Primitive::U16 => "uint16_t",
            Primitive::U32 => "uint32_t",
            Primitive::U64 => "uint64_t",
            Primitive::F16 => "uint16_t",
            Primitive::F32 => "float",
            Primitive::F64 => "double",
            Primitive::Bool => "bool",
        }
    }

    /// The part that the type gives to the name of an array wrapper.
    pub fn wrapper_tag(&self) -> (r: &'static str)
        ensures
            r@ == self.tag(),
    {
        match self {
            Primitive::I8 => "I8",
            Primitive::I16 => "I16",
            Primitive::I32 => "I32",
            Primitive::I64 => "I64",
            Primitive::U8 => "U8",
            Primitive::U16 => "U16",
            Primitive::U32 => "U32",
            Primitive::U64 => "U64",
            Primitive::F16 => "F16",
            Primitive::F32 => "F32",
            Primitive::F64 => "F64",
            Primitive::Bool => "Bool",
        }
    }

    /// Finds the scalar type that a manifest calls `name`.
    pub fn from_name(name: &str) -> (r: Option<Primitive>)
        ensures
            r == primitive_named(name@),
    {
        if str_eq(name, "i8") {
            Some(Primitive::I8)
        } else if str_eq(name, "i16") {
            Some(Primitive::I16)
        } else if str_eq(name, "i32") {
            Some(Primitive::I32)
        } else if str_eq(name, "i64") {
            Some(Primitive::I64)
        } else if str_eq(name, "u8") {
            Some(Primitive::U8)
        } else if str_eq(name, "u16") {
            Some(Primitive::U16)
        } else if str_eq(name, "u32") {
            Some(Primitive::U32)
        } else if str_eq(name, "u64") {
            Some(Primitive::U64)
        } else if str_eq(name, "f16") {
            Some(Primitive::F16)
        } else if str_eq(name, "f32") {
            Some(Primitive::F32)
        } else if str_eq(name, "f64") {
            Some(Primitive::F64)
        } else if str_eq(name, "bool") {
            Some(Primitive::Bool)
        } else {
            None
        }
    }
}

/// The scalar type whose manifest name is `name`, if there is one.
pub open spec fn primitive_named(name: Seq<char>) -> Option<Primitive> {
    if name == "i8"@ {
        Some(Primitive::I8)
    } else if name == "i16"@ {
        Some(Primitive::I16)
    } else if name == "i32"@ {
        Some(Primitive::I32)
    } else if name == "i64"@ {
        Some(Primitive::I64)
    } else if name == "u8"@ {
        Some(Primitive::U8)
    } else if name == "u16"@ {
        Some(Primitive::U16)
    } else if name == "u32"@ {
        Some(Primitive::U32)
    } else if name == "u64"@ {
        Some(Primitive::U64)
    } else if name == "f16"@ {
        Some(Primitive::F16)
    } else if name == "f32"@ {
        Some(Primitive::F32)
    } else if name == "f64"@ {
        Some(Primitive::F64)
    } else if name == "bool"@ {
        Some(Primitive::Bool)
    } else {
        None
    }
}

/// No two scalar types share a manifest name.
pub proof fn lemma_primitive_names_distinct(a: Primitive, b: Primitive)
    requires
        a.name() == b.name(),
    ensures
        a == b,
{
    reveal_strlit("i8");
    reveal_strlit("i16");
    reveal_strlit("i32");
    reveal_strlit("i64");
    reveal_strlit("u8");
    reveal_strlit("u16");
    reveal_strlit("u32");
    reveal_strlit("u64");
    reveal_strlit("f16");
    reveal_strlit("f32");
    reveal_strlit("f64");
    reveal_strlit("bool");
    let x = a.name();
    let y = b.name();
    assert(x.len() == y.len());
    assert(x[0] == y[0]);
    assert(x[1] == y[1]);
    if x.len() > 2 {
        assert(x[2] == y[2]);
    }
}

/// `primitive_named` finds the one type that goes by a name.
pub proof fn lemma_primitive_named(name: Seq<char>)
    ensures
        forall|p: Primitive| #[trigger] p.name() == name ==> primitive_named(name) == Some(p),
        primitive_named(name) is Some ==> primitive_named(name)->0.name() == name,
{
    assert forall|p: Primitive| #[trigger] p.name() == name implies primitive_named(name) == Some(
        p,
    ) by {
        if primitive_named(name) is Some {
            lemma_primitive_names_distinct(p, primitive_named(name)->0);
        }
    }
}

} // verus!
