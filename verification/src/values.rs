//! Plain values exchanged with the runtime.
//!
//! Handles (threads, methods, classes, objects, strings, arrays and native
//! buffers) are the addresses the runtime handed out, kept as `u64`; zero is
//! the null handle.
use crate::text::{contains_nul, lemma_plain_text_has_no_nul};
use vstd::prelude::*;

verus! {

/// One level of a thread's call stack: the method and the instruction
/// location at which it currently stands.
#[derive(Clone, Copy, Debug, PartialEq, Eq, Structural)]
pub struct StackFrame {
    pub method: u64,
    pub location: i64,
}

/// The width and interpretation of a stack slot read.
#[derive(Clone, Copy, Debug, PartialEq, Eq, Structural)]
pub enum SlotKind {
    Object,
    Long,
    Float,
    Double,
    Int,
}

/// The raw bits read from a stack slot. Floating-point slots are carried as
/// their IEEE-754 bit patterns.
#[derive(Clone, Copy, Debug, PartialEq, Eq, Structural)]
pub enum RawValue {
    Object(u64),
    Long(i64),
    Float(u32),
    Double(u64),
    Int(i32),
}

impl RawValue {
    /// The slot kind a raw value was read as.
    pub open spec fn spec_kind(self) -> SlotKind {
        match self {
            RawValue::Object(_) => SlotKind::Object,
            RawValue::Long(_) => SlotKind::Long,
            RawValue::Float(_) => SlotKind::Float,
            RawValue::Double(_) => SlotKind::Double,
            RawValue::Int(_) => SlotKind::Int,
        }
    }

    #[verifier::when_used_as_spec(spec_kind)]
    pub fn kind(self) -> (kind: SlotKind)
        ensures
            kind == self.spec_kind(),
    {
        match self {
            RawValue::Object(_) => SlotKind::Object,
            RawValue::Long(_) => SlotKind::Long,
            RawValue::Float(_) => SlotKind::Float,
            RawValue::Double(_) => SlotKind::Double,
            RawValue::Int(_) => SlotKind::Int,
        }
    }
}

/// What the leading byte of a type signature says about a local variable.
#[derive(Clone, Copy, Debug, PartialEq, Eq, Structural)]
pub enum SignatureKind {
    /// `[` or `L`: an array or object reference.
    Reference,
    /// `J`
    Long,
    /// `F`
    Float,
    /// `D`
    Double,
    /// `I`
    Int,
    /// `S`
    Short,
    /// `C`
    Char,
    /// `B`
    Byte,
    /// `Z`
    Boolean,
    /// An empty signature, or any other leading byte.
    Unknown,
}

/// How a primitive local is turned into a managed object: the slot read to
/// perform, the wrapper class, and the signature of its `valueOf` factory.
#[derive(Clone, Copy, Debug)]
pub struct Boxing {
    pub read: SlotKind,
    pub class: &'static str,
    pub signature: &'static str,
}

/// `[`, the leading byte of an array's type signature.
pub const CODE_ARRAY: u8 = 0x5B;

/// `L`, the leading byte of an object's type signature.
pub const CODE_OBJECT: u8 = 0x4C;

/// `J`, the type signature of a 64-bit integer.
pub const CODE_LONG: u8 = 0x4A;

/// `F`, the type signature of a single-precision float.
pub const CODE_FLOAT: u8 = 0x46;

/// `D`, the type signature of a double-precision float.
pub const CODE_DOUBLE: u8 = 0x44;

/// `I`, the type signature of a 32-bit integer.
pub const CODE_INT: u8 = 0x49;

/// `S`, the type signature of a 16-bit integer.
pub const CODE_SHORT: u8 = 0x53;

/// `C`, the type signature of a character.
pub const CODE_CHAR: u8 = 0x43;

/// `B`, the type signature of a byte.
pub const CODE_BYTE: u8 = 0x42;

/// `Z`, the type signature of a boolean.
pub const CODE_BOOLEAN: u8 = 0x5A;

/// The classification of a leading signature byte.
pub open spec fn kind_of_code(code: u8) -> SignatureKind {
    if code == CODE_ARRAY || code == CODE_OBJECT {
        SignatureKind::Reference
    } else if code == CODE_LONG {
        SignatureKind::Long
    } else if code == CODE_FLOAT {
        SignatureKind::Float
    } else if code == CODE_DOUBLE {
        SignatureKind::Double
    } else if code == CODE_INT {
        SignatureKind::Int
    } else if code == CODE_SHORT {
        SignatureKind::Short
    } else if code == CODE_CHAR {
        SignatureKind::Char
    } else if code == CODE_BYTE {
        SignatureKind::Byte
    } else if code == CODE_BOOLEAN {
        SignatureKind::Boolean
    } else {
        SignatureKind::Unknown
    }
}

/// The classification of a whole type signature: that of its first byte, and
/// `Unknown` when there is none.
pub open spec fn kind_of_signature(signature: Seq<u8>) -> SignatureKind {
    if signature.len() == 0 {
        SignatureKind::Unknown
    } else {
        kind_of_code(signature[0])
    }
}

impl SignatureKind {
    /// Classifies a leading signature byte.
    pub fn of_code(code: u8) -> (kind: SignatureKind)
        ensures
            kind == kind_of_code(code),
    {
        if code == CODE_ARRAY || code == CODE_OBJECT {
            SignatureKind::Reference
        } else if code == CODE_LONG {
            SignatureKind::Long
        } else if code == CODE_FLOAT {
            SignatureKind::Float
        } else if code == CODE_DOUBLE {
            SignatureKind::Double
        } else if code == CODE_INT {
            SignatureKind::Int
        } else if code == CODE_SHORT {
            SignatureKind::Short
        } else if code == CODE_CHAR {
            SignatureKind::Char
        } else if code == CODE_BYTE {
            SignatureKind::Byte
        } else if code == CODE_BOOLEAN {
            SignatureKind::Boolean
        } else {
            SignatureKind::Unknown
        }
    }

    /// Classifies a type signature by its leading byte.
    pub fn of(signature: &[u8]) -> (kind: SignatureKind)
        ensures
            kind == kind_of_signature(signature@),
    {
        if signature.len() == 0 {
            SignatureKind::Unknown
        } else {
            SignatureKind::of_code(signature[0])
        }
    }

    /// The slot read that fetches a local of this kind, if there is one.
    #[verifier::when_used_as_spec(spec_read)]
    pub fn read(self) -> (read: Option<SlotKind>)
        ensures
            read == self.spec_read(),
    {
        match self {
            SignatureKind::Reference => Some(SlotKind::Object),
            SignatureKind::Long => Some(SlotKind::Long),
            SignatureKind::Float => Some(SlotKind::Float),
            SignatureKind::Double => Some(SlotKind::Double),
            SignatureKind::Unknown => None,
            _ => Some(SlotKind::Int),
        }
    }

    /// The slot read that fetches a local of this kind, if there is one.
    pub open spec fn spec_read(self) -> Option<SlotKind> {
        match self {
            SignatureKind::Reference => Some(SlotKind::Object),
            SignatureKind::Long => Some(SlotKind::Long),
            SignatureKind::Float => Some(SlotKind::Float),
            SignatureKind::Double => Some(SlotKind::Double),
            SignatureKind::Int => Some(SlotKind::Int),
            SignatureKind::Short => Some(SlotKind::Int),
            SignatureKind::Char => Some(SlotKind::Int),
            SignatureKind::Byte => Some(SlotKind::Int),
            SignatureKind::Boolean => Some(SlotKind::Int),
            SignatureKind::Unknown => None,
        }
    }

    /// The wrapper class of a primitive kind, as a binary name.
    pub open spec fn spec_wrapper_class(self) -> Option<Seq<char>> {
        match self {
            SignatureKind::Long => Some("java/lang/Long"@),
            SignatureKind::Float => Some("java/lang/Float"@),
            SignatureKind::Double => Some("java/lang/Double"@),
            SignatureKind::Int => Some("java/lang/Integer"@),
            SignatureKind::Short => Some("java/lang/Short"@),
            SignatureKind::Char => Some("java/lang/Character"@),
            SignatureKind::Byte => Some("java/lang/Byte"@),
            SignatureKind::Boolean => Some("java/lang/Boolean"@),
            _ => None,
        }
    }

    /// The signature of the wrapper class's boxing factory.
    pub open spec fn spec_factory_signature(self) -> Option<Seq<char>> {
        match self {
            SignatureKind::Long => Some("(J)Ljava/lang/Long;"@),
            SignatureKind::Float => Some("(F)Ljava/lang/Float;"@),
            SignatureKind::Double => Some("(D)Ljava/lang/Double;"@),
            SignatureKind::Int => Some("(I)Ljava/lang/Integer;"@),
            SignatureKind::Short => Some("(S)Ljava/lang/Short;"@),
            SignatureKind::Char => Some("(C)Ljava/lang/Character;"@),
            SignatureKind::Byte => Some("(B)Ljava/lang/Byte;"@),
            SignatureKind::Boolean => Some("(Z)Ljava/lang/Boolean;"@),
            _ => None,
        }
    }

    /// The boxing of a primitive kind. References need none and unknown
    /// signatures have none.
    pub fn boxing(self) -> (boxing: Option<Boxing>)
        ensures
            boxing is Some <==> self.spec_wrapper_class() is Some,
            boxing matches Some(b) ==> {
                &&& Some(b.read) == self.spec_read()
                &&& Some(b.class@) == self.spec_wrapper_class()
                &&& Some(b.signature@) == self.spec_factory_signature()
            },
    {
        match self {
            SignatureKind::Long => Some(
                Boxing {
                    read: SlotKind::Long,
                    class: "java/lang/Long",
                    signature: "(J)Ljava/lang/Long;",
                },
            ),
            SignatureKind::Float => Some(
                Boxing {
                    read: SlotKind::Float,
                    class: "java/lang/Float",
                    signature: "(F)Ljava/lang/Float;",
                },
            ),
            SignatureKind::Double => Some(
                Boxing {
                    read: SlotKind::Double,
                    class: "java/lang/Double",
                    signature: "(D)Ljava/lang/Double;",
                },
            ),
            SignatureKind::Int => Some(
                Boxing {
                    read: SlotKind::Int,
                    class: "java/lang/Integer",
                    signature: "(I)Ljava/lang/Integer;",
                },
            ),
            SignatureKind::Short => Some(
                Boxing {
                    read: SlotKind::Int,
                    class: "java/lang/Short",
                    signature: "(S)Ljava/lang/Short;",
                },
            ),
            SignatureKind::Char => Some(
                Boxing {
                    read: SlotKind::Int,
                    class: "java/lang/Character",
                    signature: "(C)Ljava/lang/Character;",
                },
            ),
            SignatureKind::Byte => Some(
                Boxing {
                    read: SlotKind::Int,
                    class: "java/lang/Byte",
                    signature: "(B)Ljava/lang/Byte;",
                },
            ),
            SignatureKind::Boolean => Some(
                Boxing {
                    read: SlotKind::Int,
                    class: "java/lang/Boolean",
                    signature: "(Z)Ljava/lang/Boolean;",
                },
            ),
            _ => None,
        }
    }
}

/// One entry of a method's local variable table.
///
/// `name`, `signature` and `generic_signature` are the native buffers the
/// debug interface allocated for the entry (the last may be null); they are
/// owned by whoever obtained the table and must be handed back. `kind` is the
/// classification of the signature's text.
#[derive(Clone, Copy, Debug, PartialEq, Eq, Structural)]
pub struct LocalVariableEntry {
    pub start_location: i64,
    pub length: i32,
    pub name: u64,
    pub signature: u64,
    pub generic_signature: u64,
    pub slot: i32,
    pub kind: SignatureKind,
}

impl LocalVariableEntry {
    /// Whether the entry's slot holds this variable at `location`: the
    /// location lies in `[start_location, start_location + length]`, both
    /// ends included.
    pub open spec fn spec_is_live(self, location: i64) -> bool {
        self.start_location <= location <= self.start_location + self.length
    }

    #[verifier::when_used_as_spec(spec_is_live)]
    pub fn is_live(self, location: i64) -> (live: bool)
        ensures
            live == self.spec_is_live(location),
    {
        let start: i128 = self.start_location as i128;
        let end: i128 = start + self.length as i128;
        let at: i128 = location as i128;
        start <= at && at <= end
    }
}

/// The names of the wrapper classes and the signatures of their factories
/// are plain text without a zero byte, and so is the factory's name.
pub proof fn lemma_boxing_names_are_plain(kind: SignatureKind)
    ensures
        !contains_nul("valueOf"@),
        kind.spec_wrapper_class() matches Some(class) ==> !contains_nul(class),
        kind.spec_factory_signature() matches Some(signature) ==> !contains_nul(signature),
{
    reveal_strlit("valueOf");
    reveal_strlit("java/lang/Long");
    reveal_strlit("java/lang/Float");
    reveal_strlit("java/lang/Double");
    reveal_strlit("java/lang/Integer");
    reveal_strlit("java/lang/Short");
    reveal_strlit("java/lang/Character");
    reveal_strlit("java/lang/Byte");
    reveal_strlit("java/lang/Boolean");
    reveal_strlit("(J)Ljava/lang/Long;");
    reveal_strlit("(F)Ljava/lang/Float;");
    reveal_strlit("(D)Ljava/lang/Double;");
    reveal_strlit("(I)Ljava/lang/Integer;");
    reveal_strlit("(S)Ljava/lang/Short;");
    reveal_strlit("(C)Ljava/lang/Character;");
    reveal_strlit("(B)Ljava/lang/Byte;");
    reveal_strlit("(Z)Ljava/lang/Boolean;");
    lemma_plain_text_has_no_nul("valueOf"@);
    match kind.spec_wrapper_class() {
        Some(class) => lemma_plain_text_has_no_nul(class),
        None => {},
    }
    match kind.spec_factory_signature() {
        Some(signature) => lemma_plain_text_has_no_nul(signature),
        None => {},
    }
}

} // verus!
