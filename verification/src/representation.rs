//! The integer kinds that can store a tag, and the resolver that recognises
//! them by name.

use vstd::prelude::*;
use vstd::string::*;

verus! {

/// The integer kind that stores a union's tag.
#[derive(Clone, Copy, Debug, PartialEq, Eq, Structural)]
pub enum Representation {
    U8,
    U16,
    U32,
    U64,
    U128,
    I8,
    I16,
    I32,
    I64,
    I128,
    Usize,
    Isize,
}

/// The requested representation is not an integer kind with a defined tag
/// layout.
#[derive(Debug)]
pub struct ConfigurationError {
    /// The token that was not recognised.
    pub token: String,
    /// The union for which it was requested.
    pub union_name: String,
}

/// A recognised representation, with the advice that goes with it.
#[derive(Debug)]
pub struct Resolved {
    pub representation: Representation,
    /// Advisory text for a representation whose width varies by platform.
    pub warning: Option<String>,
}

/// The representation that a token names, if it names one.
pub open spec fn named_representation(token: Seq<char>) -> Option<Representation> {
    if token == "u8"@ {
        Some(Representation::U8)
    } else if token == "u16"@ {
        Some(Representation::U16)
    } else if token == "u32"@ {
        Some(Representation::U32)
    } else if token == "u64"@ {
        Some(Representation::U64)
    } else if token == "u128"@ {
        Some(Representation::U128)
    } else if token == "i8"@ {
        Some(Representation::I8)
    } else if token == "i16"@ {
        Some(Representation::I16)
    } else if token == "i32"@ {
        Some(Representation::I32)
    } else if token == "i64"@ {
        Some(Representation::I64)
    } else if token == "i128"@ {
        Some(Representation::I128)
    } else if token == "usize"@ {
        Some(Representation::Usize)
    } else if token == "isize"@ {
        Some(Representation::Isize)
    } else {
        None
    }
}

/// The advisory text for a platform-width representation named `token`.
pub open spec fn portability_text(token: Seq<char>) -> Seq<char> {
    "The "@ + token
        + " discriminant type varies in size between architectures. It is recommended to use fixed-length data types."@
}

/// The message of a configuration error.
pub open spec fn configuration_text(token: Seq<char>, union_name: Seq<char>) -> Seq<char> {
    "Unsupported discriminant type `"@ + token + "` for `"@ + union_name
        + "`. Must be a primitive integer type. See <https://doc.rust-lang.org/reference/type-layout.html#primitive-representations>"@
}

/// Whether two strings hold the same characters.
fn same_text(a: &str, b: &str) -> (r: bool)
    ensures
        r == (a@ == b@),
{
    let x = String::from_str(a);
    let y = String::from_str(b);
    x == y
}

impl Representation {
    /// Whether the kind is signed.
    pub open spec fn is_signed(self) -> bool {
        match self {
            Representation::I8
            | Representation::I16
            | Representation::I32
            | Representation::I64
            | Representation::I128
            | Representation::Isize => true,
            _ => false,
        }
    }

    /// Whether the kind's width depends on the target platform.
    pub open spec fn is_platform_width(self) -> bool {
        self == Representation::Usize || self == Representation::Isize
    }

    /// The largest integer that the kind can hold.
    pub open spec fn max_value(self) -> int {
        match self {
            Representation::U8 => u8::MAX as int,
            Representation::U16 => u16::MAX as int,
            Representation::U32 => u32::MAX as int,
            Representation::U64 => u64::MAX as int,
            Representation::U128 => u128::MAX as int,
            Representation::I8 => i8::MAX as int,
            Representation::I16 => i16::MAX as int,
            Representation::I32 => i32::MAX as int,
            Representation::I64 => i64::MAX as int,
            Representation::I128 => i128::MAX as int,
            Representation::Usize => usize::MAX as int,
            Representation::Isize => isize::MAX as int,
        }
    }

    /// The kind's width in bits, where it is the same on every platform.
    pub open spec fn fixed_bit_width(self) -> Option<u32> {
        match self {
            Representation::U8 | Representation::I8 => Some(8u32),
            Representation::U16 | Representation::I16 => Some(16u32),
            Representation::U32 | Representation::I32 => Some(32u32),
            Representation::U64 | Representation::I64 => Some(64u32),
            Representation::U128 | Representation::I128 => Some(128u32),
            Representation::Usize | Representation::Isize => None,
        }
    }

    /// The name by which the kind is written.
    pub open spec fn name_text(self) -> Seq<char> {
        match self {
            Representation::U8 => "u8"@,
            Representation::U16 => "u16"@,
            Representation::U32 => "u32"@,
            Representation::U64 => "u64"@,
            Representation::U128 => "u128"@,
            Representation::I8 => "i8"@,
            Representation::I16 => "i16"@,
            Representation::I32 => "i32"@,
            Representation::I64 => "i64"@,
            Representation::I128 => "i128"@,
            Representation::Usize => "usize"@,
            Representation::Isize => "isize"@,
        }
    }

    /// Recognises the representation that `token` names for the union
    /// `union_name`. A platform-width kind is accepted with a warning; any
    /// token but the twelve names is a configuration error that carries the
    /// token and the union's name.
    pub fn resolve(token: &str, union_name: &str) -> (r: Result<Resolved, ConfigurationError>)
        ensures
            match r {
                Ok(found) => {
                    &&& named_representation(token@) == Some(found.representation)
                    &&& match found.warning {
                        Some(text) => found.representation.is_platform_width() && text@
                            == portability_text(token@),
                        None => !found.representation.is_platform_width(),
                    }
                },
                Err(e) => {
                    &&& named_representation(token@) is None
                    &&& e.token@ == token@
                    &&& e.union_name@ == union_name@
                },
            },
    {
        let kind = if same_text(token, "u8") {
            Some(Representation::U8)
        } else if same_text(token, "u16") {
            Some(Representation::U16)
        } else if same_text(token, "u32") {
            Some(Representation::U32)
        } else if same_text(token, "u64") {
            Some(Representation::U64)
        } else if same_text(token, "u128") {
            Some(Representation::U128)
        } else if same_text(token, "i8") {
            Some(Representation::I8)
        } else if same_text(token, "i16") {
            Some(Representation::I16)
        } else if same_text(token, "i32") {
            Some(Representation::I32)
        } else if same_text(token, "i64") {
            Some(Representation::I64)
        } else if same_text(token, "i128") {
            Some(Representation::I128)
        } else if same_text(token, "usize") {
            Some(Representation::Usize)
        } else if same_text(token, "isize") {
            Some(Representation::Isize)
        } else {
            None
        };
        match kind {
            Some(representation) => {
                let warning = if representation.platform_width() {
                    Some(
                        String::from_str("The ").concat(token).concat(
                            " discriminant type varies in size between architectures. It is recommended to use fixed-length data types.",
                        ),
                    )
                } else {
                    None
                };
                Ok(Resolved { representation, warning })
            },
            None => Err(
                ConfigurationError {
                    token: String::from_str(token),
                    union_name: String::from_str(union_name),
                },
            ),
        }
    }

    /// Whether the kind is signed.
    pub fn signed(self) -> (r: bool)
        ensures
            r == self.is_signed(),
    {
        match self {
            Representation::I8
            | Representation::I16
            | Representation::I32
            | Representation::I64
            | Representation::I128
            | Representation::Isize => true,
            _ => false,
        }
    }

    /// Whether the kind's width depends on the target platform.
    pub fn platform_width(self) -> (r: bool)
        ensures
            r == self.is_platform_width(),
    {
        match self {
            Representation::Usize | Representation::Isize => true,
            _ => false,
        }
    }

    /// The kind's width in bits, or `None` for a platform-width kind.
    pub fn bit_width(self) -> (r: Option<u32>)
        ensures
            r == self.fixed_bit_width(),
    {
        match self {
            Representation::U8 | Representation::I8 => Some(8u32),
            Representation::U16 | Representation::I16 => Some(16u32),
            Representation::U32 | Representation::I32 => Some(32u32),
            Representation::U64 | Representation::I64 => Some(64u32),
            Representation::U128 | Representation::I128 => Some(128u32),
            Representation::Usize | Representation::Isize => None,
        }
    }

    /// The largest offset that a counter of this kind can reach.
    pub fn ceiling(self) -> (r: u128)
        ensures
            r == self.max_value(),
    {
        match self {
            Representation::U8 => u8::MAX as u128,
            Representation::U16 => u16::MAX as u128,
            Representation::U32 => u32::MAX as u128,
            Representation::U64 => u64::MAX as u128,
            Representation::U128 => u128::MAX,
            Representation::I8 => i8::MAX as u128,
            Representation::I16 => i16::MAX as u128,
            Representation::I32 => i32::MAX as u128,
            Representation::I64 => i64::MAX as u128,
            Representation::I128 => i128::MAX as u128,
            Representation::Usize => usize::MAX as u128,
            Representation::Isize => isize::MAX as u128,
        }
    }

    /// The name by which the kind is written.
    pub fn name(self) -> (r: &'static str)
        ensures
            r@ == self.name_text(),
    {
        match self {
            Representation::U8 => "u8",
            Representation::U16 => "u16",
            Representation::U32 => "u32",
            Representation::U64 => "u64",
            Representation::U128 => "u128",
            Representation::I8 => "i8",
            Representation::I16 => "i16",
            Representation::I32 => "i32",
            Representation::I64 => "i64",
            Representation::I128 => "i128",
            Representation::Usize => "usize",
            Representation::Isize => "isize",
        }
    }

    /// The literal for zero, typed by the kind.
    pub fn zero_literal(self) -> (r: String)
        ensures
            r@ == "0"@ + self.name_text(),
    {
        String::from_str("0").concat(self.name())
    }

    /// The literal for one, typed by the kind.
    pub fn one_literal(self) -> (r: String)
        ensures
            r@ == "1"@ + self.name_text(),
    {
        String::from_str("1").concat(self.name())
    }
}

impl ConfigurationError {
    /// The text that reports the error: it names the token and the union.
    pub fn message(&self) -> (r: String)
        ensures
            r@ == configuration_text(self.token@, self.union_name@),
    {
        String::from_str("Unsupported discriminant type `").concat(self.token.as_str()).concat(
            "` for `",
        ).concat(self.union_name.as_str()).concat(
            "`. Must be a primitive integer type. See <https://doc.rust-lang.org/reference/type-layout.html#primitive-representations>",
        )
    }
}

} // verus!
