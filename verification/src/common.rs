//! Shared wire vocabularies: comparison operators, sort direction, and the
//! wallpaper (display-configuration) variants, with their exact wire tokens.

use vstd::prelude::*;
use crate::text::lower_of;
use crate::text::lowercase;

verus! {

/// A display-configuration-specific rendering of a wallpaper.
#[derive(Debug, Clone, PartialEq, Eq, Structural)]
pub enum WallpaperType {
    Single,
    Dual,
    Triple,
    Mobile,
}

/// The wire token of a wallpaper type.
pub open spec fn wallpaper_type_wire(t: WallpaperType) -> Seq<char> {
    match t {
        WallpaperType::Single => "single"@,
        WallpaperType::Dual => "dual"@,
        WallpaperType::Triple => "triple"@,
        WallpaperType::Mobile => "mobile"@,
    }
}

impl WallpaperType {
    pub fn as_str(&self) -> (r: &'static str)
        ensures
            r@ == wallpaper_type_wire(*self),
    {
        match self {
            WallpaperType::Single => "single",
            WallpaperType::Dual => "dual",
            WallpaperType::Triple => "triple",
            WallpaperType::Mobile => "mobile",
        }
    }
}

/// Compares a numeric or date field against a caller-supplied threshold.
#[derive(Debug, Clone, PartialEq, Eq, Structural)]
pub enum Operator {
    Equal,
    GreaterThan,
    GreaterThanOrEqual,
    LessThan,
    LessThanOrEqual,
}

/// The wire token of an operator.
pub open spec fn operator_wire(op: Operator) -> Seq<char> {
    match op {
        Operator::Equal => "="@,
        Operator::GreaterThan => ">"@,
        Operator::GreaterThanOrEqual => ">="@,
        Operator::LessThan => "<"@,
        Operator::LessThanOrEqual => "<="@,
    }
}

impl Operator {
    pub fn as_str(&self) -> (r: &'static str)
        ensures
            r@ == operator_wire(*self),
    {
        match self {
            Operator::Equal => "=",
            Operator::GreaterThan => ">",
            Operator::GreaterThanOrEqual => ">=",
            Operator::LessThan => "<",
            Operator::LessThanOrEqual => "<=",
        }
    }
}

/// Sort direction of a wallpaper listing.
#[derive(Debug, Clone, PartialEq, Eq, Structural)]
pub enum Order {
    Ascending,
    Descending,
}

/// The wire token of a sort direction.
pub open spec fn order_wire(o: Order) -> Seq<char> {
    match o {
        Order::Ascending => "asc"@,
        Order::Descending => "desc"@,
    }
}

impl Order {
    pub fn as_str(&self) -> (r: &'static str)
        ensures
            r@ == order_wire(*self),
    {
        match self {
            Order::Ascending => "asc",
            Order::Descending => "desc",
        }
    }
}

/// The wallpaper type a wire token denotes, if any (exact match).
pub open spec fn wallpaper_type_of(s: Seq<char>) -> Option<WallpaperType> {
    if s == "single"@ {
        Some(WallpaperType::Single)
    } else if s == "dual"@ {
        Some(WallpaperType::Dual)
    } else if s == "triple"@ {
        Some(WallpaperType::Triple)
    } else if s == "mobile"@ {
        Some(WallpaperType::Mobile)
    } else {
        None
    }
}

/// The message reported for a token that names no wallpaper type.
pub open spec fn unknown_type_message(input: Seq<char>) -> Seq<char> {
    "Unknown wallpaper type "@ + input
}

fn str_eq(a: &str, b: &str) -> (r: bool)
    ensures
        r == (a@ == b@),
{
    let a_owned = a.to_owned();
    let b_owned = b.to_owned();
    a_owned == b_owned
}

/// Decides which wallpaper type a wire token denotes (exact match).
pub fn wallpaper_type_from_wire(s: &str) -> (r: Option<WallpaperType>)
    ensures
        r == wallpaper_type_of(s@),
{
    if str_eq(s, "single") {
        Some(WallpaperType::Single)
    } else if str_eq(s, "dual") {
        Some(WallpaperType::Dual)
    } else if str_eq(s, "triple") {
        Some(WallpaperType::Triple)
    } else if str_eq(s, "mobile") {
        Some(WallpaperType::Mobile)
    } else {
        None
    }
}

impl WallpaperType {
    /// Parses a wallpaper type from text: the input itself when matching
    /// case-sensitively, its lowercase form otherwise; any other token is
    /// reported back in the error message.
    pub fn from_str(input: &str, ignore_case: bool) -> (r: Result<WallpaperType, String>)
        ensures
            ({
                let token = if ignore_case {
                    lower_of(input@)
                } else {
                    input@
                };
                match wallpaper_type_of(token) {
                    Some(t) => r == Ok::<WallpaperType, String>(t),
                    None => r matches Err(m) && m@ == unknown_type_message(input@),
                }
            }),
    {
        let token = if ignore_case {
            lowercase(input)
        } else {
            input.to_owned()
        };
        match wallpaper_type_from_wire(token.as_str()) {
            Some(t) => Ok(t),
            None => {
                let mut m = "Unknown wallpaper type ".to_owned();
                m.append(input);
                Err(m)
            },
        }
    }
}

} // verus!
