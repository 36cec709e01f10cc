//! Usage types: which tariff applies.

use vstd::prelude::*;
use vstd::string::*;
use crate::text::{lowercase, same_text, to_lowercase};

verus! {

/// The kind of electricity use a tariff is for.
#[derive(Debug, Clone, Copy, PartialEq, Eq, Structural)]
pub enum UsageType {
    /// Household use.
    Residential,
    /// Vehicle charging.
    Charging,
}

/// The Chinese label of a usage type.
pub open spec fn usage_label(u: UsageType) -> Seq<char> {
    match u {
        UsageType::Residential => "居民用电"@,
        UsageType::Charging => "充电桩"@,
    }
}

/// The usage type that a lowercased name selects, if any.
pub open spec fn usage_from_name(l: Seq<char>) -> Option<UsageType> {
    if l == "residential"@ || l == "居民"@ || l == "jumin"@ {
        Some(UsageType::Residential)
    } else if l == "charging"@ || l == "充电"@ || l == "chongdian"@ {
        Some(UsageType::Charging)
    } else {
        None
    }
}

/// The message for an unknown usage type name.
pub open spec fn usage_error(s: Seq<char>) -> Seq<char> {
    "未知的用电类型: "@ + s + " (可选: residential/charging)"@
}

impl UsageType {
    /// The Chinese label, such as "居民用电".
    pub fn label(&self) -> (r: &'static str)
        ensures
            r@ == usage_label(*self),
    {
        match self {
            UsageType::Residential => "居民用电",
            UsageType::Charging => "充电桩",
        }
    }

    /// Parses a usage type name, ignoring case: "residential", "居民" or
    /// "jumin" for residential use; "charging", "充电" or "chongdian" for
    /// charging.
    pub fn parse(s: &str) -> (r: Result<UsageType, String>)
        ensures
            usage_from_name(lowercase(s@)) matches Some(u) ==> r == Ok::<UsageType, String>(u),
            usage_from_name(lowercase(s@)) is None ==> (r matches Err(m) && m@ == usage_error(s@)),
    {
        let lower = to_lowercase(s);
        let l = lower.as_str();
        if same_text(l, "residential") || same_text(l, "居民") || same_text(l, "jumin") {
            Ok(UsageType::Residential)
        } else if same_text(l, "charging") || same_text(l, "充电") || same_text(l, "chongdian") {
            Ok(UsageType::Charging)
        } else {
            let mut m = "未知的用电类型: ".to_owned();
            m.append(s);
            m.append(" (可选: residential/charging)");
            Err(m)
        }
    }
}

impl std::str::FromStr for UsageType {
    type Err = String;

    fn from_str(s: &str) -> (r: Result<UsageType, String>)
        ensures
            usage_from_name(lowercase(s@)) matches Some(u) ==> r == Ok::<UsageType, String>(u),
            usage_from_name(lowercase(s@)) is None ==> (r matches Err(m) && m@ == usage_error(s@)),
    {
        UsageType::parse(s)
    }
}

}
