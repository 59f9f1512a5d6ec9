use vstd::prelude::*;

verus! {

/// Slots granted.
pub const QUOTA_YES: &'static str = "quota-y";

/// Slots open ("green").
pub const QUOTA_GREEN: &'static str = "quota-g";

/// No slots.
pub const QUOTA_NONE: &'static str = "quota-non";

/// Slots closed ("red").
pub const QUOTA_RED: &'static str = "quota-r";

/// What a quota token says of availability; `None` for an unknown token.
pub open spec fn quota_value(s: Seq<char>) -> Option<bool> {
    if s == QUOTA_YES@ || s == QUOTA_GREEN@ {
        Some(true)
    } else if s == QUOTA_NONE@ || s == QUOTA_RED@ {
        Some(false)
    } else {
        None
    }
}

/// A quota field held a token outside the four known ones.
#[derive(Clone, Debug)]
pub struct QuotaError {
    pub token: String,
}

impl QuotaError {
    /// A sentence that names the offending token.
    pub fn message(&self) -> (r: String)
        ensures
            r@ == "unknown quota token: \""@ + self.token@ + "\""@,
    {
        let head = String::from_str("unknown quota token: \"");
        let named = head.concat(self.token.as_str());
        named.concat("\"")
    }
}

/// Decodes a quota token: `quota-y` and `quota-g` are `true`, `quota-non`
/// and `quota-r` are `false`, and any other text is an error that carries it.
pub fn bool_from_str(s: &str) -> (r: Result<bool, QuotaError>)
    ensures
        quota_value(s@) matches Some(b) ==> r == Ok::<bool, QuotaError>(b),
        quota_value(s@) is None ==> (r matches Err(e) && e.token@ == s@),
{
    let t = s.to_owned();
    if t == String::from_str(QUOTA_YES) || t == String::from_str(QUOTA_GREEN) {
        Ok(true)
    } else if t == String::from_str(QUOTA_NONE) || t == String::from_str(QUOTA_RED) {
        Ok(false)
    } else {
        Err(QuotaError { token: t })
    }
}

} // verus!
