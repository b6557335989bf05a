//! Abilities that a character can use, and where their badges are found.
use vstd::prelude::*;
use vstd::string::*;

verus! {

/// Whether an ability is in use, used up, or still available.
#[derive(Debug, Copy, Clone, PartialEq, Eq, Structural)]
pub enum AbilityStatus {
    Active,
    Inactive,
    InStock,
}

/// The word for a status in badge file names.
pub open spec fn status_suffix(status: AbilityStatus) -> Seq<char> {
    match status {
        AbilityStatus::Active => "Activated"@,
        AbilityStatus::Inactive => "Inactive"@,
        AbilityStatus::InStock => "InStock"@,
    }
}

/// The path of the badge image of the ability `name` in the given status.
pub fn ability_asset_path(name: &str, status: &AbilityStatus) -> (r: String)
    ensures
        r@ == "/images/badges/"@ + name@ + "_"@ + status_suffix(*status) + ".png"@,
{
    let suffix = match status {
        AbilityStatus::Active => "Activated",
        AbilityStatus::Inactive => "Inactive",
        AbilityStatus::InStock => "InStock",
    };
    let mut r = String::from_str("/images/badges/");
    r.append(name);
    r.append("_");
    r.append(suffix);
    r.append(".png");
    r
}

} // verus!
