use vstd::prelude::*;
use vstd::string::StringExecFns;

use crate::text::push_char;

verus! {

/// Where an uploaded or synced asset can be found.
#[derive(Debug, Clone)]
pub enum AssetRef {
    /// An asset on the Roblox cloud, by id.
    Cloud(u64),
    /// A file in Studio's content folder, by its path there.
    Studio(String),
}

/// The decimal digit `d` as a character.
pub open spec fn spec_digit(d: nat) -> char {
    (d + 48) as char
}

/// The decimal notation of `n`, without leading zeros.
pub open spec fn spec_decimal(n: nat) -> Seq<char>
    decreases n,
{
    if n < 10 {
        seq![spec_digit(n)]
    } else {
        spec_decimal(n / 10).push(spec_digit(n % 10))
    }
}

/// How an asset reference is written: `rbxassetid://<id>` for the cloud,
/// `rbxasset://<path>` for Studio.
pub open spec fn spec_asset_ref_string(r: AssetRef) -> Seq<char> {
    match r {
        AssetRef::Cloud(id) => "rbxassetid://"@ + spec_decimal(id as nat),
        AssetRef::Studio(name) => "rbxasset://"@ + name@,
    }
}

fn digit_char(d: u64) -> (c: char)
    requires
        d < 10,
    ensures
        c == spec_digit(d as nat),
{
    ((d as u8) + 48) as char
}

/// Appends the decimal notation of `n`.
pub fn push_decimal(s: &mut String, n: u64)
    ensures
        final(s)@ == old(s)@ + spec_decimal(n as nat),
    decreases n,
{
    if n >= 10 {
        push_decimal(s, n / 10);
    }
    push_char(s, digit_char(n % 10));
    proof {
        if n >= 10 {
            assert(old(s)@ + spec_decimal(n as nat) =~= old(s)@ + spec_decimal((n / 10) as nat) + seq![spec_digit((n % 10) as nat)]);
        }
    }
}

impl AssetRef {
    /// The reference as it is written in code: `rbxassetid://<id>` or
    /// `rbxasset://<path>`.
    pub fn to_display_string(&self) -> (res: String)
        ensures
            res@ == spec_asset_ref_string(*self),
    {
        match self {
            AssetRef::Cloud(id) => {
                let mut s = "rbxassetid://".to_owned();
                push_decimal(&mut s, *id);
                s
            },
            AssetRef::Studio(name) => {
                let mut s = "rbxasset://".to_owned();
                s.append(name.as_str());
                s
            },
        }
    }
}

} // verus!
