//! The self-update decision: whether a published release is newer than the
//! running build, and which of its artifacts fits this platform. Fetching
//! the release record and swapping binaries is the surrounding program's
//! work.
use crate::strutil;
use crate::Os;
use vstd::prelude::*;

verus! {

/// The number a release tag denotes: its digits with the dots removed, read
/// as one integer; nothing when what remains is not a number.
pub open spec fn numeric_tag_spec(s: Seq<char>) -> Option<i32> {
    strutil::parse_i32_spec(strutil::replace_all_spec(s, "."@, Seq::empty()))
}

/// The number a release tag denotes.
pub fn numeric_tag(s: &str) -> (r: Option<i32>)
    ensures
        r == numeric_tag_spec(s@),
{
    proof {
        reveal_strlit(".");
        reveal_strlit("");
        assert(""@ =~= Seq::<char>::empty());
    }
    let stripped = strutil::replace_all(s, ".", "");
    strutil::parse_i32(stripped.as_str())
}

/// The download URL of the first release artifact whose name mentions this
/// platform; nothing when none does.
pub open spec fn select_asset_spec(assets: Seq<(String, String)>, os: Os) -> Seq<char>
    decreases assets.len(),
{
    if assets.len() == 0 {
        Seq::empty()
    } else if strutil::contains_seq(assets[0].0@, crate::os_name_spec(os)) {
        assets[0].1@
    } else {
        select_asset_spec(assets.skip(1), os)
    }
}

/// Decides the self-update: a strictly newer release yields its platform
/// artifact's URL (or nothing when the release carries none) and its tag; a
/// release tag that is not a number, or one no newer than the running
/// build, is refused with the matching message.
pub fn update_decision(
    current_version: &str,
    latest_tag: &str,
    assets: &Vec<(String, String)>,
    os: Os,
) -> (r: Result<(String, String), String>)
    requires
        numeric_tag_spec(current_version@) is Some,
    ensures
        match r {
            Result::Ok(t) => numeric_tag_spec(latest_tag@) is Some && numeric_tag_spec(
                latest_tag@,
            )->0 > numeric_tag_spec(current_version@)->0 && t.0@ == select_asset_spec(assets@, os)
                && t.1@ == latest_tag@,
            Result::Err(m) => (numeric_tag_spec(latest_tag@) is None && m@
                == "Failed to parse latest version number."@) || (numeric_tag_spec(latest_tag@)
                is Some && numeric_tag_spec(latest_tag@)->0 <= numeric_tag_spec(
                current_version@,
            )->0 && m@ == "Your Minelander is updated!"@),
        },
{
    let numeric_c: i32 = match numeric_tag(current_version) {
        Some(v) => v,
        None => {
            proof {
                assert(false);
            }
            0
        },
    };
    let numeric_l: i32 = match numeric_tag(latest_tag) {
        Some(v) => v,
        None => {
            return Err(String::from_str("Failed to parse latest version number."));
        },
    };
    if numeric_l > numeric_c {
        let n = assets.len();
        let mut i: usize = 0;
        proof {
            assert(assets@.skip(0) =~= assets@);
        }
        while i < n
            invariant
                i <= n,
                n == assets@.len(),
                numeric_tag_spec(current_version@) == Option::Some(numeric_c),
                numeric_tag_spec(latest_tag@) == Option::Some(numeric_l),
                numeric_l > numeric_c,
                select_asset_spec(assets@, os) == select_asset_spec(assets@.skip(i as int), os),
            decreases n - i,
        {
            let ghost rest = assets@.skip(i as int);
            proof {
                assert(rest[0] == assets@[i as int]);
                assert(rest.skip(1) =~= assets@.skip(i + 1));
            }
            if strutil::contains_sub(assets[i].0.as_str(), crate::os_name(os)) {
                return Ok((assets[i].1.clone(), String::from_str(latest_tag)));
            }
            i = i + 1;
        }
        proof {
            assert(assets@.skip(n as int) =~= Seq::<(String, String)>::empty());
        }
        Ok((String::new(), String::from_str(latest_tag)))
    } else {
        Err(String::from_str("Your Minelander is updated!"))
    }
}

} // verus!
